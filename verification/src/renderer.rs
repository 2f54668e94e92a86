//! The renderer of a window: one frame at a time, from the first
//! notification to the presentation of the scene.
//!
//! A frame alternates between decisions, which are made here, and work that
//! only the caller can do: notifying the rendering notifier, looking up the
//! window, and walking the items of the window. [`VelloRenderer::render`]
//! starts a frame and answers with the first [`FrameAction`]; the caller
//! performs it and hands its outcome to [`VelloRenderer::proceed`] as a
//! [`FrameEvent`], until the action is [`FrameAction::Finished`].
//!
//! While the items are walked the scene and the image cache are in the hands
//! of the item renderer that the caller was given; they come back with it.

use vstd::prelude::*;
use crate::brush::{Brush, Color, rgba_of, to_peniko_color};
use crate::fixed::Fixed;
use crate::geometry::{Affine, PhysicalRect, Rotation, Size, Vector};
use crate::geometry::lemma_compose_identity;
use crate::image::{ImageCache, RawPixels};
use crate::itemrenderer::{RendererView, VelloItemRenderer, initial_state};
use crate::scene::{DrawOpView, Fill, Paint, PaintView, Scene, Shape, ShapeView};

verus! {

/// The points of the life of a renderer at which the rendering notifier is
/// called.
#[derive(Clone, Copy, Debug, PartialEq, Eq, Structural)]
pub enum RenderingState {
    /// Before the first frame.
    RenderingSetup,
    /// In every frame, before the items are drawn.
    BeforeRendering,
    /// In every frame, after the scene was presented.
    AfterRendering,
    /// When the renderer is disposed of.
    RenderingTeardown,
}

/// Why a rendering notifier was not registered.
#[derive(Clone, Copy, Debug, PartialEq, Eq, Structural)]
pub enum SetRenderingNotifierError {
    /// There is a rendering notifier already.
    AlreadySet,
}

/// Why a graphics backend could not do what it was asked.
#[derive(Debug, PartialEq)]
pub enum BackendError {
    DeviceNotInitialized,
    QueueNotInitialized,
    RendererNotInitialized,
    SurfaceNotInitialized,
    TargetViewNotInitialized,
    TargetTextureNotInitialized,
    BlitterNotInitialized,
    /// A texture can be copied to the target only at the size of the target.
    ScalingNotImplemented,
    /// The surface offers no pixel format.
    NoSurfaceFormat,
    /// An error of the GPU or its driver, with its message.
    Gpu(String),
}

/// Why a frame could not be rendered. The error ends the frame, not the
/// renderer: the next frame may succeed.
#[derive(Debug, PartialEq)]
pub enum PlatformError {
    /// The renderer has no window.
    NotAttached,
    /// An event came that the frame was not waiting for.
    OutOfTurn,
    /// The rendering notifier was to be called, but the backend holds no
    /// handles of the GPU to give to it.
    NoGraphicsApi,
    /// The graphics backend failed.
    Backend(BackendError),
    /// Another error of the platform, with its message.
    Other(String),
}

impl BackendError {
    /// The error in words.
    pub open spec fn spec_message(self) -> Seq<char> {
        match self {
            BackendError::DeviceNotInitialized => "Device not initialized"@,
            BackendError::QueueNotInitialized => "Queue not initialized"@,
            BackendError::RendererNotInitialized => "Vello renderer not initialized"@,
            BackendError::SurfaceNotInitialized => "Surface not initialized"@,
            BackendError::TargetViewNotInitialized => "Target view not initialized"@,
            BackendError::TargetTextureNotInitialized => "Target texture not initialized"@,
            BackendError::BlitterNotInitialized => "Blitter not initialized"@,
            BackendError::ScalingNotImplemented => {
                "WGPU texture rendering with scaling/positioning not yet implemented"@
            },
            BackendError::NoSurfaceFormat => "The surface offers no pixel format"@,
            BackendError::Gpu(text) => text@,
        }
    }

    /// The error in words.
    pub fn message(&self) -> (text: String)
        ensures
            text@ == self.spec_message(),
    {
        match self {
            BackendError::DeviceNotInitialized => "Device not initialized".to_owned(),
            BackendError::QueueNotInitialized => "Queue not initialized".to_owned(),
            BackendError::RendererNotInitialized => "Vello renderer not initialized".to_owned(),
            BackendError::SurfaceNotInitialized => "Surface not initialized".to_owned(),
            BackendError::TargetViewNotInitialized => "Target view not initialized".to_owned(),
            BackendError::TargetTextureNotInitialized => {
                "Target texture not initialized".to_owned()
            },
            BackendError::BlitterNotInitialized => "Blitter not initialized".to_owned(),
            BackendError::ScalingNotImplemented => {
                "WGPU texture rendering with scaling/positioning not yet implemented".to_owned()
            },
            BackendError::NoSurfaceFormat => "The surface offers no pixel format".to_owned(),
            BackendError::Gpu(text) => text.clone(),
        }
    }
}

impl PlatformError {
    /// The error in words.
    pub open spec fn spec_message(self) -> Seq<char> {
        match self {
            PlatformError::NotAttached => {
                "Renderer must be associated with component before use"@
            },
            PlatformError::OutOfTurn => "Frame event out of turn"@,
            PlatformError::NoGraphicsApi => "The graphics backend holds no graphics API"@,
            PlatformError::Backend(error) => error.spec_message(),
            PlatformError::Other(text) => text@,
        }
    }

    /// The error in words.
    pub fn message(&self) -> (text: String)
        ensures
            text@ == self.spec_message(),
    {
        match self {
            PlatformError::NotAttached => {
                "Renderer must be associated with component before use".to_owned()
            },
            PlatformError::OutOfTurn => "Frame event out of turn".to_owned(),
            PlatformError::NoGraphicsApi => {
                "The graphics backend holds no graphics API".to_owned()
            },
            PlatformError::Backend(error) => error.message(),
            PlatformError::Other(text) => text.clone(),
        }
    }
}

/// A size in physical pixels.
#[derive(Clone, Copy, Debug, PartialEq, Eq, Structural)]
pub struct PhysicalSize {
    pub width: u32,
    pub height: u32,
}

/// A texture on the GPU, named by a number under which its owner finds it.
#[derive(Clone, Copy, Debug, PartialEq, Eq, Structural)]
pub struct GpuTexture {
    pub id: u64,
}

/// What the renderer reads of its window at the start of a frame.
#[derive(Debug, PartialEq)]
pub struct WindowInfo {
    /// The size of the window.
    pub size: PhysicalSize,
    /// The number of physical pixels per logical pixel.
    pub scale_factor: Fixed,
    /// The background of the window, if the window has an item of its own.
    pub background: Option<Brush>,
    /// Whether the window has anything to show.
    pub has_contents: bool,
}

/// A frame for a display that is turned: the whole frame is rotated and
/// then moved, and drawn at `size`. With `post_callback` the caller draws
/// once more after the items, before the scene is presented.
#[derive(Clone, Copy, Debug, PartialEq, Eq, Structural)]
pub struct FrameTransform {
    pub rotation: Rotation,
    pub translation: Vector,
    pub size: PhysicalSize,
    pub post_callback: bool,
}

/// What a frame is waiting for.
#[derive(Clone, Copy, Debug, PartialEq, Eq, Structural)]
pub enum FramePhase {
    /// No frame is under way.
    Idle,
    /// The notification of the setup.
    Setup,
    /// The window.
    Window,
    /// The notification before rendering.
    Before,
    /// The items.
    Items,
    /// The notification after rendering.
    After,
    /// The notification of the teardown.
    Teardown,
}

/// What the caller has done for the frame.
pub enum FrameEvent {
    /// The rendering notifier was called, or could not be.
    Notified(Result<(), PlatformError>),
    /// The window was looked up: what was read of it, or nothing where the
    /// renderer has no window.
    Window(Option<WindowInfo>),
    /// The items were walked with the item renderer, or the walk failed.
    ItemsDrawn { renderer: VelloItemRenderer, result: Result<(), PlatformError> },
}

/// What the caller has to do next for the frame.
pub enum FrameAction {
    /// Call the rendering notifier.
    Notify(RenderingState),
    /// Look up the window.
    ResolveWindow,
    /// Walk the items of the window with the item renderer, and then, with
    /// `post_callback`, draw what the caller adds to the frame.
    DrawItems { renderer: VelloItemRenderer, post_callback: bool },
    /// The frame is over.
    Finished(Result<(), PlatformError>),
}

/// What a [`FrameEvent`] holds.
pub enum FrameEventView {
    Notified(Result<(), PlatformError>),
    Window(Option<WindowInfo>),
    ItemsDrawn { renderer: RendererView, result: Result<(), PlatformError> },
}

/// What a [`FrameAction`] holds.
pub enum FrameActionView {
    Notify(RenderingState),
    ResolveWindow,
    DrawItems { renderer: RendererView, post_callback: bool },
    Finished(Result<(), PlatformError>),
}

impl View for FrameEvent {
    type V = FrameEventView;

    open spec fn view(&self) -> FrameEventView {
        match *self {
            FrameEvent::Notified(result) => FrameEventView::Notified(result),
            FrameEvent::Window(window) => FrameEventView::Window(window),
            FrameEvent::ItemsDrawn { renderer, result } => FrameEventView::ItemsDrawn {
                renderer: renderer@,
                result,
            },
        }
    }
}

impl View for FrameAction {
    type V = FrameActionView;

    open spec fn view(&self) -> FrameActionView {
        match *self {
            FrameAction::Notify(state) => FrameActionView::Notify(state),
            FrameAction::ResolveWindow => FrameActionView::ResolveWindow,
            FrameAction::DrawItems { renderer, post_callback } => FrameActionView::DrawItems {
                renderer: renderer@,
                post_callback,
            },
            FrameAction::Finished(result) => FrameActionView::Finished(result),
        }
    }
}

/// What a graphics backend has to offer the renderer.
///
/// A backend starts out suspended, without any resource of the GPU, and is
/// suspended again once its graphics context was cleared. What it does when
/// it is asked to clear its context, to render or to resize, each backend may
/// say for itself, by the three relations [`GraphicsBackend::clears`],
/// [`GraphicsBackend::renders`] and [`GraphicsBackend::resizes`]; a backend
/// that says nothing may do anything. Nothing is promised of what a backend
/// answers: the renderer is verified for every answer. Reading textures back
/// is an offer that a backend makes by [`GraphicsBackend::reads_textures_back`].
pub trait GraphicsBackend: Sized {
    /// Whether the backend `before`, asked to clear its graphics context,
    /// may become `after`.
    open spec fn clears(before: Self, after: Self) -> bool {
        true
    }

    /// Whether the backend `before`, asked to render a scene of the given
    /// operations at the given size, may become `after` and give `answer`.
    open spec fn renders(
        before: Self,
        ops: Seq<DrawOpView>,
        width: u32,
        height: u32,
        after: Self,
        answer: Result<(), BackendError>,
    ) -> bool {
        true
    }

    /// Whether the backend `before`, asked for a surface of the given size,
    /// may become `after` and give `answer`.
    open spec fn resizes(
        before: Self,
        width: u32,
        height: u32,
        after: Self,
        answer: Result<(), BackendError>,
    ) -> bool {
        true
    }

    /// Whether the backend can read textures back from the GPU. Reading
    /// back is slow, and a backend need not offer it: one that does not say
    /// otherwise does not.
    open spec fn reads_textures_back(&self) -> bool {
        false
    }

    /// A backend that holds no resource of the GPU.
    fn new_suspended() -> Self;

    /// Releases every resource of the GPU.
    fn clear_graphics_context(&mut self)
        ensures
            Self::clears(*old(self), *final(self)),
    ;

    /// Rasterizes the scene and presents it.
    fn render_scene(&mut self, scene: &Scene, width: u32, height: u32) -> (answer: Result<
        (),
        BackendError,
    >)
        ensures
            Self::renders(*old(self), scene@, width, height, *final(self), answer),
    ;

    /// Makes the surface of the given size.
    fn resize(&mut self, width: u32, height: u32) -> (answer: Result<(), BackendError>)
        requires
            width > 0,
            height > 0,
        ensures
            Self::resizes(*old(self), width, height, *final(self), answer),
    ;

    /// Whether the handles of the GPU can be given to the rendering notifier.
    fn has_graphics_api(&self) -> bool;

    /// Reads a texture back from the GPU: the pixels of the texture, or
    /// nothing where the backend cannot read them. A backend that does not
    /// read textures back gives nothing for any texture, which is what a
    /// backend does that does not say how it reads.
    fn read_wgpu_26_texture(&self, texture: GpuTexture) -> (answer: Option<RawPixels>)
        ensures
            !self.reads_textures_back() ==> answer is None,
    {
        None
    }
}

/// What a [`VelloRenderer`] holds, but for its backend.
pub struct VelloRendererView {
    /// Whether a rendering notifier is registered.
    pub notifier_set: bool,
    /// Whether no frame was started yet.
    pub first_time: bool,
    /// The operations of the scene.
    pub ops: Seq<DrawOpView>,
    /// The decoded pixels that the image cache holds.
    pub cache: Map<usize, Seq<u8>>,
    /// What the frame is waiting for.
    pub phase: FramePhase,
    /// The transform of the frame that is under way, if it has one.
    pub transform: Option<FrameTransform>,
    /// The window of the frame that is under way, once it was looked up.
    pub window: Option<WindowInfo>,
}

/// The operation that clears a frame of the given size with a color.
pub open spec fn clear_op(color: Color, width: u32, height: u32) -> DrawOpView {
    DrawOpView::Fill {
        rule: Fill::NonZero,
        transform: Affine::spec_identity(),
        paint: PaintView::Solid(rgba_of(color)),
        shape: ShapeView::Rect(
            PhysicalRect {
                x0: Fixed::spec_zero(),
                y0: Fixed::spec_zero(),
                x1: Fixed::spec_from_int(width as int),
                y1: Fixed::spec_from_int(height as int),
            },
        ),
    }
}

/// The scene at the start of a frame: cleared with the background of the
/// window if that is one color, else empty.
pub open spec fn cleared_scene(background: Option<Brush>, width: u32, height: u32) -> Seq<
    DrawOpView,
> {
    match background {
        Some(Brush::SolidColor(color)) => seq![clear_op(color, width, height)],
        _ => Seq::<DrawOpView>::empty(),
    }
}

/// The transform that a frame starts with: the rotation of the frame
/// followed by its translation, whatever the two are; none for a frame that
/// is not turned.
pub open spec fn initial_transform(transform: Option<FrameTransform>) -> Affine {
    match transform {
        Some(t) => Affine::spec_translation(t.translation.x, t.translation.y).spec_compose(
            Affine::spec_rotation(t.rotation),
        ),
        None => Affine::spec_identity(),
    }
}

/// A frame that is moved but not rotated starts with the translation alone.
pub proof fn lemma_initial_transform_without_rotation(t: FrameTransform)
    requires
        t.rotation == Rotation::spec_none(),
    ensures
        initial_transform(Some(t)) == Affine::spec_translation(t.translation.x, t.translation.y),
{
    assert(Affine::spec_rotation(Rotation::spec_none()) == Affine::spec_identity());
    lemma_compose_identity(Affine::spec_translation(t.translation.x, t.translation.y));
}

/// The size of a window in logical pixels.
pub open spec fn logical_size(window: WindowInfo) -> Size {
    Size {
        width: Fixed::spec_from_int(window.size.width as int).spec_div(window.scale_factor),
        height: Fixed::spec_from_int(window.size.height as int).spec_div(window.scale_factor),
    }
}

impl VelloRendererView {
    /// The size at which the frame is drawn: that of its transform if it has
    /// one, else that of the window.
    pub open spec fn frame_size(self, window: WindowInfo) -> PhysicalSize {
        match self.transform {
            Some(t) => t.size,
            None => window.size,
        }
    }

    /// The view after the frame has ended.
    pub open spec fn idle(self) -> VelloRendererView {
        VelloRendererView { phase: FramePhase::Idle, transform: None, window: None, ..self }
    }

    /// The end of the frame with `result`.
    pub open spec fn finish(self, result: Result<(), PlatformError>) -> (
        VelloRendererView,
        FrameActionView,
    ) {
        (self.idle(), FrameActionView::Finished(result))
    }

    /// The start of a frame. The first frame of a renderer with a rendering
    /// notifier begins by notifying it of the setup.
    pub open spec fn start(self, transform: Option<FrameTransform>) -> (
        VelloRendererView,
        FrameActionView,
    ) {
        let started = VelloRendererView {
            first_time: false,
            phase: FramePhase::Idle,
            transform,
            window: None,
            ..self
        };
        if self.phase != FramePhase::Idle {
            self.finish(Err(PlatformError::OutOfTurn))
        } else if self.first_time && self.notifier_set {
            (
                VelloRendererView { phase: FramePhase::Setup, ..started },
                FrameActionView::Notify(RenderingState::RenderingSetup),
            )
        } else {
            started.after_setup()
        }
    }

    /// What follows the setup: a frame with a transform of a size without
    /// area is skipped; any other frame looks up its window.
    pub open spec fn after_setup(self) -> (VelloRendererView, FrameActionView) {
        match self.transform {
            Some(t) => if t.size.width == 0 || t.size.height == 0 {
                self.finish(Ok(()))
            } else {
                (
                    VelloRendererView { phase: FramePhase::Window, ..self },
                    FrameActionView::ResolveWindow,
                )
            },
            None => (
                VelloRendererView { phase: FramePhase::Window, ..self },
                FrameActionView::ResolveWindow,
            ),
        }
    }

    /// What follows the look-up of the window. Without a window the frame
    /// fails. A frame of a size without area is skipped. A window with
    /// nothing to show has the scene of the frame before presented again.
    /// Else the scene is reset and cleared, and the rendering notifier, if
    /// there is one, is notified before the items are drawn.
    pub open spec fn after_window(self, window: Option<WindowInfo>, outcome: Result<
        (),
        BackendError,
    >) -> (VelloRendererView, FrameActionView) {
        match window {
            None => self.finish(Err(PlatformError::NotAttached)),
            Some(info) => {
                let size = self.frame_size(info);
                if size.width == 0 || size.height == 0 {
                    self.finish(Ok(()))
                } else {
                    let found = VelloRendererView { window: Some(info), ..self };
                    if !info.has_contents {
                        found.after_submission(outcome)
                    } else {
                        let cleared = VelloRendererView {
                            ops: cleared_scene(info.background, size.width, size.height),
                            ..found
                        };
                        if self.notifier_set {
                            (
                                VelloRendererView { phase: FramePhase::Before, ..cleared },
                                FrameActionView::Notify(RenderingState::BeforeRendering),
                            )
                        } else {
                            cleared.begin_items(info)
                        }
                    }
                }
            },
        }
    }

    /// The item renderer that the caller is given for the items: it draws
    /// after what the scene holds, starts with the transform of the frame
    /// and a clip at the size of the frame, and has drawn the background of
    /// the window already if that is not one color.
    pub open spec fn item_renderer(self, info: WindowInfo) -> RendererView {
        let size = self.frame_size(info);
        let fresh = RendererView {
            ops: self.ops,
            states: seq![
                initial_state(
                    Size {
                        width: Fixed::spec_from_int(size.width as int),
                        height: Fixed::spec_from_int(size.height as int),
                    },
                    initial_transform(self.transform),
                ),
            ],
            scale_factor: info.scale_factor,
            texture_reader: false,
            cache: self.cache,
        };
        match info.background {
            Some(Brush::SolidColor(color)) => fresh,
            Some(brush) => fresh.draw_rectangle(brush, logical_size(info)),
            None => fresh,
        }
    }

    /// The hand-over of the scene and the image cache to the item renderer.
    pub open spec fn begin_items(self, info: WindowInfo) -> (VelloRendererView, FrameActionView) {
        (
            VelloRendererView {
                phase: FramePhase::Items,
                ops: Seq::<DrawOpView>::empty(),
                cache: Map::<usize, Seq<u8>>::empty(),
                ..self
            },
            FrameActionView::DrawItems {
                renderer: self.item_renderer(info),
                post_callback: match self.transform {
                    Some(t) => t.post_callback,
                    None => false,
                },
            },
        )
    }

    /// What follows the walk of the items: the scene and the image cache are
    /// taken back, and the scene is presented unless the walk failed.
    pub open spec fn after_items(
        self,
        renderer: RendererView,
        result: Result<(), PlatformError>,
        outcome: Result<(), BackendError>,
    ) -> (VelloRendererView, FrameActionView) {
        let back = VelloRendererView { ops: renderer.ops, cache: renderer.cache, ..self };
        match result {
            Err(error) => back.finish(Err(error)),
            Ok(_) => back.after_submission(outcome),
        }
    }

    /// What follows the presentation of the scene, which the backend
    /// answered with `outcome`: an error of the backend ends the frame; else
    /// the rendering notifier, if there is one, is notified.
    pub open spec fn after_submission(self, outcome: Result<(), BackendError>) -> (
        VelloRendererView,
        FrameActionView,
    ) {
        match outcome {
            Err(error) => self.finish(Err(PlatformError::Backend(error))),
            Ok(_) => if self.notifier_set {
                (
                    VelloRendererView { phase: FramePhase::After, ..self },
                    FrameActionView::Notify(RenderingState::AfterRendering),
                )
            } else {
                self.finish(Ok(()))
            },
        }
    }

    /// The step of a frame for an event. `outcome` is what the backend
    /// answers where the step presents the scene. An event that the frame is
    /// not waiting for ends the frame with an error; a notification that
    /// failed ends it with the error of the notification.
    pub open spec fn step(self, event: FrameEventView, outcome: Result<(), BackendError>) -> (
        VelloRendererView,
        FrameActionView,
    ) {
        match (self.phase, event) {
            (FramePhase::Setup, FrameEventView::Notified(Ok(_))) => self.after_setup(),
            (FramePhase::Before, FrameEventView::Notified(Ok(_))) => match self.window {
                Some(info) => self.begin_items(info),
                None => self.finish(Err(PlatformError::OutOfTurn)),
            },
            (FramePhase::After, FrameEventView::Notified(Ok(_))) => self.finish(Ok(())),
            (FramePhase::Setup, FrameEventView::Notified(Err(error))) => self.finish(Err(error)),
            (FramePhase::Before, FrameEventView::Notified(Err(error))) => self.finish(Err(error)),
            (FramePhase::After, FrameEventView::Notified(Err(error))) => self.finish(Err(error)),
            (FramePhase::Window, FrameEventView::Window(window)) => self.after_window(
                window,
                outcome,
            ),
            (FramePhase::Items, FrameEventView::ItemsDrawn { renderer, result }) => {
                self.after_items(renderer, result, outcome)
            },
            (FramePhase::Teardown, FrameEventView::Notified(result)) => self.torn_down(),
            _ => self.finish(Err(PlatformError::OutOfTurn)),
        }
    }

    /// The start of the teardown: the rendering notifier is notified where
    /// there is one and a frame was started since the renderer was made or
    /// torn down. A frame that is under way is given up.
    pub open spec fn start_teardown(self) -> (VelloRendererView, FrameActionView) {
        if !self.first_time && self.notifier_set {
            (
                VelloRendererView { phase: FramePhase::Teardown, ..self.idle() },
                FrameActionView::Notify(RenderingState::RenderingTeardown),
            )
        } else {
            self.torn_down()
        }
    }

    /// The end of the teardown: the image cache is dropped, and the renderer
    /// is as it was before its first frame, but for its rendering notifier.
    pub open spec fn torn_down(self) -> (VelloRendererView, FrameActionView) {
        (
            VelloRendererView {
                cache: Map::<usize, Seq<u8>>::empty(),
                first_time: true,
                ..self.idle()
            },
            FrameActionView::Finished(Ok(())),
        )
    }

    /// Whether the step for an event ends the teardown.
    pub open spec fn tears_down(self, event: FrameEventView) -> bool {
        self.phase == FramePhase::Teardown && event is Notified
    }

    /// The size of the frame that is under way: that of its transform if it
    /// has one, else that of its window.
    pub open spec fn current_size(self) -> PhysicalSize {
        match self.transform {
            Some(t) => t.size,
            None => match self.window {
                Some(info) => info.size,
                None => PhysicalSize { width: 0, height: 0 },
            },
        }
    }

    /// The operations of the scene that the step for an event presents, and
    /// the size at which it presents them.
    pub open spec fn presented(self, event: FrameEventView) -> (Seq<DrawOpView>, PhysicalSize) {
        match event {
            FrameEventView::Window(Some(info)) => (self.ops, self.frame_size(info)),
            FrameEventView::ItemsDrawn { renderer, result } => (renderer.ops, self.current_size()),
            _ => (self.ops, self.current_size()),
        }
    }

    /// Whether the step for an event presents the scene.
    pub open spec fn submits(self, event: FrameEventView) -> bool {
        match (self.phase, event) {
            (FramePhase::Window, FrameEventView::Window(Some(info))) => {
                let size = self.frame_size(info);
                size.width != 0 && size.height != 0 && !info.has_contents
            },
            (FramePhase::Items, FrameEventView::ItemsDrawn { renderer, result }) => result is Ok,
            _ => false,
        }
    }
}

/// Renders the items of a window into a scene and has a graphics backend
/// present it.
pub struct VelloRenderer<B: GraphicsBackend> {
    notifier_set: bool,
    scene: Scene,
    rendering_first_time: bool,
    graphics_backend: B,
    image_cache: ImageCache,
    phase: FramePhase,
    transform: Option<FrameTransform>,
    window: Option<WindowInfo>,
}

impl<B: GraphicsBackend> View for VelloRenderer<B> {
    type V = VelloRendererView;

    closed spec fn view(&self) -> VelloRendererView {
        VelloRendererView {
            notifier_set: self.notifier_set,
            first_time: self.rendering_first_time,
            ops: self.scene@,
            cache: self.image_cache@,
            phase: self.phase,
            transform: self.transform,
            window: self.window,
        }
    }
}

impl<B: GraphicsBackend> VelloRenderer<B> {
    /// The backend as it now is.
    pub closed spec fn backend(&self) -> B {
        self.graphics_backend
    }

    /// A renderer with the given backend: before its first frame, without a
    /// rendering notifier, with an empty scene and an empty image cache.
    pub fn new(backend: B) -> (r: VelloRenderer<B>)
        ensures
            r@ == (VelloRendererView {
                notifier_set: false,
                first_time: true,
                ops: Seq::<DrawOpView>::empty(),
                cache: Map::<usize, Seq<u8>>::empty(),
                phase: FramePhase::Idle,
                transform: None,
                window: None,
            }),
            r.backend() == backend,
    {
        VelloRenderer {
            notifier_set: false,
            scene: Scene::new(),
            rendering_first_time: true,
            graphics_backend: backend,
            image_cache: ImageCache::new(),
            phase: FramePhase::Idle,
            transform: None,
            window: None,
        }
    }

    /// The graphics backend.
    pub fn graphics_backend(&self) -> (backend: &B)
        ensures
            *backend == self.backend(),
    {
        &self.graphics_backend
    }

    /// The graphics backend, to change it.
    pub fn graphics_backend_mut(&mut self) -> (backend: &mut B)
        ensures
            *backend == old(self).backend(),
            final(self)@ == old(self)@,
            final(self).backend() == *final(backend),
    {
        &mut self.graphics_backend
    }

    /// The scene as the last frame left it.
    pub fn scene(&self) -> (scene: &Scene)
        ensures
            scene@ == self@.ops,
    {
        &self.scene
    }

    /// The number of images that the cache holds.
    pub fn cached_images(&self) -> (n: usize)
        ensures
            n == self@.cache.len(),
    {
        self.image_cache.len()
    }

    /// The renderer draws under any transform: translations, rotations and
    /// scalings.
    pub fn supports_transformations(&self) -> (r: bool)
        ensures
            r,
    {
        true
    }

    /// What the frame is waiting for.
    pub fn phase(&self) -> (phase: FramePhase)
        ensures
            phase == self@.phase,
    {
        self.phase
    }

    /// Drops the image cache and has the backend release its resources. Used
    /// when the window is suspended and before the renderer is disposed of.
    pub fn clear_graphics_context(&mut self)
        ensures
            final(self)@ == (VelloRendererView {
                cache: Map::<usize, Seq<u8>>::empty(),
                ..old(self)@
            }),
            B::clears(old(self).backend(), final(self).backend()),
    {
        self.image_cache.clear();
        self.graphics_backend.clear_graphics_context();
    }

    /// Registers the rendering notifier. There can be one only: where there
    /// is one already, the call is refused and nothing changes.
    pub fn set_rendering_notifier(&mut self) -> (r: Result<(), SetRenderingNotifierError>)
        ensures
            final(self).backend() == old(self).backend(),
            old(self)@.notifier_set ==> r == Err::<(), SetRenderingNotifierError>(
                SetRenderingNotifierError::AlreadySet,
            ) && final(self)@ == old(self)@,
            !old(self)@.notifier_set ==> r == Ok::<(), SetRenderingNotifierError>(())
                && final(self)@ == (VelloRendererView { notifier_set: true, ..old(self)@ }),
    {
        if self.notifier_set {
            Err(SetRenderingNotifierError::AlreadySet)
        } else {
            self.notifier_set = true;
            Ok(())
        }
    }

    /// Has the backend make its surface of the given size. A size without
    /// area is passed over in silence. `Ok` says that the backend was not
    /// asked or did not fail.
    pub fn resize(&mut self, size: PhysicalSize) -> (r: Result<(), PlatformError>)
        ensures
            final(self)@ == old(self)@,
            size.width == 0 || size.height == 0 ==> r == Ok::<(), PlatformError>(())
                && final(self).backend() == old(self).backend(),
            size.width != 0 && size.height != 0 ==> exists|answer: Result<(), BackendError>|
                #[trigger] B::resizes(
                    old(self).backend(),
                    size.width,
                    size.height,
                    final(self).backend(),
                    answer,
                ) && r == resize_result(answer),
    {
        if size.width != 0 && size.height != 0 {
            let outcome = self.graphics_backend.resize(size.width, size.height);
            let ghost answer = outcome;
            let result = after_resize(outcome);
            assert(B::resizes(
                old(self).backend(),
                size.width,
                size.height,
                self.backend(),
                answer,
            ) && result == resize_result(answer));
            result
        } else {
            Ok(())
        }
    }

    /// Whether no frame was started since the renderer was made or torn
    /// down.
    pub fn is_first_frame(&self) -> (first: bool)
        ensures
            first == self@.first_time,
    {
        self.rendering_first_time
    }

    fn torn_down(&mut self) -> (action: FrameAction)
        ensures
            (final(self)@, action@) == old(self)@.torn_down(),
            B::clears(old(self).backend(), final(self).backend()),
    {
        self.rendering_first_time = true;
        self.clear_graphics_context();
        self.finish(Ok(()))
    }

    /// Starts the teardown at the end of the life of the renderer. The
    /// rendering notifier is notified first, then the graphics context is
    /// cleared; whether the notification worked makes no difference.
    pub fn teardown(&mut self) -> (action: FrameAction)
        ensures
            (final(self)@, action@) == old(self)@.start_teardown(),
            action@ is Notify ==> final(self).backend() == old(self).backend(),
            action@ is Finished ==> B::clears(old(self).backend(), final(self).backend()),
    {
        if !self.rendering_first_time && self.notifier_set {
            self.phase = FramePhase::Teardown;
            self.transform = None;
            self.window = None;
            FrameAction::Notify(RenderingState::RenderingTeardown)
        } else {
            self.torn_down()
        }
    }

    fn finish(&mut self, result: Result<(), PlatformError>) -> (action: FrameAction)
        ensures
            (final(self)@, action@) == old(self)@.finish(result),
            final(self).backend() == old(self).backend(),
    {
        self.phase = FramePhase::Idle;
        self.transform = None;
        self.window = None;
        FrameAction::Finished(result)
    }

    fn start(&mut self, transform: Option<FrameTransform>) -> (action: FrameAction)
        ensures
            (final(self)@, action@) == old(self)@.start(transform),
            final(self).backend() == old(self).backend(),
    {
        if !matches!(self.phase, FramePhase::Idle) {
            return self.finish(Err(PlatformError::OutOfTurn));
        }
        let first = self.rendering_first_time;
        self.rendering_first_time = false;
        self.transform = transform;
        self.window = None;
        if first && self.notifier_set {
            self.phase = FramePhase::Setup;
            FrameAction::Notify(RenderingState::RenderingSetup)
        } else {
            self.after_setup()
        }
    }

    fn after_setup(&mut self) -> (action: FrameAction)
        ensures
            (final(self)@, action@) == old(self)@.after_setup(),
            final(self).backend() == old(self).backend(),
    {
        match self.transform {
            Some(t) => {
                if t.size.width == 0 || t.size.height == 0 {
                    return self.finish(Ok(()));
                }
            },
            None => {},
        }
        self.phase = FramePhase::Window;
        FrameAction::ResolveWindow
    }

    /// Starts a frame at the size of the window.
    pub fn render(&mut self) -> (action: FrameAction)
        ensures
            (final(self)@, action@) == old(self)@.start(None),
            final(self).backend() == old(self).backend(),
    {
        self.start(None)
    }

    /// Starts a frame for a display that is turned: the frame is drawn at
    /// `size` under the rotation followed by the translation, and with
    /// `post_render_callback` the caller draws once more after the items.
    pub fn render_transformed_with_post_callback(
        &mut self,
        rotation: Rotation,
        translation: Vector,
        size: PhysicalSize,
        post_render_callback: bool,
    ) -> (action: FrameAction)
        ensures
            (final(self)@, action@) == old(self)@.start(
                Some(
                    FrameTransform {
                        rotation,
                        translation,
                        size,
                        post_callback: post_render_callback,
                    },
                ),
            ),
            final(self).backend() == old(self).backend(),
    {
        self.start(
            Some(FrameTransform { rotation, translation, size, post_callback: post_render_callback }),
        )
    }

    /// What follows the presentation of the scene, which the backend
    /// answered with `outcome`.
    pub fn after_submission(&mut self, outcome: Result<(), BackendError>) -> (action: FrameAction)
        ensures
            (final(self)@, action@) == old(self)@.after_submission(outcome),
            final(self).backend() == old(self).backend(),
    {
        match outcome {
            Err(error) => self.finish(Err(PlatformError::Backend(error))),
            Ok(_) => {
                if self.notifier_set {
                    self.phase = FramePhase::After;
                    FrameAction::Notify(RenderingState::AfterRendering)
                } else {
                    self.finish(Ok(()))
                }
            },
        }
    }

    fn submit(&mut self, width: u32, height: u32) -> (r: (
        FrameAction,
        Ghost<Result<(), BackendError>>,
    ))
        ensures
            (final(self)@, r.0@) == old(self)@.after_submission(r.1@),
            B::renders(
                old(self).backend(),
                old(self)@.ops,
                width,
                height,
                final(self).backend(),
                r.1@,
            ),
    {
        let outcome = self.graphics_backend.render_scene(&self.scene, width, height);
        let ghost answered = outcome;
        let action = self.after_submission(outcome);
        (action, Ghost(answered))
    }

    fn begin_items(&mut self) -> (action: FrameAction)
        requires
            old(self)@.window is Some,
        ensures
            (final(self)@, action@) == old(self)@.begin_items(old(self)@.window->0),
            final(self).backend() == old(self).backend(),
    {
        let info = match &self.window {
            Some(info) => info,
            None => {
                return self.finish(Err(PlatformError::OutOfTurn));
            },
        };
        let size = match self.transform {
            Some(t) => t.size,
            None => info.size,
        };
        let (initial, post_callback) = match self.transform {
            Some(t) => {
                let initial = Affine::translation(t.translation.x, t.translation.y).compose(
                    Affine::rotation(t.rotation),
                );
                (initial, t.post_callback)
            },
            None => (Affine::identity(), false),
        };
        let mut scene = Scene::new();
        std::mem::swap(&mut scene, &mut self.scene);
        let mut cache = ImageCache::new();
        std::mem::swap(&mut cache, &mut self.image_cache);
        let mut renderer = VelloItemRenderer::new_with_transform(
            scene,
            info.scale_factor,
            Size { width: Fixed::from_u32(size.width), height: Fixed::from_u32(size.height) },
            cache,
            initial,
        );
        match &info.background {
            Some(Brush::SolidColor(_)) => {},
            Some(brush) => {
                let logical = Size {
                    width: Fixed::from_u32(info.size.width).div(info.scale_factor),
                    height: Fixed::from_u32(info.size.height).div(info.scale_factor),
                };
                renderer.draw_rectangle(brush, logical);
            },
            None => {},
        }
        self.phase = FramePhase::Items;
        FrameAction::DrawItems { renderer, post_callback }
    }

    /// Goes on with the frame after the caller has done what the last action
    /// asked for.
    pub fn proceed(&mut self, event: FrameEvent) -> (action: FrameAction)
        ensures
            exists|outcome: Result<(), BackendError>|
                (final(self)@, action@) == #[trigger] old(self)@.step(event@, outcome)
                    && (old(self)@.submits(event@) ==> B::renders(
                    old(self).backend(),
                    old(self)@.presented(event@).0,
                    old(self)@.presented(event@).1.width,
                    old(self)@.presented(event@).1.height,
                    final(self).backend(),
                    outcome,
                )),
            !old(self)@.submits(event@) && !old(self)@.tears_down(event@)
                ==> final(self).backend() == old(self).backend(),
            old(self)@.tears_down(event@) ==> B::clears(old(self).backend(), final(self).backend()),
    {
        let ghost before = self@;
        let ghost seen = event@;
        let ghost unasked: Result<(), BackendError> = Ok(());
        match event {
            FrameEvent::Notified(result) => {
                if matches!(self.phase, FramePhase::Teardown) {
                    let action = self.torn_down();
                    assert((self@, action@) == before.step(seen, unasked));
                    return action;
                }
                match result {
                    Err(error) => {
                        let waiting = matches!(
                            self.phase,
                            FramePhase::Setup | FramePhase::Before | FramePhase::After
                        );
                        let action = if waiting {
                            self.finish(Err(error))
                        } else {
                            self.finish(Err(PlatformError::OutOfTurn))
                        };
                        assert((self@, action@) == before.step(seen, unasked));
                        action
                    },
                    Ok(_) => {
                        let action = match self.phase {
                            FramePhase::Setup => self.after_setup(),
                            FramePhase::Before => {
                                if self.window.is_some() {
                                    self.begin_items()
                                } else {
                                    self.finish(Err(PlatformError::OutOfTurn))
                                }
                            },
                            FramePhase::After => self.finish(Ok(())),
                            _ => self.finish(Err(PlatformError::OutOfTurn)),
                        };
                        assert((self@, action@) == before.step(seen, unasked));
                        action
                    },
                }
            },
            FrameEvent::Window(window) => {
                if !matches!(self.phase, FramePhase::Window) {
                    let action = self.finish(Err(PlatformError::OutOfTurn));
                    assert((self@, action@) == before.step(seen, unasked));
                    return action;
                }
                let info = match window {
                    Some(info) => info,
                    None => {
                        let action = self.finish(Err(PlatformError::NotAttached));
                        assert((self@, action@) == before.step(seen, unasked));
                        return action;
                    },
                };
                let size = match self.transform {
                    Some(t) => t.size,
                    None => info.size,
                };
                if size.width == 0 || size.height == 0 {
                    let action = self.finish(Ok(()));
                    assert((self@, action@) == before.step(seen, unasked));
                    return action;
                }
                if !info.has_contents {
                    self.window = Some(info);
                    let (action, Ghost(outcome)) = self.submit(size.width, size.height);
                    assert((self@, action@) == before.step(seen, outcome));
                    action
                } else {
                    self.scene.reset();
                    match &info.background {
                        Some(Brush::SolidColor(color)) => {
                            self.scene.fill(
                                Fill::NonZero,
                                Affine::identity(),
                                Paint::Solid(to_peniko_color(color)),
                                Shape::Rect(
                                    PhysicalRect {
                                        x0: Fixed::zero(),
                                        y0: Fixed::zero(),
                                        x1: Fixed::from_u32(size.width),
                                        y1: Fixed::from_u32(size.height),
                                    },
                                ),
                            );
                        },
                        _ => {},
                    }
                    assert(self@.ops =~= cleared_scene(info.background, size.width, size.height));
                    self.window = Some(info);
                    let action = if self.notifier_set {
                        self.phase = FramePhase::Before;
                        FrameAction::Notify(RenderingState::BeforeRendering)
                    } else {
                        self.begin_items()
                    };
                    assert((self@, action@) == before.step(seen, unasked));
                    action
                }
            },
            FrameEvent::ItemsDrawn { renderer, result } => {
                if !matches!(self.phase, FramePhase::Items) {
                    let action = self.finish(Err(PlatformError::OutOfTurn));
                    assert((self@, action@) == before.step(seen, unasked));
                    return action;
                }
                let (scene, cache) = renderer.finish();
                self.scene = scene;
                self.image_cache = cache;
                match result {
                    Err(error) => {
                        let action = self.finish(Err(error));
                        assert((self@, action@) == before.step(seen, unasked));
                        action
                    },
                    Ok(_) => {
                        let size = self.submitted_size();
                        let (action, Ghost(outcome)) = self.submit(size.width, size.height);
                        assert((self@, action@) == before.step(seen, outcome));
                        action
                    },
                }
            },
        }
    }

    fn submitted_size(&self) -> (size: PhysicalSize)
        ensures
            size == self@.current_size(),
    {
        match self.transform {
            Some(t) => t.size,
            None => match &self.window {
                Some(info) => info.size,
                None => PhysicalSize { width: 0, height: 0 },
            },
        }
    }
}

/// The item renderer that a frame hands out for its items is well formed.
pub proof fn lemma_item_renderer_is_wf(view: VelloRendererView, info: WindowInfo)
    ensures
        view.item_renderer(info).wf(),
{
}

/// A frame of a renderer without a rendering notifier, for a window with
/// something to show, goes from the look-up of the window straight to the
/// items, and from the items to the presentation: it ends with what the
/// backend answers.
pub proof fn lemma_frame_without_notifier(
    view: VelloRendererView,
    info: WindowInfo,
    drawn: RendererView,
    outcome: Result<(), BackendError>,
)
    requires
        view.phase == FramePhase::Idle,
        !view.notifier_set,
        info.has_contents,
        info.size.width != 0,
        info.size.height != 0,
    ensures
        ({
            let (started, first) = view.start(None);
            let (walking, second) = started.step(FrameEventView::Window(Some(info)), outcome);
            let (ended, third) = walking.step(
                FrameEventView::ItemsDrawn { renderer: drawn, result: Ok(()) },
                outcome,
            );
            &&& first == FrameActionView::ResolveWindow
            &&& second is DrawItems
            &&& third == FrameActionView::Finished(
                match outcome {
                    Ok(_) => Ok(()),
                    Err(error) => Err(PlatformError::Backend(error)),
                },
            )
            &&& ended.phase == FramePhase::Idle
            &&& ended.ops == drawn.ops
            &&& ended.cache == drawn.cache
        }),
{
}

/// A frame of a renderer with a rendering notifier notifies it of the setup
/// in the first frame only, and in every frame before the items are drawn
/// and after the scene was presented, in this order.
pub proof fn lemma_frame_with_notifier(
    view: VelloRendererView,
    info: WindowInfo,
    drawn: RendererView,
    outcome: Result<(), BackendError>,
)
    requires
        view.phase == FramePhase::Idle,
        view.notifier_set,
        info.has_contents,
        info.size.width != 0,
        info.size.height != 0,
    ensures
        ({
            let (started, first) = view.start(None);
            let (resolving, second) = if view.first_time {
                started.step(FrameEventView::Notified(Ok(())), outcome)
            } else {
                (started, first)
            };
            let (before, third) = resolving.step(FrameEventView::Window(Some(info)), outcome);
            let (walking, fourth) = before.step(FrameEventView::Notified(Ok(())), outcome);
            let (after, fifth) = walking.step(
                FrameEventView::ItemsDrawn { renderer: drawn, result: Ok(()) },
                Ok(()),
            );
            let (ended, sixth) = after.step(FrameEventView::Notified(Ok(())), outcome);
            &&& view.first_time ==> first == FrameActionView::Notify(
                RenderingState::RenderingSetup,
            )
            &&& second == FrameActionView::ResolveWindow
            &&& third == FrameActionView::Notify(RenderingState::BeforeRendering)
            &&& fourth is DrawItems
            &&& fifth == FrameActionView::Notify(RenderingState::AfterRendering)
            &&& sixth == FrameActionView::Finished(Ok(()))
            &&& ended.phase == FramePhase::Idle
            &&& !ended.first_time
        }),
{
}

/// How far a frame has come: the phases in the order in which a frame goes
/// through them.
pub open spec fn progress(phase: FramePhase) -> nat {
    match phase {
        FramePhase::Setup => 1,
        FramePhase::Window => 2,
        FramePhase::Before => 3,
        FramePhase::Items => 4,
        FramePhase::After => 5,
        FramePhase::Teardown => 6,
        FramePhase::Idle => 7,
    }
}

/// A frame never goes back and never stands still: every step either ends
/// it, leaving the renderer idle, or takes it to a later phase. So a frame
/// that was started is over after six steps at most, whatever the caller
/// and the backend answer.
pub proof fn lemma_frame_makes_progress(
    view: VelloRendererView,
    event: FrameEventView,
    outcome: Result<(), BackendError>,
)
    ensures
        ({
            let (next, action) = view.step(event, outcome);
            if action is Finished {
                next.phase == FramePhase::Idle
            } else {
                progress(next.phase) > progress(view.phase)
            }
        }),
        ({
            let (next, action) = view.start(None);
            action is Finished <==> next.phase == FramePhase::Idle
        }),
{
}

/// A frame of a size without area is skipped: it ends well, and the scene
/// is as it was.
pub proof fn lemma_frame_without_area_is_skipped(
    view: VelloRendererView,
    info: WindowInfo,
    outcome: Result<(), BackendError>,
)
    requires
        view.phase == FramePhase::Window,
        view.frame_size(info).width == 0 || view.frame_size(info).height == 0,
    ensures
        view.step(FrameEventView::Window(Some(info)), outcome).1 == FrameActionView::Finished(
            Ok(()),
        ),
        view.step(FrameEventView::Window(Some(info)), outcome).0.ops == view.ops,
        !view.submits(FrameEventView::Window(Some(info))),
{
}

/// What a notification comes to where the backend holds no handles of the
/// GPU to give to the rendering notifier: nothing at the teardown, when the
/// handles may be gone already, and an error at any other point.
pub open spec fn spec_notified_without_api(state: RenderingState) -> Result<(), PlatformError> {
    if state == RenderingState::RenderingTeardown {
        Ok(())
    } else {
        Err(PlatformError::NoGraphicsApi)
    }
}

/// What a notification comes to where the backend holds no handles of the
/// GPU to give to the rendering notifier. The notifier is not called.
#[verifier::when_used_as_spec(spec_notified_without_api)]
pub fn notified_without_api(state: RenderingState) -> (r: Result<(), PlatformError>)
    ensures
        r == spec_notified_without_api(state),
{
    match state {
        RenderingState::RenderingTeardown => Ok(()),
        _ => Err(PlatformError::NoGraphicsApi),
    }
}

/// What a resize answers for what the backend answered: an error of the
/// backend is passed on as an error of the platform.
pub open spec fn resize_result(answer: Result<(), BackendError>) -> Result<(), PlatformError> {
    match answer {
        Ok(_) => Ok(()),
        Err(error) => Err(PlatformError::Backend(error)),
    }
}

/// What a resize answers for what the backend answered.
pub fn after_resize(outcome: Result<(), BackendError>) -> (r: Result<(), PlatformError>)
    ensures
        r == resize_result(outcome),
{
    match outcome {
        Ok(_) => Ok(()),
        Err(error) => Err(PlatformError::Backend(error)),
    }
}

} // verus!
