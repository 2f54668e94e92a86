//! The book of a GPU backend: which resources of the GPU it holds, and
//! what follows from that for each request.
//!
//! A backend is suspended while it holds nothing, and active once a window
//! handle gave it an instance, a device, a queue, a configured surface, a
//! scene rasterizer, and an intermediate target with its view and its
//! blitter. The scene is rasterized into the intermediate target, whose pixel
//! format is fixed, and blitted from there to the surface, whose format is
//! the one that [`choose_surface_format`] picks.

use vstd::prelude::*;
use crate::image::RawPixels;
use crate::renderer::{BackendError, GpuTexture, GraphicsBackend, PhysicalSize, VelloRenderer};
use crate::scene::{DrawOpView, Scene};

verus! {

/// A pixel format that a surface offers, as far as the choice among them
/// reads it.
#[derive(Clone, Copy, Debug, PartialEq, Eq, Structural)]
pub enum SurfaceFormat {
    Rgba8Unorm,
    Bgra8Unorm,
    Rgba8UnormSrgb,
    Bgra8UnormSrgb,
    /// Any other format; `srgb` tells whether it is an sRGB format.
    Other { srgb: bool },
}

/// What a surface is used for.
#[derive(Clone, Copy, Debug, PartialEq, Eq, Structural)]
pub enum SurfaceUsage {
    RenderAttachment,
}

/// When a surface shows a new frame.
#[derive(Clone, Copy, Debug, PartialEq, Eq, Structural)]
pub enum PresentMode {
    AutoVsync,
}

/// How a surface is configured.
#[derive(Clone, Copy, Debug, PartialEq, Eq, Structural)]
pub struct SurfaceConfiguration {
    pub width: u32,
    pub height: u32,
    pub format: SurfaceFormat,
    pub usage: SurfaceUsage,
    pub present_mode: PresentMode,
}

/// Which resources of the GPU a backend holds.
#[derive(Clone, Copy, Debug, PartialEq, Eq, Structural)]
pub struct WgpuBackend {
    pub instance: bool,
    pub device: bool,
    pub queue: bool,
    /// The configuration of the surface.
    pub surface_config: Option<SurfaceConfiguration>,
    pub surface: bool,
    /// The rasterizer of scenes.
    pub vello_renderer: bool,
    /// The intermediate target, by its size.
    pub target_texture: Option<PhysicalSize>,
    pub target_view: bool,
    /// The blitter from the intermediate target to the surface, by the
    /// format of the surface that it was made for.
    pub blitter: Option<SurfaceFormat>,
}

impl SurfaceFormat {
    /// Whether the format is an sRGB format.
    pub open spec fn spec_is_srgb(self) -> bool {
        match self {
            SurfaceFormat::Rgba8Unorm => false,
            SurfaceFormat::Bgra8Unorm => false,
            SurfaceFormat::Rgba8UnormSrgb => true,
            SurfaceFormat::Bgra8UnormSrgb => true,
            SurfaceFormat::Other { srgb } => srgb,
        }
    }

    /// Whether the format is an sRGB format.
    #[verifier::when_used_as_spec(spec_is_srgb)]
    pub fn is_srgb(self) -> (r: bool)
        ensures
            r == self.spec_is_srgb(),
    {
        match self {
            SurfaceFormat::Rgba8Unorm => false,
            SurfaceFormat::Bgra8Unorm => false,
            SurfaceFormat::Rgba8UnormSrgb => true,
            SurfaceFormat::Bgra8UnormSrgb => true,
            SurfaceFormat::Other { srgb } => srgb,
        }
    }

    /// Whether the format is one of the two that blit without conversion.
    pub open spec fn spec_is_preferred(self) -> bool {
        self == SurfaceFormat::Rgba8Unorm || self == SurfaceFormat::Bgra8Unorm
    }

    /// Whether the format is one of the two that blit without conversion.
    #[verifier::when_used_as_spec(spec_is_preferred)]
    pub fn is_preferred(self) -> (r: bool)
        ensures
            r == self.spec_is_preferred(),
    {
        match self {
            SurfaceFormat::Rgba8Unorm => true,
            SurfaceFormat::Bgra8Unorm => true,
            _ => false,
        }
    }
}

/// Whether position `i` is the first in `formats` with a preferred format.
pub open spec fn first_preferred(formats: Seq<SurfaceFormat>, i: int) -> bool {
    &&& 0 <= i < formats.len()
    &&& formats[i].spec_is_preferred()
    &&& forall|j: int| 0 <= j < i ==> !(#[trigger] formats[j]).spec_is_preferred()
}

/// Whether position `i` is the first in `formats` with a format that is not
/// sRGB.
pub open spec fn first_linear(formats: Seq<SurfaceFormat>, i: int) -> bool {
    &&& 0 <= i < formats.len()
    &&& !formats[i].spec_is_srgb()
    &&& forall|j: int| 0 <= j < i ==> (#[trigger] formats[j]).spec_is_srgb()
}

/// Whether `i` is the position of the format to use among those that a
/// surface offers: the first preferred one; where there is none, the first
/// that is not sRGB; where there is none either, the first of all.
pub open spec fn is_chosen_format(formats: Seq<SurfaceFormat>, i: int) -> bool {
    if exists|k: int| 0 <= k < formats.len() && (#[trigger] formats[k]).spec_is_preferred() {
        first_preferred(formats, i)
    } else if exists|k: int| 0 <= k < formats.len() && !(#[trigger] formats[k]).spec_is_srgb() {
        first_linear(formats, i)
    } else {
        i == 0
    }
}

/// The position of the format to use among those that a surface offers;
/// none where the surface offers no format.
pub fn choose_surface_format(formats: &[SurfaceFormat]) -> (chosen: Option<usize>)
    ensures
        formats@.len() == 0 <==> chosen is None,
        chosen matches Some(i) ==> i < formats@.len() && is_chosen_format(formats@, i as int),
{
    if formats.len() == 0 {
        return None;
    }
    let mut i: usize = 0;
    while i < formats.len()
        invariant
            i <= formats.len(),
            forall|j: int| 0 <= j < i ==> !(#[trigger] formats@[j]).spec_is_preferred(),
        decreases formats.len() - i,
    {
        if formats[i].is_preferred() {
            return Some(i);
        }
        i += 1;
    }
    let mut k: usize = 0;
    while k < formats.len()
        invariant
            k <= formats.len(),
            forall|j: int| 0 <= j < formats@.len() ==> !(#[trigger] formats@[j]).spec_is_preferred(),
            forall|j: int| 0 <= j < k ==> (#[trigger] formats@[j]).spec_is_srgb(),
        decreases formats.len() - k,
    {
        if !formats[k].is_srgb() {
            return Some(k);
        }
        k += 1;
    }
    Some(0)
}

/// The configuration of a surface of the given size that offers the given
/// formats: the chosen format, used as a render attachment and shown in step
/// with the display. A surface that offers no format cannot be configured.
pub fn surface_configuration(size: PhysicalSize, formats: &[SurfaceFormat]) -> (r: Result<
    SurfaceConfiguration,
    BackendError,
>)
    ensures
        formats@.len() == 0 <==> r is Err,
        r matches Err(error) ==> error == BackendError::NoSurfaceFormat,
        r matches Ok(config) ==> {
            &&& config.width == size.width
            &&& config.height == size.height
            &&& exists|i: int|
                #[trigger] is_chosen_format(formats@, i) && 0 <= i < formats@.len()
                    && config.format == formats@[i]
            &&& config.usage == SurfaceUsage::RenderAttachment
            &&& config.present_mode == PresentMode::AutoVsync
        },
{
    match choose_surface_format(formats) {
        Some(chosen) => {
            assert(is_chosen_format(formats@, chosen as int));
            Ok(
                SurfaceConfiguration {
                    width: size.width,
                    height: size.height,
                    format: formats[chosen],
                    usage: SurfaceUsage::RenderAttachment,
                    present_mode: PresentMode::AutoVsync,
                },
            )
        },
        None => Err(BackendError::NoSurfaceFormat),
    }
}

impl WgpuBackend {
    /// The backend that holds nothing.
    pub open spec fn spec_new() -> WgpuBackend {
        WgpuBackend {
            instance: false,
            device: false,
            queue: false,
            surface_config: None,
            surface: false,
            vello_renderer: false,
            target_texture: None,
            target_view: false,
            blitter: None,
        }
    }

    /// A suspended backend.
    #[verifier::when_used_as_spec(spec_new)]
    pub fn new() -> (backend: WgpuBackend)
        ensures
            backend == WgpuBackend::spec_new(),
    {
        WgpuBackend {
            instance: false,
            device: false,
            queue: false,
            surface_config: None,
            surface: false,
            vello_renderer: false,
            target_texture: None,
            target_view: false,
            blitter: None,
        }
    }

    /// Whether the backend holds nothing.
    pub open spec fn is_suspended(self) -> bool {
        self == WgpuBackend::spec_new()
    }

    /// Whether the backend holds all that rendering a scene needs.
    pub open spec fn can_render(self) -> bool {
        self.missing_for_rendering() is None
    }

    /// The first of the resources that rendering a scene needs and the
    /// backend does not hold, in the order in which rendering asks for them.
    pub open spec fn missing_for_rendering(self) -> Option<BackendError> {
        if !self.device {
            Some(BackendError::DeviceNotInitialized)
        } else if !self.queue {
            Some(BackendError::QueueNotInitialized)
        } else if !self.vello_renderer {
            Some(BackendError::RendererNotInitialized)
        } else if !self.surface {
            Some(BackendError::SurfaceNotInitialized)
        } else if !self.target_view {
            Some(BackendError::TargetViewNotInitialized)
        } else if self.target_texture is None {
            Some(BackendError::TargetTextureNotInitialized)
        } else if self.blitter is None {
            Some(BackendError::BlitterNotInitialized)
        } else {
            None
        }
    }

    /// The backend with an intermediate target of the given size, its view,
    /// and a blitter to the given format.
    pub open spec fn with_targets(self, width: u32, height: u32, format: SurfaceFormat)
        -> WgpuBackend {
        WgpuBackend {
            target_texture: Some(PhysicalSize { width, height }),
            target_view: true,
            blitter: Some(format),
            ..self
        }
    }

    /// The backend after a window handle gave it all resources, with the
    /// surface configured as `config` and targets of the same size.
    pub open spec fn activated(config: SurfaceConfiguration) -> WgpuBackend {
        (WgpuBackend {
            instance: true,
            device: true,
            queue: true,
            surface_config: Some(config),
            surface: true,
            vello_renderer: true,
            target_texture: None,
            target_view: false,
            blitter: None,
        }).with_targets(config.width, config.height, config.format)
    }

    /// The backend after a request for a surface of the given size, and what
    /// the request is answered with. A suspended backend passes the request
    /// over. An active one notes the size in its configuration, and, if it
    /// holds its device and its surface, gets targets of that size.
    pub open spec fn resized(self, width: u32, height: u32) -> (
        WgpuBackend,
        Result<(), BackendError>,
    ) {
        match self.surface_config {
            None => (self, Ok(())),
            Some(config) => {
                let noted = WgpuBackend {
                    surface_config: Some(SurfaceConfiguration { width, height, ..config }),
                    ..self
                };
                if !self.device {
                    (noted, Err(BackendError::DeviceNotInitialized))
                } else if !self.surface {
                    (noted, Err(BackendError::SurfaceNotInitialized))
                } else {
                    (noted.with_targets(width, height, config.format), Ok(()))
                }
            },
        }
    }

    fn create_targets(&mut self, width: u32, height: u32, surface_format: SurfaceFormat)
        ensures
            *final(self) == old(self).with_targets(width, height, surface_format),
    {
        self.target_texture = Some(PhysicalSize { width, height });
        self.target_view = true;
        self.blitter = Some(surface_format);
    }

    /// Whether the backend holds its device.
    pub fn device(&self) -> (held: bool)
        ensures
            held == self.device,
    {
        self.device
    }

    /// Whether the backend holds its queue.
    pub fn queue(&self) -> (held: bool)
        ensures
            held == self.queue,
    {
        self.queue
    }

    /// Notes that a window handle gave the backend all its resources, with
    /// the surface configured as `config`, and makes the targets.
    pub fn set_window_handle(&mut self, config: SurfaceConfiguration)
        ensures
            *final(self) == WgpuBackend::activated(config),
            final(self).can_render(),
    {
        self.instance = true;
        self.device = true;
        self.queue = true;
        self.surface_config = Some(config);
        self.surface = true;
        self.vello_renderer = true;
        self.target_texture = None;
        self.target_view = false;
        self.blitter = None;
        self.create_targets(config.width, config.height, config.format);
    }

    /// Whether a texture of the given size can be copied to the
    /// intermediate target as it is: the backend has to hold its device, its
    /// queue and its target, in this order, and the sizes have to agree.
    pub fn render_wgpu_texture_to_target(&self, texture_size: PhysicalSize) -> (r: Result<
        (),
        BackendError,
    >)
        ensures
            r == if !self.device {
                Err::<(), BackendError>(BackendError::DeviceNotInitialized)
            } else if !self.queue {
                Err::<(), BackendError>(BackendError::QueueNotInitialized)
            } else if self.target_texture is None {
                Err::<(), BackendError>(BackendError::TargetTextureNotInitialized)
            } else if self.target_texture == Some(texture_size) {
                Ok::<(), BackendError>(())
            } else {
                Err::<(), BackendError>(BackendError::ScalingNotImplemented)
            },
    {
        if !self.device {
            return Err(BackendError::DeviceNotInitialized);
        }
        if !self.queue {
            return Err(BackendError::QueueNotInitialized);
        }
        match self.target_texture {
            None => Err(BackendError::TargetTextureNotInitialized),
            Some(target_size) => {
                if texture_size.width == target_size.width && texture_size.height
                    == target_size.height {
                    Ok(())
                } else {
                    Err(BackendError::ScalingNotImplemented)
                }
            },
        }
    }
}

impl Default for WgpuBackend {
    fn default() -> (backend: WgpuBackend)
        ensures
            backend == WgpuBackend::spec_new(),
    {
        WgpuBackend::new()
    }
}

impl GraphicsBackend for WgpuBackend {
    /// Clearing the graphics context leaves a backend that holds nothing.
    open spec fn clears(before: WgpuBackend, after: WgpuBackend) -> bool {
        after.is_suspended()
    }

    /// Rendering leaves the backend as it is, and fails with the first
    /// resource that is missing.
    open spec fn renders(
        before: WgpuBackend,
        ops: Seq<DrawOpView>,
        width: u32,
        height: u32,
        after: WgpuBackend,
        answer: Result<(), BackendError>,
    ) -> bool {
        after == before && answer == match before.missing_for_rendering() {
            Some(error) => Err::<(), BackendError>(error),
            None => Ok::<(), BackendError>(()),
        }
    }

    open spec fn resizes(
        before: WgpuBackend,
        width: u32,
        height: u32,
        after: WgpuBackend,
        answer: Result<(), BackendError>,
    ) -> bool {
        (after, answer) == before.resized(width, height)
    }

    fn new_suspended() -> (backend: WgpuBackend)
        ensures
            backend == WgpuBackend::spec_new(),
    {
        WgpuBackend::new()
    }

    /// Drops every resource: the backend is suspended again.
    fn clear_graphics_context(&mut self)
        ensures
            *final(self) == WgpuBackend::spec_new(),
    {
        self.blitter = None;
        self.target_view = false;
        self.target_texture = None;
        self.vello_renderer = false;
        self.surface = false;
        self.surface_config = None;
        self.queue = false;
        self.device = false;
        self.instance = false;
    }

    /// Tells whether the backend holds all that rendering a scene needs,
    /// and what it misses first where it does not. The backend stays as it
    /// is.
    fn render_scene(&mut self, scene: &Scene, width: u32, height: u32) -> (r: Result<
        (),
        BackendError,
    >)
        ensures
            *final(self) == *old(self),
            r == match old(self).missing_for_rendering() {
                Some(error) => Err::<(), BackendError>(error),
                None => Ok::<(), BackendError>(()),
            },
    {
        if !self.device {
            Err(BackendError::DeviceNotInitialized)
        } else if !self.queue {
            Err(BackendError::QueueNotInitialized)
        } else if !self.vello_renderer {
            Err(BackendError::RendererNotInitialized)
        } else if !self.surface {
            Err(BackendError::SurfaceNotInitialized)
        } else if !self.target_view {
            Err(BackendError::TargetViewNotInitialized)
        } else if self.target_texture.is_none() {
            Err(BackendError::TargetTextureNotInitialized)
        } else if self.blitter.is_none() {
            Err(BackendError::BlitterNotInitialized)
        } else {
            Ok(())
        }
    }

    /// Takes a request for a surface of the given size.
    fn resize(&mut self, width: u32, height: u32) -> (r: Result<(), BackendError>)
        ensures
            (*final(self), r) == old(self).resized(width, height),
    {
        let config = match self.surface_config {
            Some(config) => config,
            None => {
                return Ok(());
            },
        };
        self.surface_config = Some(
            SurfaceConfiguration {
                width,
                height,
                format: config.format,
                usage: config.usage,
                present_mode: config.present_mode,
            },
        );
        if !self.device {
            return Err(BackendError::DeviceNotInitialized);
        }
        if !self.surface {
            return Err(BackendError::SurfaceNotInitialized);
        }
        self.create_targets(width, height, config.format);
        Ok(())
    }

    /// The handles of the GPU can be given out while the backend holds its
    /// instance, its device and its queue.
    fn has_graphics_api(&self) -> (r: bool)
        ensures
            r == (self.instance && self.device && self.queue),
    {
        self.instance && self.device && self.queue
    }

    /// Textures are not read back: rendering them on the GPU is the way.
    fn read_wgpu_26_texture(&self, texture: GpuTexture) -> (r: Option<RawPixels>)
        ensures
            r is None,
    {
        None
    }
}

impl VelloRenderer<WgpuBackend> {
    /// Notes that a window handle gave the backend of the renderer all its
    /// resources, with the surface configured as `config`.
    pub fn set_window_handle(&mut self, config: SurfaceConfiguration)
        ensures
            final(self)@ == old(self)@,
            final(self).backend() == WgpuBackend::activated(config),
    {
        let backend = self.graphics_backend_mut();
        backend.set_window_handle(config);
    }
}

/// A backend that was cleared is suspended, whatever it held: it passes a
/// resize over, and it renders no scene.
pub proof fn lemma_suspended_backend(width: u32, height: u32)
    ensures
        WgpuBackend::spec_new().resized(width, height) == (
            WgpuBackend::spec_new(),
            Ok::<(), BackendError>(()),
        ),
        !WgpuBackend::spec_new().can_render(),
{
}

/// An active backend that is resized holds targets of the new size and can
/// still render.
pub proof fn lemma_resize_keeps_active(config: SurfaceConfiguration, width: u32, height: u32)
    ensures
        WgpuBackend::activated(config).resized(width, height).1 is Ok,
        WgpuBackend::activated(config).resized(width, height).0 == WgpuBackend::activated(
            SurfaceConfiguration { width, height, ..config },
        ),
        WgpuBackend::activated(config).resized(width, height).0.can_render(),
{
}

} // verus!
