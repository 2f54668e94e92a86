use vello_renderer::brush::{Brush, Color, GradientStop};
use vello_renderer::fixed::Fixed;
use vello_renderer::geometry::{Affine, PhysicalRect, Point, Rect, Rotation, Size, Vector};
use vello_renderer::image::{PixelFormat, SharedImageBuffer};
use vello_renderer::renderer::{
    after_resize, notified_without_api, BackendError, FrameAction, FrameEvent, FramePhase, GpuTexture, GraphicsBackend,
    PhysicalSize, PlatformError, RenderingState, SetRenderingNotifierError, VelloRenderer,
    WindowInfo,
};
use vello_renderer::scene::{DrawOp, Fill, Paint, Rgba8, Scene, Shape};

fn fx(n: i32) -> Fixed {
    Fixed::from_int(n)
}

/// A backend that counts what it is asked and answers as it is told.
struct Recorder {
    rendered: Vec<(usize, u32, u32)>,
    resized: Vec<(u32, u32)>,
    cleared: usize,
    fail: bool,
}

impl GraphicsBackend for Recorder {
    fn new_suspended() -> Self {
        Recorder { rendered: Vec::new(), resized: Vec::new(), cleared: 0, fail: false }
    }

    fn clear_graphics_context(&mut self) {
        self.cleared += 1;
    }

    fn render_scene(&mut self, scene: &Scene, width: u32, height: u32) -> Result<(), BackendError> {
        self.rendered.push((scene.len(), width, height));
        if self.fail {
            Err(BackendError::Gpu(format!("lost")))
        } else {
            Ok(())
        }
    }

    fn resize(&mut self, width: u32, height: u32) -> Result<(), BackendError> {
        self.resized.push((width, height));
        if self.fail {
            Err(BackendError::SurfaceNotInitialized)
        } else {
            Ok(())
        }
    }

    fn has_graphics_api(&self) -> bool {
        false
    }
}

fn renderer() -> VelloRenderer<Recorder> {
    VelloRenderer::new(Recorder::new_suspended())
}

fn window(width: u32, height: u32, background: Option<Brush>) -> Option<WindowInfo> {
    Some(WindowInfo {
        size: PhysicalSize { width, height },
        scale_factor: fx(2),
        background,
        has_contents: true,
    })
}

fn blue() -> Brush {
    Brush::SolidColor(Color::from_argb_u8(200, 0, 0, 255))
}

fn gradient() -> Brush {
    Brush::LinearGradient {
        angle: fx(0),
        stops: vec![GradientStop { color: Color::from_rgb_u8(1, 2, 3), position: fx(0) }],
    }
}

fn expect_notify(action: FrameAction, state: RenderingState) {
    match action {
        FrameAction::Notify(asked) => assert_eq!(asked, state),
        _ => panic!("a notification expected"),
    }
}

fn expect_finished(action: FrameAction) -> Result<(), PlatformError> {
    match action {
        FrameAction::Finished(result) => result,
        _ => panic!("the end of the frame expected"),
    }
}

#[test]
fn new_renderer_is_idle_and_empty() {
    let r = renderer();
    assert_eq!(r.phase(), FramePhase::Idle);
    assert_eq!(r.scene().len(), 0);
    assert_eq!(r.cached_images(), 0);
    assert_eq!(r.graphics_backend().cleared, 0);
}

#[test]
fn frame_without_notifier_walks_and_presents() {
    let mut r = renderer();
    assert!(matches!(r.render(), FrameAction::ResolveWindow));
    assert_eq!(r.phase(), FramePhase::Window);
    let action = r.proceed(FrameEvent::Window(window(200, 100, Some(blue()))));
    let mut items = match action {
        FrameAction::DrawItems { renderer, post_callback } => {
            assert!(!post_callback);
            renderer
        }
        _ => panic!("the walk of the items expected"),
    };
    assert_eq!(r.phase(), FramePhase::Items);
    // the scene was cleared with the background, as it is
    assert_eq!(
        items.scene().ops()[0],
        DrawOp::Fill {
            rule: Fill::NonZero,
            transform: Affine::identity(),
            paint: Paint::Solid(Rgba8 { r: 0, g: 0, b: 255, a: 200 }),
            shape: Shape::Rect(PhysicalRect::new(fx(0), fx(0), fx(200), fx(100))),
        }
    );
    assert_eq!(items.scene().len(), 1);
    assert_eq!(items.scale_factor(), fx(2));
    assert_eq!(items.current_transform(), Affine::identity());
    assert_eq!(items.get_current_clip(), Rect::new(Point::origin(), Size::new(fx(200), fx(100))));
    items.draw_rectangle(&blue(), Size::new(fx(10), fx(10)));
    let done = r.proceed(FrameEvent::ItemsDrawn { renderer: items, result: Ok(()) });
    assert_eq!(expect_finished(done), Ok(()));
    assert_eq!(r.phase(), FramePhase::Idle);
    assert_eq!(r.graphics_backend().rendered, vec![(2, 200, 100)]);
    assert_eq!(r.scene().len(), 2);
}

#[test]
fn notifier_is_called_at_setup_before_and_after() {
    let mut r = renderer();
    assert_eq!(r.set_rendering_notifier(), Ok(()));
    expect_notify(r.render(), RenderingState::RenderingSetup);
    assert_eq!(r.phase(), FramePhase::Setup);
    assert!(matches!(r.proceed(FrameEvent::Notified(Ok(()))), FrameAction::ResolveWindow));
    expect_notify(
        r.proceed(FrameEvent::Window(window(20, 10, None))),
        RenderingState::BeforeRendering,
    );
    assert_eq!(r.phase(), FramePhase::Before);
    // the scene is in the hands of the renderer while the notifier runs
    assert_eq!(r.scene().len(), 0);
    let items = match r.proceed(FrameEvent::Notified(Ok(()))) {
        FrameAction::DrawItems { renderer, .. } => renderer,
        _ => panic!("the walk of the items expected"),
    };
    expect_notify(
        r.proceed(FrameEvent::ItemsDrawn { renderer: items, result: Ok(()) }),
        RenderingState::AfterRendering,
    );
    assert_eq!(r.phase(), FramePhase::After);
    assert_eq!(r.graphics_backend().rendered.len(), 1);
    assert_eq!(expect_finished(r.proceed(FrameEvent::Notified(Ok(())))), Ok(()));
    // the second frame has no setup
    assert!(matches!(r.render(), FrameAction::ResolveWindow));
}

#[test]
fn second_notifier_is_refused() {
    let mut r = renderer();
    assert_eq!(r.set_rendering_notifier(), Ok(()));
    assert_eq!(r.set_rendering_notifier(), Err(SetRenderingNotifierError::AlreadySet));
    assert_eq!(r.set_rendering_notifier(), Err(SetRenderingNotifierError::AlreadySet));
    // the first registration stands
    expect_notify(r.render(), RenderingState::RenderingSetup);
}

#[test]
fn failed_notification_ends_the_frame() {
    let mut r = renderer();
    r.set_rendering_notifier().unwrap();
    r.render();
    let done = r.proceed(FrameEvent::Notified(Err(PlatformError::Other(format!("no api")))));
    assert_eq!(expect_finished(done), Err(PlatformError::Other(format!("no api"))));
    assert_eq!(r.phase(), FramePhase::Idle);
    assert!(r.graphics_backend().rendered.is_empty());
}

#[test]
fn renderer_without_window_fails_the_frame() {
    let mut r = renderer();
    r.render();
    let done = r.proceed(FrameEvent::Window(None));
    assert_eq!(expect_finished(done), Err(PlatformError::NotAttached));
    assert_eq!(r.phase(), FramePhase::Idle);
    assert!(r.graphics_backend().rendered.is_empty());
    // the next frame may succeed
    assert!(matches!(r.render(), FrameAction::ResolveWindow));
}

#[test]
fn window_without_area_skips_the_frame() {
    for (width, height) in [(0, 100), (100, 0), (0, 0)] {
        let mut r = renderer();
        r.render();
        let done = r.proceed(FrameEvent::Window(window(width, height, Some(blue()))));
        assert_eq!(expect_finished(done), Ok(()));
        assert_eq!(r.scene().len(), 0);
        assert!(r.graphics_backend().rendered.is_empty());
    }
}

#[test]
fn gradient_background_is_drawn_as_a_rectangle() {
    let mut r = renderer();
    r.render();
    let items = match r.proceed(FrameEvent::Window(window(200, 100, Some(gradient())))) {
        FrameAction::DrawItems { renderer, .. } => renderer,
        _ => panic!("the walk of the items expected"),
    };
    assert_eq!(items.scene().len(), 1);
    // the logical size of the window, 100 by 50, in physical pixels again
    match &items.scene().ops()[0] {
        DrawOp::Fill { paint, shape, .. } => {
            assert_eq!(*shape, Shape::Rect(PhysicalRect::new(fx(0), fx(0), fx(200), fx(100))));
            assert!(matches!(paint, Paint::LinearGradient { .. }));
        }
        _ => panic!("a fill expected"),
    }
}

#[test]
fn window_without_background_starts_with_an_empty_scene() {
    let mut r = renderer();
    r.render();
    let items = match r.proceed(FrameEvent::Window(window(200, 100, None))) {
        FrameAction::DrawItems { renderer, .. } => renderer,
        _ => panic!("the walk of the items expected"),
    };
    assert_eq!(items.scene().len(), 0);
}

#[test]
fn scene_is_reset_at_the_start_of_each_frame() {
    let mut r = renderer();
    for _ in 0..3 {
        r.render();
        let mut items = match r.proceed(FrameEvent::Window(window(200, 100, Some(blue())))) {
            FrameAction::DrawItems { renderer, .. } => renderer,
            _ => panic!("the walk of the items expected"),
        };
        items.draw_rectangle(&blue(), Size::new(fx(10), fx(10)));
        items.draw_rectangle(&blue(), Size::new(fx(20), fx(10)));
        r.proceed(FrameEvent::ItemsDrawn { renderer: items, result: Ok(()) });
        assert_eq!(r.scene().len(), 3);
    }
    assert_eq!(r.graphics_backend().rendered, vec![(3, 200, 100); 3]);
}

#[test]
fn image_cache_lives_across_frames_until_it_is_cleared() {
    let mut r = renderer();
    let bytes = [1u8, 2, 3, 4];
    for frame in 0..2 {
        r.render();
        let mut items = match r.proceed(FrameEvent::Window(window(200, 100, None))) {
            FrameAction::DrawItems { renderer, .. } => renderer,
            _ => panic!("the walk of the items expected"),
        };
        items.get_or_create_image_data(&SharedImageBuffer {
            id: 7 + frame,
            format: PixelFormat::Rgba8,
            width: 1,
            height: 1,
            bytes: &bytes,
        });
        r.proceed(FrameEvent::ItemsDrawn { renderer: items, result: Ok(()) });
        assert_eq!(r.cached_images(), 1 + frame);
    }
    r.clear_graphics_context();
    assert_eq!(r.cached_images(), 0);
    assert_eq!(r.graphics_backend().cleared, 1);
}

#[test]
fn failed_walk_ends_the_frame_without_presenting() {
    let mut r = renderer();
    r.render();
    let mut items = match r.proceed(FrameEvent::Window(window(200, 100, None))) {
        FrameAction::DrawItems { renderer, .. } => renderer,
        _ => panic!("the walk of the items expected"),
    };
    items.draw_rectangle(&blue(), Size::new(fx(10), fx(10)));
    let done = r.proceed(FrameEvent::ItemsDrawn {
        renderer: items,
        result: Err(PlatformError::NotAttached),
    });
    assert_eq!(expect_finished(done), Err(PlatformError::NotAttached));
    assert!(r.graphics_backend().rendered.is_empty());
    // the scene came back all the same
    assert_eq!(r.scene().len(), 1);
}

#[test]
fn backend_error_ends_the_frame() {
    let mut r = renderer();
    r.set_rendering_notifier().unwrap();
    r.graphics_backend_mut().fail = true;
    r.render();
    r.proceed(FrameEvent::Notified(Ok(())));
    r.proceed(FrameEvent::Window(window(200, 100, None)));
    let items = match r.proceed(FrameEvent::Notified(Ok(()))) {
        FrameAction::DrawItems { renderer, .. } => renderer,
        _ => panic!("the walk of the items expected"),
    };
    let done = r.proceed(FrameEvent::ItemsDrawn { renderer: items, result: Ok(()) });
    assert_eq!(
        expect_finished(done),
        Err(PlatformError::Backend(BackendError::Gpu(format!("lost"))))
    );
    assert_eq!(r.phase(), FramePhase::Idle);
}

#[test]
fn window_with_nothing_to_show_presents_the_last_scene() {
    let mut r = renderer();
    r.render();
    let mut items = match r.proceed(FrameEvent::Window(window(200, 100, None))) {
        FrameAction::DrawItems { renderer, .. } => renderer,
        _ => panic!("the walk of the items expected"),
    };
    items.draw_rectangle(&blue(), Size::new(fx(10), fx(10)));
    r.proceed(FrameEvent::ItemsDrawn { renderer: items, result: Ok(()) });
    r.render();
    let bare = WindowInfo {
        size: PhysicalSize { width: 200, height: 100 },
        scale_factor: fx(1),
        background: Some(blue()),
        has_contents: false,
    };
    assert_eq!(expect_finished(r.proceed(FrameEvent::Window(Some(bare)))), Ok(()));
    assert_eq!(r.graphics_backend().rendered, vec![(1, 200, 100), (1, 200, 100)]);
}

#[test]
fn events_out_of_turn_end_the_frame() {
    let mut r = renderer();
    assert_eq!(
        expect_finished(r.proceed(FrameEvent::Notified(Ok(())))),
        Err(PlatformError::OutOfTurn)
    );
    r.render();
    assert_eq!(
        expect_finished(r.proceed(FrameEvent::Notified(Ok(())))),
        Err(PlatformError::OutOfTurn)
    );
    assert_eq!(r.phase(), FramePhase::Idle);
    r.render();
    // a second start while the frame waits for its window
    assert_eq!(expect_finished(r.render()), Err(PlatformError::OutOfTurn));
    assert_eq!(r.phase(), FramePhase::Idle);
    assert_eq!(
        expect_finished(r.proceed(FrameEvent::Window(window(1, 1, None)))),
        Err(PlatformError::OutOfTurn)
    );
}

#[test]
fn rotated_frame_starts_under_rotation_and_translation() {
    let mut r = renderer();
    let quarter = Rotation { sin: fx(1), cos: fx(0) };
    let action = r.render_transformed_with_post_callback(
        quarter,
        Vector::new(fx(100), fx(0)),
        PhysicalSize { width: 100, height: 200 },
        true,
    );
    assert!(matches!(action, FrameAction::ResolveWindow));
    // the frame is drawn at the size it was given, not at that of the window
    let items = match r.proceed(FrameEvent::Window(window(640, 480, Some(blue())))) {
        FrameAction::DrawItems { renderer, post_callback } => {
            assert!(post_callback);
            renderer
        }
        _ => panic!("the walk of the items expected"),
    };
    assert_eq!(
        items.current_transform(),
        Affine { a: fx(0), b: fx(1), c: fx(-1), d: fx(0), e: fx(100), f: fx(0) }
    );
    assert_eq!(items.get_current_clip(), Rect::new(Point::origin(), Size::new(fx(100), fx(200))));
    match &items.scene().ops()[0] {
        DrawOp::Fill { shape, .. } => {
            assert_eq!(*shape, Shape::Rect(PhysicalRect::new(fx(0), fx(0), fx(100), fx(200))));
        }
        _ => panic!("a fill expected"),
    }
    r.proceed(FrameEvent::ItemsDrawn { renderer: items, result: Ok(()) });
    assert_eq!(r.graphics_backend().rendered, vec![(1, 100, 200)]);
}

#[test]
fn frame_without_rotation_is_moved_all_the_same() {
    let mut r = renderer();
    r.render_transformed_with_post_callback(
        Rotation::none(),
        Vector::new(fx(100), fx(50)),
        PhysicalSize { width: 100, height: 200 },
        false,
    );
    let items = match r.proceed(FrameEvent::Window(window(640, 480, None))) {
        FrameAction::DrawItems { renderer, post_callback } => {
            assert!(!post_callback);
            renderer
        }
        _ => panic!("the walk of the items expected"),
    };
    assert_eq!(items.current_transform(), Affine::translation(fx(100), fx(50)));
    assert_eq!(items.get_current_clip(), Rect::new(Point::origin(), Size::new(fx(100), fx(200))));
    assert_eq!(items.current_alpha(), fx(1));
}

#[test]
fn rotated_frame_without_area_is_skipped_before_the_window_is_looked_up() {
    let mut r = renderer();
    r.set_rendering_notifier().unwrap();
    let action = r.render_transformed_with_post_callback(
        Rotation::none(),
        Vector::new(fx(0), fx(0)),
        PhysicalSize { width: 0, height: 200 },
        false,
    );
    // the setup is notified first, all the same
    expect_notify(action, RenderingState::RenderingSetup);
    assert_eq!(expect_finished(r.proceed(FrameEvent::Notified(Ok(())))), Ok(()));
    assert_eq!(r.phase(), FramePhase::Idle);
}

#[test]
fn resize_is_handed_to_the_backend() {
    let mut r = renderer();
    assert_eq!(r.resize(PhysicalSize { width: 640, height: 480 }), Ok(()));
    assert_eq!(r.graphics_backend().resized, vec![(640, 480)]);
    // a size without area is passed over
    assert_eq!(r.resize(PhysicalSize { width: 0, height: 480 }), Ok(()));
    assert_eq!(r.resize(PhysicalSize { width: 640, height: 0 }), Ok(()));
    assert_eq!(r.graphics_backend().resized.len(), 1);
    r.graphics_backend_mut().fail = true;
    assert_eq!(
        r.resize(PhysicalSize { width: 1, height: 1 }),
        Err(PlatformError::Backend(BackendError::SurfaceNotInitialized))
    );
}

#[test]
fn answer_of_the_backend_to_a_resize_is_passed_on() {
    assert_eq!(after_resize(Ok(())), Ok(()));
    assert_eq!(
        after_resize(Err(BackendError::DeviceNotInitialized)),
        Err(PlatformError::Backend(BackendError::DeviceNotInitialized))
    );
}

#[test]
fn teardown_is_notified_once_a_frame_was_started() {
    // no frame yet: nothing to tell the notifier
    let mut fresh = renderer();
    fresh.set_rendering_notifier().unwrap();
    assert!(fresh.is_first_frame());
    assert_eq!(expect_finished(fresh.teardown()), Ok(()));
    assert_eq!(fresh.graphics_backend().cleared, 1);

    // no notifier: nobody to tell
    let mut silent = renderer();
    silent.render();
    assert!(!silent.is_first_frame());
    assert_eq!(expect_finished(silent.teardown()), Ok(()));
    assert_eq!(silent.graphics_backend().cleared, 1);
}

#[test]
fn teardown_notifies_before_it_clears() {
    let mut r = renderer();
    r.set_rendering_notifier().unwrap();
    r.render();
    expect_notify(r.teardown(), RenderingState::RenderingTeardown);
    assert_eq!(r.phase(), FramePhase::Teardown);
    // nothing is cleared while the notifier runs
    assert_eq!(r.graphics_backend().cleared, 0);
    // whether the notification worked makes no difference
    let done = r.proceed(FrameEvent::Notified(Err(PlatformError::Other(format!("gone")))));
    assert_eq!(expect_finished(done), Ok(()));
    assert_eq!(r.graphics_backend().cleared, 1);
    assert_eq!(r.cached_images(), 0);
    assert_eq!(r.phase(), FramePhase::Idle);
    // a second teardown has nothing to tell
    assert!(r.is_first_frame());
    assert_eq!(expect_finished(r.teardown()), Ok(()));
    // and a new frame starts with the setup again
    expect_notify(r.render(), RenderingState::RenderingSetup);
}

#[test]
fn notification_without_gpu_handles() {
    assert_eq!(notified_without_api(RenderingState::RenderingTeardown), Ok(()));
    for state in [
        RenderingState::RenderingSetup,
        RenderingState::BeforeRendering,
        RenderingState::AfterRendering,
    ] {
        assert_eq!(notified_without_api(state), Err(PlatformError::NoGraphicsApi));
    }
    assert_eq!(
        PlatformError::NoGraphicsApi.message(),
        "The graphics backend holds no graphics API"
    );
}

#[test]
fn renderer_draws_under_any_transform() {
    assert!(renderer().supports_transformations());
}

#[test]
fn errors_in_words() {
    assert_eq!(
        PlatformError::NotAttached.message(),
        "Renderer must be associated with component before use"
    );
    assert_eq!(BackendError::DeviceNotInitialized.message(), "Device not initialized");
    assert_eq!(BackendError::QueueNotInitialized.message(), "Queue not initialized");
    assert_eq!(BackendError::RendererNotInitialized.message(), "Vello renderer not initialized");
    assert_eq!(BackendError::SurfaceNotInitialized.message(), "Surface not initialized");
    assert_eq!(BackendError::TargetViewNotInitialized.message(), "Target view not initialized");
    assert_eq!(
        BackendError::TargetTextureNotInitialized.message(),
        "Target texture not initialized"
    );
    assert_eq!(BackendError::BlitterNotInitialized.message(), "Blitter not initialized");
    assert_eq!(
        BackendError::ScalingNotImplemented.message(),
        "WGPU texture rendering with scaling/positioning not yet implemented"
    );
    assert_eq!(BackendError::Gpu(format!("lost")).message(), "lost");
    assert_eq!(
        PlatformError::Backend(BackendError::SurfaceNotInitialized).message(),
        "Surface not initialized"
    );
    assert_eq!(PlatformError::Other(format!("x")).message(), "x");
    assert_eq!(PlatformError::OutOfTurn.message(), "Frame event out of turn");
}

#[test]
fn backend_reads_no_texture_back_unless_it_says_how() {
    assert_eq!(Recorder::new_suspended().read_wgpu_26_texture(GpuTexture { id: 1 }), None);
}

#[test]
fn presentation_answer_decides_what_follows() {
    let mut r = renderer();
    assert_eq!(expect_finished(r.after_submission(Ok(()))), Ok(()));
    assert_eq!(
        expect_finished(r.after_submission(Err(BackendError::QueueNotInitialized))),
        Err(PlatformError::Backend(BackendError::QueueNotInitialized))
    );
    r.set_rendering_notifier().unwrap();
    expect_notify(r.after_submission(Ok(())), RenderingState::AfterRendering);
    assert_eq!(r.phase(), FramePhase::After);
}
