use vello_renderer::renderer::{
    BackendError, FrameAction, FrameEvent, GpuTexture, GraphicsBackend, PhysicalSize,
    PlatformError, VelloRenderer, WindowInfo,
};
use vello_renderer::fixed::Fixed;
use vello_renderer::scene::Scene;
use vello_renderer::wgpu::{
    choose_surface_format, surface_configuration, PresentMode, SurfaceConfiguration,
    SurfaceFormat, SurfaceUsage, WgpuBackend,
};

fn config(width: u32, height: u32) -> SurfaceConfiguration {
    SurfaceConfiguration {
        width,
        height,
        format: SurfaceFormat::Bgra8Unorm,
        usage: SurfaceUsage::RenderAttachment,
        present_mode: PresentMode::AutoVsync,
    }
}

fn active() -> WgpuBackend {
    let mut backend = WgpuBackend::new();
    backend.set_window_handle(config(640, 480));
    backend
}

#[test]
fn preferred_format_wins() {
    let formats = [
        SurfaceFormat::Rgba8UnormSrgb,
        SurfaceFormat::Other { srgb: false },
        SurfaceFormat::Bgra8Unorm,
        SurfaceFormat::Rgba8Unorm,
    ];
    assert_eq!(choose_surface_format(&formats), Some(2));
    assert_eq!(choose_surface_format(&[SurfaceFormat::Rgba8Unorm]), Some(0));
}

#[test]
fn first_format_that_is_not_srgb_is_next() {
    let formats = [
        SurfaceFormat::Rgba8UnormSrgb,
        SurfaceFormat::Other { srgb: true },
        SurfaceFormat::Other { srgb: false },
        SurfaceFormat::Other { srgb: false },
    ];
    assert_eq!(choose_surface_format(&formats), Some(2));
}

#[test]
fn first_format_is_the_last_resort() {
    let formats = [SurfaceFormat::Bgra8UnormSrgb, SurfaceFormat::Rgba8UnormSrgb];
    assert_eq!(choose_surface_format(&formats), Some(0));
}

#[test]
fn srgb_formats() {
    assert!(SurfaceFormat::Rgba8UnormSrgb.is_srgb());
    assert!(SurfaceFormat::Bgra8UnormSrgb.is_srgb());
    assert!(!SurfaceFormat::Rgba8Unorm.is_srgb());
    assert!(!SurfaceFormat::Bgra8Unorm.is_srgb());
    assert!(SurfaceFormat::Other { srgb: true }.is_srgb());
    assert!(SurfaceFormat::Rgba8Unorm.is_preferred());
    assert!(!SurfaceFormat::Rgba8UnormSrgb.is_preferred());
    assert!(!SurfaceFormat::Other { srgb: false }.is_preferred());
}

#[test]
fn surface_is_configured_for_blitting() {
    let chosen = surface_configuration(
        PhysicalSize { width: 640, height: 480 },
        &[SurfaceFormat::Rgba8UnormSrgb, SurfaceFormat::Rgba8Unorm],
    );
    assert_eq!(
        chosen,
        Ok(SurfaceConfiguration {
            width: 640,
            height: 480,
            format: SurfaceFormat::Rgba8Unorm,
            usage: SurfaceUsage::RenderAttachment,
            present_mode: PresentMode::AutoVsync,
        })
    );
}

#[test]
fn surface_without_formats_cannot_be_configured() {
    assert_eq!(choose_surface_format(&[]), None);
    assert_eq!(
        surface_configuration(PhysicalSize { width: 640, height: 480 }, &[]),
        Err(BackendError::NoSurfaceFormat)
    );
    assert_eq!(BackendError::NoSurfaceFormat.message(), "The surface offers no pixel format");
}

#[test]
fn new_backend_is_suspended() {
    let backend = WgpuBackend::new();
    assert_eq!(backend, WgpuBackend::new_suspended());
    assert_eq!(backend, WgpuBackend::default());
    assert!(!backend.device());
    assert!(!backend.queue());
    assert!(!backend.has_graphics_api());
    assert_eq!(backend.surface_config, None);
    assert_eq!(backend.target_texture, None);
}

#[test]
fn window_handle_makes_the_backend_active() {
    let mut backend = active();
    assert!(backend.device());
    assert!(backend.queue());
    assert!(backend.has_graphics_api());
    assert_eq!(backend.surface_config, Some(config(640, 480)));
    assert_eq!(backend.target_texture, Some(PhysicalSize { width: 640, height: 480 }));
    assert_eq!(backend.blitter, Some(SurfaceFormat::Bgra8Unorm));
    assert_eq!(backend.render_scene(&Scene::new(), 640, 480), Ok(()));
}

#[test]
fn suspended_backend_renders_nothing() {
    let mut backend = WgpuBackend::new();
    assert_eq!(
        backend.render_scene(&Scene::new(), 640, 480),
        Err(BackendError::DeviceNotInitialized)
    );
    assert_eq!(backend, WgpuBackend::new());
}

#[test]
fn first_missing_resource_is_reported() {
    let mut backend = active();
    backend.blitter = None;
    assert_eq!(backend.render_scene(&Scene::new(), 1, 1), Err(BackendError::BlitterNotInitialized));
    backend.target_texture = None;
    assert_eq!(
        backend.render_scene(&Scene::new(), 1, 1),
        Err(BackendError::TargetTextureNotInitialized)
    );
    backend.target_view = false;
    assert_eq!(
        backend.render_scene(&Scene::new(), 1, 1),
        Err(BackendError::TargetViewNotInitialized)
    );
    backend.surface = false;
    assert_eq!(backend.render_scene(&Scene::new(), 1, 1), Err(BackendError::SurfaceNotInitialized));
    backend.vello_renderer = false;
    assert_eq!(
        backend.render_scene(&Scene::new(), 1, 1),
        Err(BackendError::RendererNotInitialized)
    );
    backend.queue = false;
    assert_eq!(backend.render_scene(&Scene::new(), 1, 1), Err(BackendError::QueueNotInitialized));
    backend.device = false;
    assert_eq!(backend.render_scene(&Scene::new(), 1, 1), Err(BackendError::DeviceNotInitialized));
}

#[test]
fn resize_while_suspended_is_passed_over() {
    let mut backend = WgpuBackend::new();
    assert_eq!(backend.resize(800, 600), Ok(()));
    assert_eq!(backend, WgpuBackend::new());
}

#[test]
fn resize_makes_new_targets() {
    let mut backend = active();
    assert_eq!(backend.resize(800, 600), Ok(()));
    assert_eq!(backend.surface_config, Some(config(800, 600)));
    assert_eq!(backend.target_texture, Some(PhysicalSize { width: 800, height: 600 }));
    assert_eq!(backend.blitter, Some(SurfaceFormat::Bgra8Unorm));
    assert_eq!(backend.render_scene(&Scene::new(), 800, 600), Ok(()));
}

#[test]
fn resize_without_device_or_surface_fails() {
    let mut no_device = active();
    no_device.device = false;
    assert_eq!(no_device.resize(800, 600), Err(BackendError::DeviceNotInitialized));
    // the new size was noted before the device was missed
    assert_eq!(no_device.surface_config, Some(config(800, 600)));
    assert_eq!(no_device.target_texture, Some(PhysicalSize { width: 640, height: 480 }));
    let mut no_surface = active();
    no_surface.surface = false;
    assert_eq!(no_surface.resize(800, 600), Err(BackendError::SurfaceNotInitialized));
}

#[test]
fn cleared_backend_is_suspended_again() {
    let mut backend = active();
    backend.clear_graphics_context();
    assert_eq!(backend, WgpuBackend::new());
    assert_eq!(backend.resize(800, 600), Ok(()));
    assert_eq!(backend.render_scene(&Scene::new(), 1, 1), Err(BackendError::DeviceNotInitialized));
}

#[test]
fn textures_are_not_read_back() {
    assert_eq!(active().read_wgpu_26_texture(GpuTexture { id: 3 }), None);
    assert_eq!(WgpuBackend::new().read_wgpu_26_texture(GpuTexture { id: 3 }), None);
}

#[test]
fn texture_is_copied_only_at_the_size_of_the_target() {
    let backend = active();
    assert_eq!(backend.render_wgpu_texture_to_target(PhysicalSize { width: 640, height: 480 }), Ok(()));
    assert_eq!(
        backend.render_wgpu_texture_to_target(PhysicalSize { width: 640, height: 481 }),
        Err(BackendError::ScalingNotImplemented)
    );
    assert_eq!(
        WgpuBackend::new().render_wgpu_texture_to_target(PhysicalSize { width: 640, height: 480 }),
        Err(BackendError::DeviceNotInitialized)
    );
    let mut no_queue = active();
    no_queue.queue = false;
    assert_eq!(
        no_queue.render_wgpu_texture_to_target(PhysicalSize { width: 640, height: 480 }),
        Err(BackendError::QueueNotInitialized)
    );
    let mut no_target = active();
    no_target.target_texture = None;
    assert_eq!(
        no_target.render_wgpu_texture_to_target(PhysicalSize { width: 640, height: 480 }),
        Err(BackendError::TargetTextureNotInitialized)
    );
}

fn frame(r: &mut VelloRenderer<WgpuBackend>) -> Result<(), PlatformError> {
    assert!(matches!(r.render(), FrameAction::ResolveWindow));
    let info = WindowInfo {
        size: PhysicalSize { width: 640, height: 480 },
        scale_factor: Fixed::from_int(1),
        background: None,
        has_contents: true,
    };
    let items = match r.proceed(FrameEvent::Window(Some(info))) {
        FrameAction::DrawItems { renderer, .. } => renderer,
        _ => panic!("the walk of the items expected"),
    };
    match r.proceed(FrameEvent::ItemsDrawn { renderer: items, result: Ok(()) }) {
        FrameAction::Finished(result) => result,
        _ => panic!("the end of the frame expected"),
    }
}

#[test]
fn renderer_presents_once_its_backend_has_a_window() {
    let mut r = VelloRenderer::new(WgpuBackend::new());
    assert_eq!(frame(&mut r), Err(PlatformError::Backend(BackendError::DeviceNotInitialized)));
    r.set_window_handle(config(640, 480));
    assert_eq!(*r.graphics_backend(), active());
    assert_eq!(frame(&mut r), Ok(()));
    // suspended again: resizing is passed over, rendering fails until the window is back
    r.clear_graphics_context();
    assert_eq!(*r.graphics_backend(), WgpuBackend::new());
    assert_eq!(r.resize(PhysicalSize { width: 800, height: 600 }), Ok(()));
    assert_eq!(frame(&mut r), Err(PlatformError::Backend(BackendError::DeviceNotInitialized)));
    r.set_window_handle(config(800, 600));
    assert_eq!(frame(&mut r), Ok(()));
}
