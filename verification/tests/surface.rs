use voxel_shading::render_client::event::{InputEvent, LoopEvent, Platform};
use voxel_shading::render_client::surface_wrapper::{
    AcquireStep, Acquired, SurfaceConfig, SurfaceWrapper,
};
use wgpu::TextureFormat;

fn config(format: TextureFormat) -> SurfaceConfig {
    SurfaceConfig { width: 640, height: 480, format, view_formats: vec![] }
}

fn resumed(format: TextureFormat, srgb: bool) -> SurfaceWrapper {
    let mut wrapper = SurfaceWrapper::new();
    wrapper.resume(Platform::Desktop, config(format), srgb);
    wrapper
}

#[test]
fn new_wrapper_has_no_surface() {
    let wrapper = SurfaceWrapper::new();
    assert!(wrapper.get().is_none());
}

#[test]
fn pre_adapter_makes_the_surface_only_in_a_browser() {
    let mut wrapper = SurfaceWrapper::new();
    assert!(!wrapper.pre_adapter(Platform::Desktop));
    assert!(wrapper.get().is_none());
    assert!(!wrapper.pre_adapter(Platform::Android));
    assert!(wrapper.get().is_none());
    assert!(wrapper.pre_adapter(Platform::Web));
    assert!(wrapper.get().is_some());
}

#[test]
fn start_condition_depends_on_the_platform() {
    assert!(SurfaceWrapper::start_condition(&LoopEvent::Init, Platform::Desktop));
    assert!(SurfaceWrapper::start_condition(&LoopEvent::Init, Platform::Web));
    assert!(!SurfaceWrapper::start_condition(&LoopEvent::Init, Platform::Android));
    assert!(SurfaceWrapper::start_condition(&LoopEvent::Resumed, Platform::Android));
    assert!(!SurfaceWrapper::start_condition(&LoopEvent::Resumed, Platform::Desktop));
    assert!(!SurfaceWrapper::start_condition(&LoopEvent::Resumed, Platform::Web));
    for platform in [Platform::Desktop, Platform::Android, Platform::Web] {
        assert!(!SurfaceWrapper::start_condition(&LoopEvent::Suspended, platform));
        assert!(!SurfaceWrapper::start_condition(&LoopEvent::RedrawRequested, platform));
        assert!(!SurfaceWrapper::start_condition(&LoopEvent::CloseRequested, platform));
        assert!(!SurfaceWrapper::start_condition(
            &LoopEvent::Resized { width: 1, height: 1 },
            platform
        ));
        assert!(!SurfaceWrapper::start_condition(&LoopEvent::Window(InputEvent::Other), platform));
        assert!(!SurfaceWrapper::start_condition(&LoopEvent::Other, platform));
    }
}

#[test]
fn surface_size_is_never_zero() {
    assert_eq!(SurfaceWrapper::surface_size(0, 0), (1, 1));
    assert_eq!(SurfaceWrapper::surface_size(0, 7), (1, 7));
    assert_eq!(SurfaceWrapper::surface_size(9, 0), (9, 1));
    assert_eq!(SurfaceWrapper::surface_size(1, 1), (1, 1));
    assert_eq!(SurfaceWrapper::surface_size(800, 600), (800, 600));
    assert_eq!(SurfaceWrapper::surface_size(u32::MAX, u32::MAX), (u32::MAX, u32::MAX));
}

#[test]
fn with_view_format_for_srgb_keeps_the_format() {
    let resumed = SurfaceWrapper::with_view_format(
        config(TextureFormat::Rgba8Unorm),
        true,
        TextureFormat::Rgba8UnormSrgb,
    );
    assert_eq!(
        resumed,
        SurfaceConfig {
            width: 640,
            height: 480,
            format: TextureFormat::Rgba8Unorm,
            view_formats: vec![TextureFormat::Rgba8UnormSrgb],
        }
    );
}

#[test]
fn with_view_format_without_srgb_replaces_the_format() {
    let mut start = config(TextureFormat::Rgba8UnormSrgb);
    start.view_formats.push(TextureFormat::Rgba16Float);
    let resumed = SurfaceWrapper::with_view_format(start, false, TextureFormat::Rgba8Unorm);
    assert_eq!(
        resumed,
        SurfaceConfig {
            width: 640,
            height: 480,
            format: TextureFormat::Rgba8Unorm,
            view_formats: vec![TextureFormat::Rgba16Float, TextureFormat::Rgba8Unorm],
        }
    );
}

#[test]
fn resume_for_srgb_adds_the_srgb_view_format() {
    let wrapper = resumed(TextureFormat::Bgra8Unorm, true);
    assert!(wrapper.get().is_some());
    assert_eq!(
        *wrapper.config(),
        SurfaceConfig {
            width: 640,
            height: 480,
            format: TextureFormat::Bgra8Unorm,
            view_formats: vec![TextureFormat::Bgra8UnormSrgb],
        }
    );
}

#[test]
fn resume_without_srgb_strips_the_suffix() {
    let wrapper = resumed(TextureFormat::Bgra8UnormSrgb, false);
    assert_eq!(
        *wrapper.config(),
        SurfaceConfig {
            width: 640,
            height: 480,
            format: TextureFormat::Bgra8Unorm,
            view_formats: vec![TextureFormat::Bgra8Unorm],
        }
    );
}

#[test]
fn resume_with_a_format_that_has_no_srgb_variant() {
    let wrapper = resumed(TextureFormat::Rgba16Float, true);
    assert_eq!(wrapper.config().format, TextureFormat::Rgba16Float);
    assert_eq!(wrapper.config().view_formats, vec![TextureFormat::Rgba16Float]);
    let wrapper = resumed(TextureFormat::Rgba16Float, false);
    assert_eq!(wrapper.config().format, TextureFormat::Rgba16Float);
    assert_eq!(wrapper.config().view_formats, vec![TextureFormat::Rgba16Float]);
}

#[test]
fn resume_in_a_browser_keeps_the_surface_made_before() {
    let mut wrapper = SurfaceWrapper::new();
    assert!(wrapper.pre_adapter(Platform::Web));
    wrapper.resume(Platform::Web, config(TextureFormat::Bgra8Unorm), true);
    assert!(wrapper.get().is_some());
    assert_eq!(wrapper.config().view_formats, vec![TextureFormat::Bgra8UnormSrgb]);
}

#[test]
fn resize_keeps_formats_and_avoids_zero() {
    let mut wrapper = resumed(TextureFormat::Bgra8Unorm, true);
    wrapper.resize(1920, 1080);
    assert_eq!(
        *wrapper.config(),
        SurfaceConfig {
            width: 1920,
            height: 1080,
            format: TextureFormat::Bgra8Unorm,
            view_formats: vec![TextureFormat::Bgra8UnormSrgb],
        }
    );
    wrapper.resize(0, 0);
    assert_eq!((wrapper.config().width, wrapper.config().height), (1, 1));
    wrapper.resize(0, 33);
    assert_eq!((wrapper.config().width, wrapper.config().height), (1, 33));
    assert_eq!(wrapper.config().format, TextureFormat::Bgra8Unorm);
}

#[test]
fn first_lost_frame_is_retried_and_the_second_is_final() {
    let wrapper = resumed(TextureFormat::Bgra8Unorm, true);
    assert!(!SurfaceWrapper::gives_up(0, Acquired::Frame));
    assert_eq!(wrapper.acquire(0, Acquired::Frame), AcquireStep::Draw);
    assert!(!SurfaceWrapper::gives_up(0, Acquired::Lost));
    assert_eq!(wrapper.acquire(0, Acquired::Lost), AcquireStep::Reconfigure);
    assert!(!SurfaceWrapper::gives_up(1, Acquired::Frame));
    assert_eq!(wrapper.acquire(1, Acquired::Frame), AcquireStep::Draw);
    assert!(SurfaceWrapper::gives_up(1, Acquired::Lost));
    assert!(SurfaceWrapper::gives_up(2, Acquired::Lost));
    assert!(SurfaceWrapper::gives_up(u32::MAX, Acquired::Lost));
    assert!(!SurfaceWrapper::gives_up(u32::MAX, Acquired::Frame));
}

#[test]
fn suspend_drops_the_surface_only_on_android() {
    let mut wrapper = resumed(TextureFormat::Bgra8Unorm, true);
    wrapper.suspend(Platform::Desktop);
    assert!(wrapper.get().is_some());
    wrapper.suspend(Platform::Web);
    assert!(wrapper.get().is_some());
    wrapper.suspend(Platform::Android);
    assert!(wrapper.get().is_none());
    assert_eq!(wrapper.config().width, 640);
    wrapper.resume(Platform::Android, config(TextureFormat::Rgba8Unorm), true);
    assert!(wrapper.get().is_some());
    assert_eq!(wrapper.config().format, TextureFormat::Rgba8Unorm);
}
