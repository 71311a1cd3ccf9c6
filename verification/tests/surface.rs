use frame_host::surface::{
    preferred_format, AcquireFailure, ConfigureError, Extent, SurfaceConfig, SurfaceUsage,
    FRAME_LATENCY,
};
use wgpu::{CompositeAlphaMode, PresentMode, TextureFormat};

fn sample_config() -> SurfaceConfig {
    SurfaceConfig::configure(
        800,
        600,
        &vec![TextureFormat::Bgra8Unorm, TextureFormat::Bgra8UnormSrgb],
        &vec![PresentMode::Fifo, PresentMode::Mailbox],
        &vec![CompositeAlphaMode::Opaque, CompositeAlphaMode::PreMultiplied],
    )
    .unwrap()
}

#[test]
fn extent_keeps_its_dimensions() {
    let e = Extent::new(800, 600);
    assert_eq!(e.width, 800);
    assert_eq!(e.height, 600);
    assert_eq!(e, Extent { width: 800, height: 600 });
}

#[test]
fn no_format_offered_gives_no_preference() {
    assert_eq!(preferred_format(&vec![]), None);
}

#[test]
fn srgb_format_is_preferred_over_an_earlier_linear_one() {
    let formats = vec![
        TextureFormat::Bgra8Unorm,
        TextureFormat::Rgba8Unorm,
        TextureFormat::Bgra8UnormSrgb,
        TextureFormat::Rgba16Float,
    ];
    assert_eq!(preferred_format(&formats), Some(2));
}

#[test]
fn first_of_several_srgb_formats_is_preferred() {
    let formats = vec![
        TextureFormat::Rgba8Unorm,
        TextureFormat::Rgba8UnormSrgb,
        TextureFormat::Bgra8UnormSrgb,
    ];
    assert_eq!(preferred_format(&formats), Some(1));
}

#[test]
fn first_format_is_taken_where_none_is_srgb() {
    let formats = vec![TextureFormat::Rgba16Float, TextureFormat::Bgra8Unorm];
    assert_eq!(preferred_format(&formats), Some(0));
}

#[test]
fn single_srgb_format_is_preferred() {
    assert_eq!(preferred_format(&vec![TextureFormat::Bgra8UnormSrgb]), Some(0));
}

#[test]
fn configure_takes_preferred_format_and_first_modes() {
    let config = sample_config();
    assert_eq!(config.format, TextureFormat::Bgra8UnormSrgb);
    assert_eq!(config.width, 800);
    assert_eq!(config.height, 600);
    assert_eq!(config.present_mode, PresentMode::Fifo);
    assert_eq!(config.alpha_mode, CompositeAlphaMode::Opaque);
    assert_eq!(config.frame_latency, 2);
    assert_eq!(FRAME_LATENCY, 2);
    assert_eq!(
        config.usage,
        SurfaceUsage {
            copy_source: false,
            copy_destination: false,
            texture_binding: false,
            storage_binding: false,
            render_attachment: true,
        }
    );
}

#[test]
fn configure_falls_back_to_first_format() {
    let config = SurfaceConfig::configure(
        1,
        2,
        &vec![TextureFormat::Rgba8Unorm, TextureFormat::Bgra8Unorm],
        &vec![PresentMode::Immediate],
        &vec![CompositeAlphaMode::Inherit],
    )
    .unwrap();
    assert_eq!(config.format, TextureFormat::Rgba8Unorm);
    assert_eq!(config.present_mode, PresentMode::Immediate);
    assert_eq!(config.alpha_mode, CompositeAlphaMode::Inherit);
    assert_eq!(config.size(), Extent::new(1, 2));
}

#[test]
fn configure_fails_without_a_format() {
    let r = SurfaceConfig::configure(
        800,
        600,
        &vec![],
        &vec![PresentMode::Fifo],
        &vec![CompositeAlphaMode::Opaque],
    );
    assert_eq!(r, Err(ConfigureError::NoFormat));
}

#[test]
fn configure_fails_without_a_format_before_anything_else() {
    let r = SurfaceConfig::configure(800, 600, &vec![], &vec![], &vec![]);
    assert_eq!(r, Err(ConfigureError::NoFormat));
}

#[test]
fn configure_fails_without_a_present_mode() {
    let r = SurfaceConfig::configure(
        800,
        600,
        &vec![TextureFormat::Bgra8Unorm],
        &vec![],
        &vec![],
    );
    assert_eq!(r, Err(ConfigureError::NoPresentMode));
}

#[test]
fn configure_fails_without_an_alpha_mode() {
    let r = SurfaceConfig::configure(
        800,
        600,
        &vec![TextureFormat::Bgra8Unorm],
        &vec![PresentMode::Fifo],
        &vec![],
    );
    assert_eq!(r, Err(ConfigureError::NoAlphaMode));
}

#[test]
fn resize_changes_the_dimensions_only() {
    let before = sample_config();
    let mut config = before;
    config.resize(1024, 768);
    assert_eq!(config.width, 1024);
    assert_eq!(config.height, 768);
    assert_eq!(config.size(), Extent::new(1024, 768));
    assert_eq!(config.format, before.format);
    assert_eq!(config.present_mode, before.present_mode);
    assert_eq!(config.alpha_mode, before.alpha_mode);
    assert_eq!(config.usage, before.usage);
    assert_eq!(config.frame_latency, before.frame_latency);
}

#[test]
fn resize_to_the_same_dimensions_changes_nothing() {
    let before = sample_config();
    let mut config = before;
    config.resize(800, 600);
    assert_eq!(config, before);
}

#[test]
fn last_of_several_resizes_stays() {
    let mut config = sample_config();
    config.resize(1, 1);
    config.resize(4000, 3000);
    config.resize(640, 480);
    let mut direct = sample_config();
    direct.resize(640, 480);
    assert_eq!(config, direct);
}

#[test]
fn resize_accepts_the_largest_dimensions() {
    let mut config = sample_config();
    config.resize(u32::MAX, u32::MAX);
    assert_eq!(config.size(), Extent::new(u32::MAX, u32::MAX));
}

#[test]
fn outdated_and_lost_surfaces_are_recoverable() {
    assert!(AcquireFailure::Outdated.is_recoverable());
    assert!(AcquireFailure::Lost.is_recoverable());
}

#[test]
fn other_acquire_failures_are_not_recoverable() {
    assert!(!AcquireFailure::Timeout.is_recoverable());
    assert!(!AcquireFailure::OutOfMemory.is_recoverable());
    assert!(!AcquireFailure::DeviceLost.is_recoverable());
}
