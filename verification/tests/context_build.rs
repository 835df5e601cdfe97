use game_eng::base::{
    clamp_dimension, find_compatible, initial_surface_config, AdapterInfo, Base, PresentMode,
    SurfaceConfig, Window,
};

#[test]
fn full_build_sequence_yields_the_derived_config() {
    let window = Window::new(640, 480);
    let formats: Vec<u32> = vec![7, 9, 11];
    let alpha_modes: Vec<u32> = vec![3, 4];
    let base = Base::init()
        .pass_window(window)
        .get_surface()
        .adapter_from_compatible_adapters()
        .get_device_and_queue()
        .configure_surface(&formats, &alpha_modes)
        .build();
    assert_eq!(
        base.config(),
        SurfaceConfig {
            width: 640,
            height: 480,
            format: 7,
            present_mode: PresentMode::Fifo,
            alpha_mode: 3,
        }
    );
}

#[test]
fn enumerated_adapter_policy_builds_too() {
    let window = Window::new(320, 200);
    let adapters = vec![
        AdapterInfo { surface_compatible: false, predicate_ok: true },
        AdapterInfo { surface_compatible: true, predicate_ok: true },
    ];
    let formats: Vec<u32> = vec![1];
    let alpha_modes: Vec<u32> = vec![2];
    let base = Base::init()
        .pass_window(window)
        .get_surface()
        .adapter_from_all_compatible_adapters(&adapters)
        .get_device_and_queue()
        .configure_surface(&formats, &alpha_modes)
        .build();
    assert_eq!(base.config().width, 320);
    assert_eq!(base.config().format, 1);
}

#[test]
fn resize_to_zero_is_clamped_to_one() {
    let window = Window::new(800, 600);
    let formats: Vec<u32> = vec![5];
    let alpha_modes: Vec<u32> = vec![6];
    let mut base = Base::init()
        .pass_window(window)
        .get_surface()
        .adapter_from_compatible_adapters()
        .get_device_and_queue()
        .configure_surface(&formats, &alpha_modes)
        .build();
    base.resize(0, 0);
    assert_eq!(base.config().width, 1);
    assert_eq!(base.config().height, 1);
    assert_eq!(base.config().format, 5);
    assert_eq!(base.config().present_mode, PresentMode::Fifo);
}

#[test]
fn resize_keeps_nonzero_dimensions() {
    let window = Window::new(800, 600);
    let formats: Vec<u32> = vec![5];
    let alpha_modes: Vec<u32> = vec![6];
    let mut base = Base::init()
        .pass_window(window)
        .get_surface()
        .adapter_from_compatible_adapters()
        .get_device_and_queue()
        .configure_surface(&formats, &alpha_modes)
        .build();
    base.resize(1024, 0);
    assert_eq!(base.config().width, 1024);
    assert_eq!(base.config().height, 1);
}

#[test]
fn clamp_dimension_floors_at_one() {
    assert_eq!(clamp_dimension(0), 1);
    assert_eq!(clamp_dimension(1), 1);
    assert_eq!(clamp_dimension(555), 555);
}

#[test]
fn first_compatible_adapter_is_chosen() {
    let adapters = vec![
        AdapterInfo { surface_compatible: true, predicate_ok: false },
        AdapterInfo { surface_compatible: false, predicate_ok: true },
        AdapterInfo { surface_compatible: true, predicate_ok: true },
        AdapterInfo { surface_compatible: true, predicate_ok: true },
    ];
    assert_eq!(find_compatible(&adapters), Some(2));
}

#[test]
fn no_compatible_adapter_is_reported() {
    let adapters = vec![
        AdapterInfo { surface_compatible: true, predicate_ok: false },
        AdapterInfo { surface_compatible: false, predicate_ok: true },
    ];
    assert_eq!(find_compatible(&adapters), None);
    assert_eq!(find_compatible(&Vec::new()), None);
}

#[test]
fn surface_config_takes_first_reported_format_and_alpha() {
    let formats: Vec<u32> = vec![42, 1, 2];
    let alpha_modes: Vec<u32> = vec![17, 3];
    let config = initial_surface_config(12, 34, &formats, &alpha_modes);
    assert_eq!(
        config,
        SurfaceConfig {
            width: 12,
            height: 34,
            format: 42,
            present_mode: PresentMode::Fifo,
            alpha_mode: 17,
        }
    );
}
