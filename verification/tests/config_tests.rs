use canvas::config::{choose_format_index, initial_config, SurfaceCaps};

#[test]
fn first_srgb_format_is_chosen() {
    assert_eq!(choose_format_index(&vec![false, false, true, true]), 2);
    assert_eq!(choose_format_index(&vec![true, false]), 0);
}

#[test]
fn first_format_is_the_fallback_without_srgb() {
    assert_eq!(choose_format_index(&vec![false, false, false]), 0);
    assert_eq!(choose_format_index(&vec![false]), 0);
}

#[test]
fn initial_config_takes_size_and_preferred_modes() {
    let caps = SurfaceCaps {
        format_is_srgb: vec![false, true, false],
        present_mode_count: 4,
        alpha_mode_count: 2,
    };
    let config = initial_config(&caps, 800, 600);
    assert_eq!(config.format_index, 1);
    assert_eq!(config.width, 800);
    assert_eq!(config.height, 600);
    assert_eq!(config.present_mode_index, 0);
    assert_eq!(config.alpha_mode_index, 0);
}
