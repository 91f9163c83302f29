use spectralfilm::runtime::params::{
    patch_value, DebugMode, DebugParams, DebugParamsPatch, SimulationSettings, SimulationSettingsPatch,
    DEFAULT_RGB_TO_RAW_METHOD,
};

#[test]
fn debug_defaults_are_all_off() {
    let d = DebugParams::default();
    assert_eq!(d.debug_mode, DebugMode::Off);
    assert_eq!(DebugMode::default(), DebugMode::Off);
    assert!(!d.deactivate_spatial_effects);
    assert!(!d.deactivate_stochastic_effects);
    assert!(!d.print_timings);
    assert!(!d.output_film_log_raw);
    assert!(!d.output_film_density_cmy);
    assert!(!d.output_print_density_cmy);
    assert!(!d.inject_film_density_cmy);
}

#[test]
fn settings_defaults() {
    let s = SimulationSettings::default();
    assert_eq!(s.rgb_to_raw_method, "hanatos2025");
    assert_eq!(s.rgb_to_raw_method, DEFAULT_RGB_TO_RAW_METHOD);
    assert!(s.bandpass_hanatos2025);
    assert!(!s.use_enlarger_lut);
    assert!(!s.use_scanner_lut);
    assert_eq!(s.lut_resolution, 17);
    assert!(!s.use_fast_stats);
    assert_eq!(s.preview_max_size, 640);
    assert!(!s.preview_mode);
    assert!(s.neutral_print_filters_from_database);
}

#[test]
fn patch_value_takes_the_patch_when_present() {
    assert_eq!(patch_value(3, Some(7)), 7);
    assert_eq!(patch_value(3, None), 3);
}

#[test]
fn debug_patch_overwrites_only_given_fields() {
    let mut d = DebugParams::default();
    let patch = DebugParamsPatch {
        debug_mode: Some(DebugMode::Output),
        output_film_density_cmy: Some(true),
        ..DebugParamsPatch::default()
    };
    patch.apply_to(&mut d);
    assert_eq!(d.debug_mode, DebugMode::Output);
    assert!(d.output_film_density_cmy);
    assert!(!d.output_film_log_raw);
    assert!(!d.print_timings);
}

#[test]
fn empty_debug_patch_changes_nothing() {
    let mut d = DebugParams {
        deactivate_spatial_effects: true,
        print_timings: true,
        debug_mode: DebugMode::Inject,
        inject_film_density_cmy: true,
        ..DebugParams::default()
    };
    let before = d;
    DebugParamsPatch::default().apply_to(&mut d);
    assert_eq!(d, before);
}

#[test]
fn debug_patch_applied_twice_equals_once() {
    let patch = DebugParamsPatch {
        print_timings: Some(true),
        debug_mode: Some(DebugMode::LutGeneration),
        deactivate_stochastic_effects: Some(false),
        ..DebugParamsPatch::default()
    };
    let mut once = DebugParams { deactivate_stochastic_effects: true, ..DebugParams::default() };
    patch.apply_to(&mut once);
    let mut twice = once;
    patch.apply_to(&mut twice);
    assert_eq!(once, twice);
    assert!(!once.deactivate_stochastic_effects);
}

#[test]
fn debug_patches_compose_with_later_values_winning() {
    let first = DebugParamsPatch {
        print_timings: Some(true),
        debug_mode: Some(DebugMode::Output),
        ..DebugParamsPatch::default()
    };
    let second = DebugParamsPatch {
        debug_mode: Some(DebugMode::Inject),
        inject_film_density_cmy: Some(true),
        ..DebugParamsPatch::default()
    };
    let mut d = DebugParams::default();
    first.apply_to(&mut d);
    second.apply_to(&mut d);
    let merged = DebugParamsPatch {
        print_timings: Some(true),
        debug_mode: Some(DebugMode::Inject),
        inject_film_density_cmy: Some(true),
        ..DebugParamsPatch::default()
    };
    let mut e = DebugParams::default();
    merged.apply_to(&mut e);
    assert_eq!(d, e);
}

#[test]
fn settings_patch_overwrites_only_given_fields() {
    let mut s = SimulationSettings::default();
    let patch = SimulationSettingsPatch {
        rgb_to_raw_method: Some("mallett2019".to_string()),
        lut_resolution: Some(33),
        preview_mode: Some(true),
        ..SimulationSettingsPatch::default()
    };
    patch.clone().apply_to(&mut s);
    assert_eq!(s.rgb_to_raw_method, "mallett2019");
    assert_eq!(s.lut_resolution, 33);
    assert!(s.preview_mode);
    assert!(s.bandpass_hanatos2025);
    assert_eq!(s.preview_max_size, 640);
    patch.apply_to(&mut s);
    assert_eq!(s.rgb_to_raw_method, "mallett2019");
    assert_eq!(s.lut_resolution, 33);
}

#[test]
fn empty_settings_patch_changes_nothing() {
    let mut s = SimulationSettings { use_scanner_lut: true, preview_max_size: 320, ..SimulationSettings::default() };
    SimulationSettingsPatch::default().apply_to(&mut s);
    assert!(s.use_scanner_lut);
    assert_eq!(s.preview_max_size, 320);
    assert_eq!(s.rgb_to_raw_method, "hanatos2025");
}
