use spectralfilm::model::stocks::{all_film_stock_names, all_known_stock_names, all_print_paper_names};
use spectralfilm::utils::text::bytes_eq_str;
use spectralfilm::model::illuminants::{has_blackbody_prefix, named_illuminant};
use spectralfilm::runtime::params::{SimulationSettings, SimulationSettingsPatch};
use spectralfilm::utils::conversions::{parse_rgb_color_space, RgbColorSpace};
use spectralfilm::utils::crop_resize::crop_copy;
use spectralfilm::utils::spectral_upsampling::{
    upsampling_space, UpsamplingSpace, UPSAMPLING_PROPHOTO_NAMES, UPSAMPLING_REC2020_NAMES,
};

#[test]
fn upsampler_spellings_parse_as_the_same_space() {
    for name in UPSAMPLING_REC2020_NAMES {
        assert_eq!(upsampling_space(name), UpsamplingSpace::Rec2020);
        assert_eq!(parse_rgb_color_space(name), Some(RgbColorSpace::Rec2020));
    }
    for name in UPSAMPLING_PROPHOTO_NAMES {
        assert_eq!(upsampling_space(name), UpsamplingSpace::ProPhoto);
        assert_eq!(parse_rgb_color_space(name), Some(RgbColorSpace::ProPhotoRgb));
    }
}

#[test]
fn fixed_illuminants_are_not_black_bodies() {
    for name in ["D50", "D55", "D65", "TH-KG1", "TH-KG3", "TH-KG3-L", "TH-KG5", "T", "Incandescent", "K75P"] {
        assert!(named_illuminant(name).is_some());
        assert!(!has_blackbody_prefix(name));
    }
}

#[test]
fn settings_patches_compose() {
    let first = SimulationSettingsPatch {
        rgb_to_raw_method: Some("mallett2019".to_string()),
        use_fast_stats: Some(true),
        ..SimulationSettingsPatch::default()
    };
    let second = SimulationSettingsPatch {
        rgb_to_raw_method: Some("hanatos2025".to_string()),
        preview_max_size: Some(1024),
        ..SimulationSettingsPatch::default()
    };
    let merged = SimulationSettingsPatch {
        rgb_to_raw_method: Some("hanatos2025".to_string()),
        use_fast_stats: Some(true),
        preview_max_size: Some(1024),
        ..SimulationSettingsPatch::default()
    };
    let mut a = SimulationSettings::default();
    first.apply_to(&mut a);
    second.apply_to(&mut a);
    let mut b = SimulationSettings::default();
    merged.apply_to(&mut b);
    assert_eq!(a.rgb_to_raw_method, b.rgb_to_raw_method);
    assert_eq!(a.use_fast_stats, b.use_fast_stats);
    assert_eq!(a.preview_max_size, b.preview_max_size);
    assert_eq!(a.lut_resolution, b.lut_resolution);
}

#[test]
fn cropping_everything_changes_nothing() {
    let image: Vec<u8> = (0..60).collect();
    assert_eq!(crop_copy(&image, 5, 4, 3, 0, 0, 5, 4), image);
    let longer: Vec<u8> = (0..70).collect();
    assert_eq!(crop_copy(&longer, 5, 4, 3, 0, 0, 5, 4), longer[..60].to_vec());
}

#[test]
fn color_spaces_parse_back_from_their_names() {
    for cs in [
        RgbColorSpace::Srgb,
        RgbColorSpace::ProPhotoRgb,
        RgbColorSpace::Rec2020,
        RgbColorSpace::DisplayP3,
        RgbColorSpace::Aces2065_1,
    ] {
        assert_eq!(parse_rgb_color_space(cs.name()), Some(cs));
    }
    assert_eq!(RgbColorSpace::Rec2020.name(), "ITU-R BT.2020");
    assert_eq!(RgbColorSpace::Aces2065_1.name(), "ACES2065-1");
}

#[test]
fn known_names_are_films_then_papers() {
    let mut expected = all_film_stock_names().to_vec();
    expected.extend_from_slice(all_print_paper_names());
    assert_eq!(all_known_stock_names(), expected);
}

#[test]
fn byte_comparison_of_arbitrary_bytes() {
    assert!(!bytes_eq_str(&[0xff], "a"));
    assert!(!bytes_eq_str(&[0xff, 0xfe], ""));
    assert!(bytes_eq_str(b"", ""));
}
