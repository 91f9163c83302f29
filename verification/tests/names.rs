use spectralfilm::model::color_filters::{dichroic_brand, generic_filter, stored_in_percent, DichroicBrand, GenericFilter};
use spectralfilm::model::diffusion::{diffusion_family, DiffusionFamily, DIFFUSION_FILTER_FAMILIES};
use spectralfilm::model::illuminants::{has_blackbody_prefix, named_illuminant, IlluminantKind};
use spectralfilm::utils::autoexposure::{metering_method, MeteringMethod};
use spectralfilm::utils::conversions::{parse_rgb_color_space, RgbColorSpace};
use spectralfilm::utils::spectral_upsampling::{upsampling_space, UpsamplingSpace};

#[test]
fn color_space_names_and_aliases() {
    assert_eq!(parse_rgb_color_space("sRGB"), Some(RgbColorSpace::Srgb));
    assert_eq!(parse_rgb_color_space("s-r g_b"), Some(RgbColorSpace::Srgb));
    assert_eq!(parse_rgb_color_space("ProPhoto RGB"), Some(RgbColorSpace::ProPhotoRgb));
    assert_eq!(parse_rgb_color_space("prophoto-rgb"), Some(RgbColorSpace::ProPhotoRgb));
    assert_eq!(parse_rgb_color_space("ROMM"), Some(RgbColorSpace::ProPhotoRgb));
    assert_eq!(parse_rgb_color_space("ITU-R BT.2020"), Some(RgbColorSpace::Rec2020));
    assert_eq!(parse_rgb_color_space("Rec. 2100"), Some(RgbColorSpace::Rec2020));
    assert_eq!(parse_rgb_color_space("Display P3"), Some(RgbColorSpace::DisplayP3));
    assert_eq!(parse_rgb_color_space("DCI-P3-D65"), Some(RgbColorSpace::DisplayP3));
    assert_eq!(parse_rgb_color_space("ACES2065-1"), Some(RgbColorSpace::Aces2065_1));
    assert_eq!(parse_rgb_color_space("ACES AP0"), Some(RgbColorSpace::Aces2065_1));
    assert_eq!(parse_rgb_color_space("Adobe RGB (1998)"), None);
    assert_eq!(parse_rgb_color_space(""), None);
    assert_eq!(parse_rgb_color_space("sRGB\u{e9}"), Some(RgbColorSpace::Srgb));
    assert_eq!(parse_rgb_color_space("\u{212a}aces"), Some(RgbColorSpace::Aces2065_1));
}

#[test]
fn normalised_names_parse_alike() {
    for name in ["ProPhoto RGB", "ITU-R BT.2020", "Display P3", "ACES2065-1", "Adobe RGB"] {
        let key: String = name.chars().filter(|c| c.is_ascii_alphanumeric()).map(|c| c.to_ascii_lowercase()).collect();
        assert_eq!(parse_rgb_color_space(&key), parse_rgb_color_space(name));
    }
}

#[test]
fn diffusion_family_names() {
    assert_eq!(diffusion_family("glimmerglass"), DiffusionFamily::Glimmerglass);
    assert_eq!(diffusion_family("black_pro_mist"), DiffusionFamily::BlackProMist);
    assert_eq!(diffusion_family("pro_mist"), DiffusionFamily::ProMist);
    assert_eq!(diffusion_family("cinebloom"), DiffusionFamily::Cinebloom);
    assert_eq!(diffusion_family("white_pro_mist"), DiffusionFamily::ProMist);
    assert_eq!(diffusion_family("hollywood_black"), DiffusionFamily::Cinebloom);
    assert_eq!(diffusion_family("tiffen_soft_fx"), DiffusionFamily::Glimmerglass);
    assert_eq!(diffusion_family("Glimmerglass"), DiffusionFamily::BlackProMist);
    assert_eq!(diffusion_family(""), DiffusionFamily::BlackProMist);
    assert_eq!(DIFFUSION_FILTER_FAMILIES.len(), 4);
    let expected = [
        DiffusionFamily::Glimmerglass,
        DiffusionFamily::BlackProMist,
        DiffusionFamily::ProMist,
        DiffusionFamily::Cinebloom,
    ];
    for (name, family) in DIFFUSION_FILTER_FAMILIES.iter().zip(expected) {
        assert_eq!(diffusion_family(name), family);
    }
}

#[test]
fn filter_catalogue() {
    assert_eq!(dichroic_brand("thorlabs"), Some(DichroicBrand::Thorlabs));
    assert_eq!(dichroic_brand("edmund_optics"), Some(DichroicBrand::EdmundOptics));
    assert_eq!(dichroic_brand("durst_digital_light"), Some(DichroicBrand::DurstDigitalLight));
    assert_eq!(dichroic_brand("custom"), Some(DichroicBrand::Custom));
    assert_eq!(dichroic_brand("kodak"), None);
    assert_eq!(generic_filter("KG3", "schott", "heat_absorbing"), Some(GenericFilter::SchottKg3));
    assert_eq!(generic_filter("KG1", "schott", "heat_absorbing"), Some(GenericFilter::SchottKg1));
    assert_eq!(generic_filter("KG5", "schott", "heat_absorbing"), Some(GenericFilter::SchottKg5));
    assert_eq!(
        generic_filter("canon_24_f28_is", "canon", "lens_transmission"),
        Some(GenericFilter::Canon24F28Is)
    );
    assert_eq!(generic_filter("KG3", "schott", "lens_transmission"), None);
    assert_eq!(generic_filter("KG2", "schott", "heat_absorbing"), None);
    assert_eq!(generic_filter("canon_24_f28_is", "schott", "lens_transmission"), None);
    assert!(stored_in_percent(GenericFilter::Canon24F28Is));
    assert!(!stored_in_percent(GenericFilter::SchottKg1));
}

#[test]
fn illuminant_labels() {
    assert_eq!(named_illuminant("D65"), Some(IlluminantKind::D65));
    assert_eq!(named_illuminant("D50"), Some(IlluminantKind::D50));
    assert_eq!(named_illuminant("TH-KG3-L"), Some(IlluminantKind::ThKg3L));
    assert_eq!(named_illuminant("T"), Some(IlluminantKind::Incandescent));
    assert_eq!(named_illuminant("Incandescent"), Some(IlluminantKind::Incandescent));
    assert_eq!(named_illuminant("K75P"), Some(IlluminantKind::K75P));
    assert_eq!(named_illuminant("d65"), None);
    assert_eq!(named_illuminant("BB3200"), None);
    assert!(has_blackbody_prefix("BB3200"));
    assert!(has_blackbody_prefix("BB"));
    assert!(!has_blackbody_prefix("B"));
    assert!(!has_blackbody_prefix("bb3200"));
    assert!(!has_blackbody_prefix("D65"));
    assert!(!has_blackbody_prefix("\u{1d401}B"));
}

#[test]
fn metering_methods() {
    assert_eq!(metering_method("median"), MeteringMethod::Median);
    assert_eq!(metering_method("center_weighted"), MeteringMethod::CenterWeighted);
    assert_eq!(metering_method("Median"), MeteringMethod::CenterWeighted);
    assert_eq!(metering_method(""), MeteringMethod::CenterWeighted);
}

#[test]
fn upsampling_spaces() {
    for name in ["ITU-R BT.2020", "Rec2020", "BT.2020", "rec2020", "bt2020"] {
        assert_eq!(upsampling_space(name), UpsamplingSpace::Rec2020);
    }
    for name in ["ProPhoto RGB", "prophoto-rgb", "ProPhoto", "ROMM RGB"] {
        assert_eq!(upsampling_space(name), UpsamplingSpace::ProPhoto);
    }
    assert_eq!(upsampling_space("sRGB"), UpsamplingSpace::Srgb);
    assert_eq!(upsampling_space("Display P3"), UpsamplingSpace::Srgb);
    assert_eq!(upsampling_space("rec 2020"), UpsamplingSpace::Srgb);
}
