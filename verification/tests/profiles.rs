use spectralfilm::profiles::schema::{ProfileLabels, ProfileShape};
use spectralfilm::profiles::validation::{validate_profile, ProfileError};
use spectralfilm::runtime::presets::{
    coupler_preset, halation_preset, CouplerPreset, HalationSpread, HalationStrength,
};

fn labels(stock: &str, t: &str, support: &str, stage: &str, usage: &str, ah: &str, cm: &str) -> ProfileLabels {
    ProfileLabels {
        stock: stock.to_string(),
        profile_type: t.to_string(),
        support: support.to_string(),
        stage: stage.to_string(),
        usage: usage.to_string(),
        antihalation: ah.to_string(),
        channel_model: cm.to_string(),
    }
}

fn portra() -> ProfileLabels {
    labels("kodak_portra_400", "negative", "film", "filming", "still", "strong", "color")
}

fn shape(nwl: usize, nle: usize) -> ProfileShape {
    ProfileShape {
        n_wavelengths: nwl,
        n_log_exposure: nle,
        log_sensitivity_len: nwl * 3,
        channel_density_len: nwl * 3,
        base_density_len: nwl,
        midscale_neutral_density_len: nwl,
        density_curves_len: nle * 3,
    }
}

fn invalid_field(r: Result<(), ProfileError>) -> (String, &'static str, String) {
    match r {
        Err(ProfileError::InvalidField { stock, field, value }) => (stock, field, value),
        other => panic!("expected an invalid field, got {:?}", other),
    }
}

#[test]
fn consistent_profile_is_valid() {
    assert!(validate_profile(&shape(81, 256), &portra()).is_ok());
    let paper = labels("kodak_2383", "positive", "paper", "printing", "cine", "no", "bw");
    assert!(validate_profile(&shape(1, 1), &paper).is_ok());
}

#[test]
fn inconsistent_shapes_are_rejected() {
    let bad = [
        shape(0, 10),
        shape(10, 0),
        ProfileShape { log_sensitivity_len: 29, ..shape(10, 5) },
        ProfileShape { channel_density_len: 31, ..shape(10, 5) },
        ProfileShape { base_density_len: 9, ..shape(10, 5) },
        ProfileShape { midscale_neutral_density_len: 11, ..shape(10, 5) },
        ProfileShape { density_curves_len: 16, ..shape(10, 5) },
    ];
    for s in bad {
        match validate_profile(&s, &portra()) {
            Err(ProfileError::InvalidShape(stock)) => assert_eq!(stock, "kodak_portra_400"),
            other => panic!("expected a shape error, got {:?}", other),
        }
    }
}

#[test]
fn shape_is_checked_before_labels() {
    let l = labels("x", "slide", "glass", "?", "?", "?", "?");
    assert!(matches!(validate_profile(&shape(0, 1), &l), Err(ProfileError::InvalidShape(_))));
}

#[test]
fn each_label_is_checked_in_order() {
    let s = shape(3, 4);
    let l = labels("s", "slide", "glass", "scanning", "tv", "maybe", "rgb");
    assert_eq!(invalid_field(validate_profile(&s, &l)), ("s".to_string(), "type", "slide".to_string()));
    let l = labels("s", "negative", "glass", "scanning", "tv", "maybe", "rgb");
    assert_eq!(invalid_field(validate_profile(&s, &l)), ("s".to_string(), "support", "glass".to_string()));
    let l = labels("s", "negative", "film", "scanning", "tv", "maybe", "rgb");
    assert_eq!(invalid_field(validate_profile(&s, &l)), ("s".to_string(), "stage", "scanning".to_string()));
    let l = labels("s", "negative", "film", "filming", "tv", "maybe", "rgb");
    assert_eq!(invalid_field(validate_profile(&s, &l)), ("s".to_string(), "use", "tv".to_string()));
    let l = labels("s", "negative", "film", "filming", "still", "maybe", "rgb");
    assert_eq!(invalid_field(validate_profile(&s, &l)), ("s".to_string(), "antihalation", "maybe".to_string()));
    let l = labels("s", "negative", "film", "filming", "still", "weak", "rgb");
    assert_eq!(invalid_field(validate_profile(&s, &l)), ("s".to_string(), "channel_model", "rgb".to_string()));
}

#[test]
fn label_predicates() {
    let p = portra();
    assert!(p.is_negative() && !p.is_positive());
    assert!(p.is_film() && !p.is_paper());
    assert!(p.is_filming() && !p.is_printing());
    assert!(p.is_still() && !p.is_cine());
    assert!(p.is_color());
    let q = labels("kodak_2383", "positive", "paper", "printing", "cine", "no", "bw");
    assert!(q.is_positive() && q.is_paper() && q.is_printing() && q.is_cine() && !q.is_color());
}

#[test]
fn coupler_presets() {
    assert_eq!(coupler_preset(&portra()), Some(CouplerPreset::Negative));
    let velvia = labels("fujifilm_velvia_100", "positive", "film", "filming", "still", "strong", "color");
    assert_eq!(coupler_preset(&velvia), Some(CouplerPreset::Velvia));
    let provia = labels("fujifilm_provia_100f", "positive", "film", "filming", "still", "strong", "color");
    assert_eq!(coupler_preset(&provia), Some(CouplerPreset::Provia));
    let ektachrome = labels("kodak_ektachrome_100", "positive", "film", "filming", "still", "strong", "color");
    assert_eq!(coupler_preset(&ektachrome), Some(CouplerPreset::Positive));
    let odd = labels("x", "other", "film", "filming", "still", "strong", "color");
    assert_eq!(coupler_preset(&odd), None);
}

#[test]
fn halation_presets() {
    assert_eq!(halation_preset(&portra()), Some((HalationSpread::Still, HalationStrength::Strong)));
    let vision = labels("kodak_vision3_500t", "negative", "film", "filming", "cine", "no", "color");
    assert_eq!(halation_preset(&vision), Some((HalationSpread::Cine, HalationStrength::NoLayer)));
    let weak = labels("x", "negative", "film", "filming", "still", "weak", "color");
    assert_eq!(halation_preset(&weak), Some((HalationSpread::Still, HalationStrength::Weak)));
    let paper = labels("kodak_2383", "positive", "paper", "printing", "cine", "no", "color");
    assert_eq!(halation_preset(&paper), None);
    let unknown = labels("x", "negative", "film", "filming", "still", "medium", "color");
    assert_eq!(halation_preset(&unknown), None);
}
