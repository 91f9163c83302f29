//! Consistency checks for loaded profiles and the errors that loading a
//! profile can end in.

use vstd::prelude::*;
use crate::model::stocks::{
    PROFILE_ANTIHALATION_NO, PROFILE_ANTIHALATION_STRONG, PROFILE_ANTIHALATION_WEAK, PROFILE_CHANNEL_MODEL_BW,
    PROFILE_CHANNEL_MODEL_COLOR, PROFILE_STAGE_FILMING, PROFILE_STAGE_PRINTING, PROFILE_SUPPORT_FILM,
    PROFILE_SUPPORT_PAPER, PROFILE_TYPE_NEGATIVE, PROFILE_TYPE_POSITIVE, PROFILE_USE_CINE, PROFILE_USE_STILL,
};
use crate::profiles::schema::{ProfileLabels, ProfileShape};
use crate::utils::text::str_eq;

verus! {

/// Declares `serde_json::Error`, the error of a failed JSON parse, as an
/// opaque type that a `ProfileError` can carry.
#[verifier::external_type_specification]
#[verifier::external_body]
pub struct ExJsonError(serde_json::Error);

/// Declares `std::io::Error`, the error of a failed read, as an opaque type
/// that a `ProfileError` can carry.
#[verifier::external_type_specification]
#[verifier::external_body]
pub struct ExIoError(std::io::Error);

/// Why a profile could not be loaded.
#[derive(Debug)]
pub enum ProfileError {
    Json(serde_json::Error),
    Io(std::io::Error),
    InvalidShape(String),
    InvalidField { stock: String, field: &'static str, value: String },
    NotFound(String),
}

pub const FIELD_TYPE: &'static str = "type";
pub const FIELD_SUPPORT: &'static str = "support";
pub const FIELD_STAGE: &'static str = "stage";
pub const FIELD_USE: &'static str = "use";
pub const FIELD_ANTIHALATION: &'static str = "antihalation";
pub const FIELD_CHANNEL_MODEL: &'static str = "channel_model";

/// The table lengths agree with the wavelength and log-exposure axes, and
/// neither axis is empty.
pub open spec fn shape_is_consistent(s: ProfileShape) -> bool {
    &&& s.n_wavelengths > 0
    &&& s.log_sensitivity_len == s.n_wavelengths * 3
    &&& s.channel_density_len == s.n_wavelengths * 3
    &&& s.base_density_len == s.n_wavelengths
    &&& s.midscale_neutral_density_len == s.n_wavelengths
    &&& s.density_curves_len == s.n_log_exposure * 3
    &&& s.n_log_exposure > 0
}

/// Each label holds one of its allowed values.
pub open spec fn type_ok(l: ProfileLabels) -> bool {
    l.profile_type@ == PROFILE_TYPE_NEGATIVE@ || l.profile_type@ == PROFILE_TYPE_POSITIVE@
}

pub open spec fn support_ok(l: ProfileLabels) -> bool {
    l.support@ == PROFILE_SUPPORT_FILM@ || l.support@ == PROFILE_SUPPORT_PAPER@
}

pub open spec fn stage_ok(l: ProfileLabels) -> bool {
    l.stage@ == PROFILE_STAGE_FILMING@ || l.stage@ == PROFILE_STAGE_PRINTING@
}

pub open spec fn use_ok(l: ProfileLabels) -> bool {
    l.usage@ == PROFILE_USE_STILL@ || l.usage@ == PROFILE_USE_CINE@
}

pub open spec fn antihalation_ok(l: ProfileLabels) -> bool {
    l.antihalation@ == PROFILE_ANTIHALATION_STRONG@ || l.antihalation@ == PROFILE_ANTIHALATION_WEAK@
        || l.antihalation@ == PROFILE_ANTIHALATION_NO@
}

pub open spec fn channel_model_ok(l: ProfileLabels) -> bool {
    l.channel_model@ == PROFILE_CHANNEL_MODEL_COLOR@ || l.channel_model@ == PROFILE_CHANNEL_MODEL_BW@
}

/// The outcome of checking a profile: the first problem found, checking the
/// shape first and then the labels in the order type, support, stage, use,
/// antihalation, channel model.
pub enum ProfileCheck {
    Valid,
    BadShape,
    BadField { name: Seq<char>, value: Seq<char> },
}

pub open spec fn profile_check(s: ProfileShape, l: ProfileLabels) -> ProfileCheck {
    if !shape_is_consistent(s) {
        ProfileCheck::BadShape
    } else if !type_ok(l) {
        ProfileCheck::BadField { name: FIELD_TYPE@, value: l.profile_type@ }
    } else if !support_ok(l) {
        ProfileCheck::BadField { name: FIELD_SUPPORT@, value: l.support@ }
    } else if !stage_ok(l) {
        ProfileCheck::BadField { name: FIELD_STAGE@, value: l.stage@ }
    } else if !use_ok(l) {
        ProfileCheck::BadField { name: FIELD_USE@, value: l.usage@ }
    } else if !antihalation_ok(l) {
        ProfileCheck::BadField { name: FIELD_ANTIHALATION@, value: l.antihalation@ }
    } else if !channel_model_ok(l) {
        ProfileCheck::BadField { name: FIELD_CHANNEL_MODEL@, value: l.channel_model@ }
    } else {
        ProfileCheck::Valid
    }
}

/// `r` reports the outcome `c` for a profile of stock `stock`.
pub open spec fn reports(r: Result<(), ProfileError>, c: ProfileCheck, stock: Seq<char>) -> bool {
    match c {
        ProfileCheck::Valid => r is Ok,
        ProfileCheck::BadShape => r matches Err(ProfileError::InvalidShape(s)) && s@ == stock,
        ProfileCheck::BadField { name, value } => r matches Err(ProfileError::InvalidField { stock: s, field, value: v })
            && s@ == stock && field@ == name && v@ == value,
    }
}

/// `len` holds exactly `n` rows of three values.
fn three_per_row(len: usize, n: usize) -> (r: bool)
    ensures
        r == (len == n * 3),
{
    len % 3 == 0 && len / 3 == n
}

fn one_of(v: &String, a: &'static str, b: &'static str) -> (r: bool)
    ensures
        r == (v@ == a@ || v@ == b@),
{
    str_eq(v.as_str(), a) || str_eq(v.as_str(), b)
}

fn invalid_field(l: &ProfileLabels, field: &'static str, value: &String) -> (r: Result<(), ProfileError>)
    ensures
        r matches Err(ProfileError::InvalidField { stock: s, field: f, value: v }) && s@ == l.stock@ && f@ == field@
            && v@ == value@,
{
    Err(ProfileError::InvalidField { stock: l.stock.clone(), field, value: value.clone() })
}

/// Check that a loaded profile's tables have consistent lengths and that its
/// labels hold allowed values.
pub fn validate_profile(shape: &ProfileShape, labels: &ProfileLabels) -> (r: Result<(), ProfileError>)
    ensures
        reports(r, profile_check(*shape, *labels), labels.stock@),
{
    let nwl = shape.n_wavelengths;
    let nle = shape.n_log_exposure;
    let ok = nwl > 0 && three_per_row(shape.log_sensitivity_len, nwl) && three_per_row(shape.channel_density_len, nwl)
        && shape.base_density_len == nwl && shape.midscale_neutral_density_len == nwl && three_per_row(
        shape.density_curves_len,
        nle,
    ) && nle > 0;
    if !ok {
        return Err(ProfileError::InvalidShape(labels.stock.clone()));
    }
    if !one_of(&labels.profile_type, PROFILE_TYPE_NEGATIVE, PROFILE_TYPE_POSITIVE) {
        return invalid_field(labels, FIELD_TYPE, &labels.profile_type);
    }
    if !one_of(&labels.support, PROFILE_SUPPORT_FILM, PROFILE_SUPPORT_PAPER) {
        return invalid_field(labels, FIELD_SUPPORT, &labels.support);
    }
    if !one_of(&labels.stage, PROFILE_STAGE_FILMING, PROFILE_STAGE_PRINTING) {
        return invalid_field(labels, FIELD_STAGE, &labels.stage);
    }
    if !one_of(&labels.usage, PROFILE_USE_STILL, PROFILE_USE_CINE) {
        return invalid_field(labels, FIELD_USE, &labels.usage);
    }
    if !(str_eq(labels.antihalation.as_str(), PROFILE_ANTIHALATION_STRONG) || one_of(
        &labels.antihalation,
        PROFILE_ANTIHALATION_WEAK,
        PROFILE_ANTIHALATION_NO,
    )) {
        return invalid_field(labels, FIELD_ANTIHALATION, &labels.antihalation);
    }
    if !one_of(&labels.channel_model, PROFILE_CHANNEL_MODEL_COLOR, PROFILE_CHANNEL_MODEL_BW) {
        return invalid_field(labels, FIELD_CHANNEL_MODEL, &labels.channel_model);
    }
    Ok(())
}

/// What validating a profile decides: the tables must be non-empty and hold
/// three values per wavelength (sensitivity, dye density) or one (base and
/// mid-scale density), and three per log-exposure step (density curves);
/// then the type must be `negative` or `positive`, the support `film` or
/// `paper`, the stage `filming` or `printing`, the use `still` or `cine`,
/// the anti-halation `strong`, `weak` or `no`, and the channel model `color`
/// or `bw`. The first label that breaks its rule is reported, with its field
/// name and value.
pub proof fn lemma_profile_check_rules(s: ProfileShape, l: ProfileLabels)
    ensures
        profile_check(s, l) is BadShape <==> !(s.n_wavelengths > 0 && s.n_log_exposure > 0 && s.log_sensitivity_len == 3 * s.n_wavelengths && s.channel_density_len == 3 * s.n_wavelengths && s.base_density_len == s.n_wavelengths && s.midscale_neutral_density_len == s.n_wavelengths && s.density_curves_len == 3 * s.n_log_exposure),
        profile_check(s, l) == (ProfileCheck::BadField { name: "type"@, value: l.profile_type@ }) <==> ((s.n_wavelengths > 0 && s.n_log_exposure > 0 && s.log_sensitivity_len == 3 * s.n_wavelengths && s.channel_density_len == 3 * s.n_wavelengths && s.base_density_len == s.n_wavelengths && s.midscale_neutral_density_len == s.n_wavelengths && s.density_curves_len == 3 * s.n_log_exposure) && !(l.profile_type@ == "negative"@ || l.profile_type@ == "positive"@)),
        profile_check(s, l) == (ProfileCheck::BadField { name: "support"@, value: l.support@ }) <==> ((s.n_wavelengths > 0 && s.n_log_exposure > 0 && s.log_sensitivity_len == 3 * s.n_wavelengths && s.channel_density_len == 3 * s.n_wavelengths && s.base_density_len == s.n_wavelengths && s.midscale_neutral_density_len == s.n_wavelengths && s.density_curves_len == 3 * s.n_log_exposure) && (l.profile_type@ == "negative"@ || l.profile_type@ == "positive"@) && !(l.support@ == "film"@ || l.support@ == "paper"@)),
        profile_check(s, l) == (ProfileCheck::BadField { name: "stage"@, value: l.stage@ }) <==> ((s.n_wavelengths > 0 && s.n_log_exposure > 0 && s.log_sensitivity_len == 3 * s.n_wavelengths && s.channel_density_len == 3 * s.n_wavelengths && s.base_density_len == s.n_wavelengths && s.midscale_neutral_density_len == s.n_wavelengths && s.density_curves_len == 3 * s.n_log_exposure) && (l.profile_type@ == "negative"@ || l.profile_type@ == "positive"@) && (l.support@ == "film"@ || l.support@ == "paper"@) && !(l.stage@ == "filming"@ || l.stage@ == "printing"@)),
        profile_check(s, l) == (ProfileCheck::BadField { name: "use"@, value: l.usage@ }) <==> ((s.n_wavelengths > 0 && s.n_log_exposure > 0 && s.log_sensitivity_len == 3 * s.n_wavelengths && s.channel_density_len == 3 * s.n_wavelengths && s.base_density_len == s.n_wavelengths && s.midscale_neutral_density_len == s.n_wavelengths && s.density_curves_len == 3 * s.n_log_exposure) && (l.profile_type@ == "negative"@ || l.profile_type@ == "positive"@) && (l.support@ == "film"@ || l.support@ == "paper"@) && (l.stage@ == "filming"@ || l.stage@ == "printing"@) && !(l.usage@ == "still"@ || l.usage@ == "cine"@)),
        profile_check(s, l) == (ProfileCheck::BadField { name: "antihalation"@, value: l.antihalation@ }) <==> ((s.n_wavelengths > 0 && s.n_log_exposure > 0 && s.log_sensitivity_len == 3 * s.n_wavelengths && s.channel_density_len == 3 * s.n_wavelengths && s.base_density_len == s.n_wavelengths && s.midscale_neutral_density_len == s.n_wavelengths && s.density_curves_len == 3 * s.n_log_exposure) && (l.profile_type@ == "negative"@ || l.profile_type@ == "positive"@) && (l.support@ == "film"@ || l.support@ == "paper"@) && (l.stage@ == "filming"@ || l.stage@ == "printing"@) && (l.usage@ == "still"@ || l.usage@ == "cine"@) && !(l.antihalation@ == "strong"@ || l.antihalation@ == "weak"@ || l.antihalation@ == "no"@)),
        profile_check(s, l) == (ProfileCheck::BadField { name: "channel_model"@, value: l.channel_model@ }) <==> ((s.n_wavelengths > 0 && s.n_log_exposure > 0 && s.log_sensitivity_len == 3 * s.n_wavelengths && s.channel_density_len == 3 * s.n_wavelengths && s.base_density_len == s.n_wavelengths && s.midscale_neutral_density_len == s.n_wavelengths && s.density_curves_len == 3 * s.n_log_exposure) && (l.profile_type@ == "negative"@ || l.profile_type@ == "positive"@) && (l.support@ == "film"@ || l.support@ == "paper"@) && (l.stage@ == "filming"@ || l.stage@ == "printing"@) && (l.usage@ == "still"@ || l.usage@ == "cine"@) && (l.antihalation@ == "strong"@ || l.antihalation@ == "weak"@ || l.antihalation@ == "no"@) && !(l.channel_model@ == "color"@ || l.channel_model@ == "bw"@)),
        profile_check(s, l) is Valid <==> ((s.n_wavelengths > 0 && s.n_log_exposure > 0 && s.log_sensitivity_len == 3 * s.n_wavelengths && s.channel_density_len == 3 * s.n_wavelengths && s.base_density_len == s.n_wavelengths && s.midscale_neutral_density_len == s.n_wavelengths && s.density_curves_len == 3 * s.n_log_exposure) && (l.profile_type@ == "negative"@ || l.profile_type@ == "positive"@) && (l.support@ == "film"@ || l.support@ == "paper"@) && (l.stage@ == "filming"@ || l.stage@ == "printing"@) && (l.usage@ == "still"@ || l.usage@ == "cine"@) && (l.antihalation@ == "strong"@ || l.antihalation@ == "weak"@ || l.antihalation@ == "no"@) && (l.channel_model@ == "color"@ || l.channel_model@ == "bw"@)),
{
    reveal_strlit("antihalation");
    reveal_strlit("bw");
    reveal_strlit("channel_model");
    reveal_strlit("cine");
    reveal_strlit("color");
    reveal_strlit("film");
    reveal_strlit("filming");
    reveal_strlit("negative");
    reveal_strlit("no");
    reveal_strlit("paper");
    reveal_strlit("positive");
    reveal_strlit("printing");
    reveal_strlit("stage");
    reveal_strlit("still");
    reveal_strlit("strong");
    reveal_strlit("support");
    reveal_strlit("type");
    reveal_strlit("use");
    reveal_strlit("weak");
    assert("type"@.len() != "support"@.len() && "type"@.len() != "stage"@.len() && "type"@.len() != "use"@.len() && "type"@.len() != "antihalation"@.len() && "type"@.len() != "channel_model"@.len() && "support"@.len() != "stage"@.len() && "support"@.len() != "use"@.len() && "support"@.len() != "antihalation"@.len() && "support"@.len() != "channel_model"@.len() && "stage"@.len() != "use"@.len() && "stage"@.len() != "antihalation"@.len() && "stage"@.len() != "channel_model"@.len() && "use"@.len() != "antihalation"@.len() && "use"@.len() != "channel_model"@.len() && "antihalation"@.len() != "channel_model"@.len());
}

} // verus!
