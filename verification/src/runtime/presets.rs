//! Which stock-specific presets a film profile selects when parameters are
//! digested.
//!
//! The preset values themselves are floating-point coefficients applied by
//! the rendering code; this module decides which preset applies.

use vstd::prelude::*;
use crate::model::stocks::{
    FUJIFILM_PROVIA_100F, FUJIFILM_VELVIA_100, PROFILE_ANTIHALATION_NO, PROFILE_ANTIHALATION_STRONG,
    PROFILE_ANTIHALATION_WEAK, PROFILE_SUPPORT_FILM, PROFILE_TYPE_NEGATIVE, PROFILE_TYPE_POSITIVE,
    PROFILE_USE_CINE,
};
use crate::profiles::schema::ProfileLabels;
use crate::utils::text::str_eq;

verus! {

/// Development-inhibitor coupler gains chosen for a film.
#[derive(Debug, Clone, Copy, PartialEq, Eq, Structural)]
pub enum CouplerPreset {
    /// Generic reversal film.
    Positive,
    /// Generic negative film.
    Negative,
    /// Fujifilm Velvia 100, which overrides the type-based gains.
    Velvia,
    /// Fujifilm Provia 100F, which overrides the type-based gains.
    Provia,
}

/// The coupler preset of a film: the stock-specific one for Velvia and
/// Provia, otherwise the one of its type; none for a type that is neither
/// negative nor positive.
pub open spec fn coupler_preset_spec(l: ProfileLabels) -> Option<CouplerPreset> {
    if l.stock@ == FUJIFILM_VELVIA_100@ {
        Some(CouplerPreset::Velvia)
    } else if l.stock@ == FUJIFILM_PROVIA_100F@ {
        Some(CouplerPreset::Provia)
    } else if l.profile_type@ == PROFILE_TYPE_POSITIVE@ {
        Some(CouplerPreset::Positive)
    } else if l.profile_type@ == PROFILE_TYPE_NEGATIVE@ {
        Some(CouplerPreset::Negative)
    } else {
        None
    }
}

/// Select the coupler preset that digesting the parameters applies to a film.
pub fn coupler_preset(labels: &ProfileLabels) -> (r: Option<CouplerPreset>)
    ensures
        r == coupler_preset_spec(*labels),
{
    if str_eq(labels.stock.as_str(), FUJIFILM_VELVIA_100) {
        Some(CouplerPreset::Velvia)
    } else if str_eq(labels.stock.as_str(), FUJIFILM_PROVIA_100F) {
        Some(CouplerPreset::Provia)
    } else if labels.is_positive() {
        Some(CouplerPreset::Positive)
    } else if labels.is_negative() {
        Some(CouplerPreset::Negative)
    } else {
        None
    }
}

/// Width of the halation scattering: motion-picture stocks scatter less.
#[derive(Debug, Clone, Copy, PartialEq, Eq, Structural)]
pub enum HalationSpread {
    Cine,
    Still,
}

/// Strength of the halation, by the film's anti-halation layer.
#[derive(Debug, Clone, Copy, PartialEq, Eq, Structural)]
pub enum HalationStrength {
    Strong,
    Weak,
    NoLayer,
}

/// The halation preset of a profile: only films get one, and only when their
/// anti-halation label is `strong`, `weak` or `no`.
pub open spec fn halation_preset_spec(l: ProfileLabels) -> Option<(HalationSpread, HalationStrength)> {
    let spread = if l.usage@ == PROFILE_USE_CINE@ {
        HalationSpread::Cine
    } else {
        HalationSpread::Still
    };
    if l.support@ != PROFILE_SUPPORT_FILM@ {
        None
    } else if l.antihalation@ == PROFILE_ANTIHALATION_STRONG@ {
        Some((spread, HalationStrength::Strong))
    } else if l.antihalation@ == PROFILE_ANTIHALATION_WEAK@ {
        Some((spread, HalationStrength::Weak))
    } else if l.antihalation@ == PROFILE_ANTIHALATION_NO@ {
        Some((spread, HalationStrength::NoLayer))
    } else {
        None
    }
}

/// Select the halation preset that digesting the parameters applies; `None`
/// leaves the halation parameters as they are.
pub fn halation_preset(labels: &ProfileLabels) -> (r: Option<(HalationSpread, HalationStrength)>)
    ensures
        r == halation_preset_spec(*labels),
{
    if !labels.is_film() {
        return None;
    }
    let spread = if labels.is_cine() {
        HalationSpread::Cine
    } else {
        HalationSpread::Still
    };
    let ah = labels.antihalation.as_str();
    if str_eq(ah, PROFILE_ANTIHALATION_STRONG) {
        Some((spread, HalationStrength::Strong))
    } else if str_eq(ah, PROFILE_ANTIHALATION_WEAK) {
        Some((spread, HalationStrength::Weak))
    } else if str_eq(ah, PROFILE_ANTIHALATION_NO) {
        Some((spread, HalationStrength::NoLayer))
    } else {
        None
    }
}

/// Halation presets: only film gets one, and only with an anti-halation
/// label of `strong`, `weak` or `no`; its spread is the motion-picture one
/// exactly when the usage label is `cine`, whatever the anti-halation label;
/// its strength follows the anti-halation label alone.
pub proof fn lemma_halation_preset_rules(l: ProfileLabels)
    ensures
        halation_preset_spec(l) is Some <==> (l.support@ == "film"@ && (l.antihalation@ == "strong"@
            || l.antihalation@ == "weak"@ || l.antihalation@ == "no"@)),
        halation_preset_spec(l) matches Some((spread, _)) ==> (spread == HalationSpread::Cine <==> l.usage@
            == "cine"@),
        halation_preset_spec(l) matches Some((_, strength)) ==> {
            &&& strength == HalationStrength::Strong <==> l.antihalation@ == "strong"@
            &&& strength == HalationStrength::Weak <==> l.antihalation@ == "weak"@
            &&& strength == HalationStrength::NoLayer <==> l.antihalation@ == "no"@
        },
{
    reveal_strlit("strong");
    reveal_strlit("weak");
    reveal_strlit("no");
    assert("strong"@.len() == 6 && "weak"@.len() == 4 && "no"@.len() == 2);
}

/// Coupler presets: the Velvia and Provia stocks get their own, whatever
/// their type label; any other stock gets the preset of its type, positive
/// or negative; a stock of any other type gets none.
pub proof fn lemma_coupler_preset_rules(l: ProfileLabels)
    ensures
        coupler_preset_spec(l) == Some(CouplerPreset::Velvia) <==> l.stock@ == "fujifilm_velvia_100"@,
        coupler_preset_spec(l) == Some(CouplerPreset::Provia) <==> l.stock@ == "fujifilm_provia_100f"@,
        coupler_preset_spec(l) == Some(CouplerPreset::Positive) <==> (l.profile_type@ == "positive"@
            && l.stock@ != "fujifilm_velvia_100"@ && l.stock@ != "fujifilm_provia_100f"@),
        coupler_preset_spec(l) == Some(CouplerPreset::Negative) <==> (l.profile_type@ == "negative"@
            && l.stock@ != "fujifilm_velvia_100"@ && l.stock@ != "fujifilm_provia_100f"@),
        coupler_preset_spec(l) is None <==> (l.profile_type@ != "positive"@ && l.profile_type@ != "negative"@
            && l.stock@ != "fujifilm_velvia_100"@ && l.stock@ != "fujifilm_provia_100f"@),
{
    reveal_strlit("fujifilm_velvia_100");
    reveal_strlit("fujifilm_provia_100f");
    reveal_strlit("positive");
    reveal_strlit("negative");
    assert("positive"@[0] != "negative"@[0]);
    assert("fujifilm_velvia_100"@.len() == 19 && "fujifilm_provia_100f"@.len() == 20);
}

} // verus!
