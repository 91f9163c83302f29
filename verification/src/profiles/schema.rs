//! The parts of a profile that its consistency checks read: the lengths of
//! its spectral tables and its text labels.

use vstd::prelude::*;
use crate::model::stocks::{
    PROFILE_CHANNEL_MODEL_COLOR, PROFILE_STAGE_FILMING, PROFILE_STAGE_PRINTING, PROFILE_SUPPORT_FILM,
    PROFILE_SUPPORT_PAPER, PROFILE_TYPE_NEGATIVE, PROFILE_TYPE_POSITIVE, PROFILE_USE_CINE, PROFILE_USE_STILL,
};
use crate::utils::text::str_eq;

verus! {

/// Lengths of the numerical tables of a profile. Tables with three columns
/// are stored flattened, row after row.
#[derive(Debug, Clone, Copy, PartialEq, Eq, Structural)]
pub struct ProfileShape {
    pub n_wavelengths: usize,
    pub n_log_exposure: usize,
    pub log_sensitivity_len: usize,
    pub channel_density_len: usize,
    pub base_density_len: usize,
    pub midscale_neutral_density_len: usize,
    pub density_curves_len: usize,
}

/// The text labels of a profile's metadata.
#[derive(Debug, Clone)]
pub struct ProfileLabels {
    pub stock: String,
    pub profile_type: String,
    pub support: String,
    pub stage: String,
    pub usage: String,
    pub antihalation: String,
    pub channel_model: String,
}

impl ProfileLabels {
    /// A negative film or paper.
    pub fn is_negative(&self) -> (r: bool)
        ensures
            r == (self.profile_type@ == PROFILE_TYPE_NEGATIVE@),
    {
        str_eq(self.profile_type.as_str(), PROFILE_TYPE_NEGATIVE)
    }

    /// A positive (reversal) film.
    pub fn is_positive(&self) -> (r: bool)
        ensures
            r == (self.profile_type@ == PROFILE_TYPE_POSITIVE@),
    {
        str_eq(self.profile_type.as_str(), PROFILE_TYPE_POSITIVE)
    }

    /// Coated on film.
    pub fn is_film(&self) -> (r: bool)
        ensures
            r == (self.support@ == PROFILE_SUPPORT_FILM@),
    {
        str_eq(self.support.as_str(), PROFILE_SUPPORT_FILM)
    }

    /// Coated on paper.
    pub fn is_paper(&self) -> (r: bool)
        ensures
            r == (self.support@ == PROFILE_SUPPORT_PAPER@),
    {
        str_eq(self.support.as_str(), PROFILE_SUPPORT_PAPER)
    }

    /// Used in the filming stage.
    pub fn is_filming(&self) -> (r: bool)
        ensures
            r == (self.stage@ == PROFILE_STAGE_FILMING@),
    {
        str_eq(self.stage.as_str(), PROFILE_STAGE_FILMING)
    }

    /// Used in the printing stage.
    pub fn is_printing(&self) -> (r: bool)
        ensures
            r == (self.stage@ == PROFILE_STAGE_PRINTING@),
    {
        str_eq(self.stage.as_str(), PROFILE_STAGE_PRINTING)
    }

    /// A still-photography stock.
    pub fn is_still(&self) -> (r: bool)
        ensures
            r == (self.usage@ == PROFILE_USE_STILL@),
    {
        str_eq(self.usage.as_str(), PROFILE_USE_STILL)
    }

    /// A motion-picture stock.
    pub fn is_cine(&self) -> (r: bool)
        ensures
            r == (self.usage@ == PROFILE_USE_CINE@),
    {
        str_eq(self.usage.as_str(), PROFILE_USE_CINE)
    }

    /// A three-channel colour stock rather than black and white.
    pub fn is_color(&self) -> (r: bool)
        ensures
            r == (self.channel_model@ == PROFILE_CHANNEL_MODEL_COLOR@),
    {
        str_eq(self.channel_model.as_str(), PROFILE_CHANNEL_MODEL_COLOR)
    }
}

} // verus!
