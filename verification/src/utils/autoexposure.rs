//! Choice of the metering method of the auto-exposure.
//!
//! The metering itself averages floating-point luminances and lives with
//! the rest of the image arithmetic.

use vstd::prelude::*;
use crate::utils::text::str_eq;

verus! {

/// How the scene luminance is metered.
#[derive(Debug, Clone, Copy, PartialEq, Eq, Structural)]
pub enum MeteringMethod {
    /// The median luminance of all pixels.
    Median,
    /// A Gaussian-weighted mean favouring the centre of the frame.
    CenterWeighted,
}

pub const METERING_MEDIAN: &'static str = "median";

/// `median` selects median metering; every other name, `center_weighted`
/// among them, selects centre-weighted metering.
pub open spec fn metering_method_spec(name: Seq<char>) -> MeteringMethod {
    if name == METERING_MEDIAN@ {
        MeteringMethod::Median
    } else {
        MeteringMethod::CenterWeighted
    }
}

/// The metering method a method name selects.
pub fn metering_method(name: &str) -> (r: MeteringMethod)
    ensures
        r == metering_method_spec(name@),
{
    if str_eq(name, METERING_MEDIAN) {
        MeteringMethod::Median
    } else {
        MeteringMethod::CenterWeighted
    }
}

/// Only the name `median` selects median metering; every other name selects
/// centre-weighted metering.
pub proof fn lemma_metering_method_names(name: Seq<char>)
    ensures
        metering_method_spec(name) == MeteringMethod::Median <==> (name == "median"@),
        metering_method_spec(name) == MeteringMethod::CenterWeighted <==> (!(name == "median"@)),
{
    reveal_strlit("median");
    assert("median"@.len() == 6);
}

} // verus!
