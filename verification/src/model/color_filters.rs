//! Optical filter catalogue: the dichroic enlarger filter brands and the
//! generic heat-absorbing and lens-transmission filters, selected by name.
//!
//! The transmittance curves are floating-point tables and live outside this
//! module; here a name is resolved to the filter it selects.

use vstd::prelude::*;
use crate::utils::text::str_eq;

verus! {

/// Brands of dichroic CMY enlarger filters.
#[derive(Debug, Clone, Copy, PartialEq, Eq, Structural)]
pub enum DichroicBrand {
    Custom,
    Thorlabs,
    EdmundOptics,
    DurstDigitalLight,
}

pub const BRAND_CUSTOM: &'static str = "custom";
pub const BRAND_THORLABS: &'static str = "thorlabs";
pub const BRAND_EDMUND_OPTICS: &'static str = "edmund_optics";
pub const BRAND_DURST_DIGITAL_LIGHT: &'static str = "durst_digital_light";

/// The brand a name selects, if it is a supported one.
pub open spec fn dichroic_brand_named(brand: Seq<char>) -> Option<DichroicBrand> {
    if brand == BRAND_CUSTOM@ {
        Some(DichroicBrand::Custom)
    } else if brand == BRAND_THORLABS@ {
        Some(DichroicBrand::Thorlabs)
    } else if brand == BRAND_EDMUND_OPTICS@ {
        Some(DichroicBrand::EdmundOptics)
    } else if brand == BRAND_DURST_DIGITAL_LIGHT@ {
        Some(DichroicBrand::DurstDigitalLight)
    } else {
        None
    }
}

/// Resolve a dichroic filter brand name; `None` for a brand that is not
/// supported (callers fall back to the custom filters).
pub fn dichroic_brand(brand: &str) -> (r: Option<DichroicBrand>)
    ensures
        r == dichroic_brand_named(brand@),
{
    if str_eq(brand, BRAND_CUSTOM) {
        Some(DichroicBrand::Custom)
    } else if str_eq(brand, BRAND_THORLABS) {
        Some(DichroicBrand::Thorlabs)
    } else if str_eq(brand, BRAND_EDMUND_OPTICS) {
        Some(DichroicBrand::EdmundOptics)
    } else if str_eq(brand, BRAND_DURST_DIGITAL_LIGHT) {
        Some(DichroicBrand::DurstDigitalLight)
    } else {
        None
    }
}

/// Generic filters with bundled transmittance data.
#[derive(Debug, Clone, Copy, PartialEq, Eq, Structural)]
pub enum GenericFilter {
    SchottKg1,
    SchottKg3,
    SchottKg5,
    Canon24F28Is,
}

pub const TYPE_HEAT_ABSORBING: &'static str = "heat_absorbing";
pub const TYPE_LENS_TRANSMISSION: &'static str = "lens_transmission";
pub const BRAND_SCHOTT: &'static str = "schott";
pub const BRAND_CANON: &'static str = "canon";
pub const FILTER_KG1: &'static str = "KG1";
pub const FILTER_KG3: &'static str = "KG3";
pub const FILTER_KG5: &'static str = "KG5";
pub const FILTER_CANON_24_F28_IS: &'static str = "canon_24_f28_is";

/// The generic filter a (name, brand, type) triple selects, if one is
/// bundled.
pub open spec fn generic_filter_named(name: Seq<char>, brand: Seq<char>, filter_type: Seq<char>) -> Option<GenericFilter> {
    if filter_type == TYPE_HEAT_ABSORBING@ && brand == BRAND_SCHOTT@ && name == FILTER_KG1@ {
        Some(GenericFilter::SchottKg1)
    } else if filter_type == TYPE_HEAT_ABSORBING@ && brand == BRAND_SCHOTT@ && name == FILTER_KG3@ {
        Some(GenericFilter::SchottKg3)
    } else if filter_type == TYPE_HEAT_ABSORBING@ && brand == BRAND_SCHOTT@ && name == FILTER_KG5@ {
        Some(GenericFilter::SchottKg5)
    } else if filter_type == TYPE_LENS_TRANSMISSION@ && brand == BRAND_CANON@ && name == FILTER_CANON_24_F28_IS@ {
        Some(GenericFilter::Canon24F28Is)
    } else {
        None
    }
}

/// Resolve a generic filter by name, brand and filter type; `None` when no
/// data is bundled for that combination (callers then use unity
/// transmittance).
pub fn generic_filter(name: &str, brand: &str, filter_type: &str) -> (r: Option<GenericFilter>)
    ensures
        r == generic_filter_named(name@, brand@, filter_type@),
{
    let heat = str_eq(filter_type, TYPE_HEAT_ABSORBING);
    let schott = str_eq(brand, BRAND_SCHOTT);
    if heat && schott && str_eq(name, FILTER_KG1) {
        Some(GenericFilter::SchottKg1)
    } else if heat && schott && str_eq(name, FILTER_KG3) {
        Some(GenericFilter::SchottKg3)
    } else if heat && schott && str_eq(name, FILTER_KG5) {
        Some(GenericFilter::SchottKg5)
    } else if str_eq(filter_type, TYPE_LENS_TRANSMISSION) && str_eq(brand, BRAND_CANON) && str_eq(
        name,
        FILTER_CANON_24_F28_IS,
    ) {
        Some(GenericFilter::Canon24F28Is)
    } else {
        None
    }
}

/// Whether the transmittance data of a generic filter is stored in percent.
/// The Schott heat filters store fractions; the Canon lens data percent.
pub fn stored_in_percent(f: GenericFilter) -> (r: bool)
    ensures
        r == (f == GenericFilter::Canon24F28Is),
{
    match f {
        GenericFilter::Canon24F28Is => true,
        _ => false,
    }
}

/// The supported dichroic brands are exactly `custom`, `thorlabs`,
/// `edmund_optics` and `durst_digital_light`, each naming its own brand.
pub proof fn lemma_dichroic_brand_names(brand: Seq<char>)
    ensures
        dichroic_brand_named(brand) == Some(DichroicBrand::Custom) <==> (brand == "custom"@),
        dichroic_brand_named(brand) == Some(DichroicBrand::Thorlabs) <==> (brand == "thorlabs"@),
        dichroic_brand_named(brand) == Some(DichroicBrand::EdmundOptics) <==> (brand == "edmund_optics"@),
        dichroic_brand_named(brand) == Some(DichroicBrand::DurstDigitalLight) <==> (brand == "durst_digital_light"@),
        dichroic_brand_named(brand) is None <==> !(brand == "custom"@ || brand == "thorlabs"@ || brand == "edmund_optics"@ || brand == "durst_digital_light"@),
{
    reveal_strlit("custom");
    reveal_strlit("durst_digital_light");
    reveal_strlit("edmund_optics");
    reveal_strlit("thorlabs");
    assert("custom"@.len() == 6);
    assert("thorlabs"@.len() == 8);
    assert("edmund_optics"@.len() == 13);
    assert("durst_digital_light"@.len() == 19);
}

/// The bundled generic filters: Schott KG1, KG3 and KG5 as heat-absorbing
/// filters of brand `schott`, and the Canon 24mm f/2.8 IS lens as a lens
/// transmission of brand `canon`; no other (name, brand, type) triple has
/// bundled data.
pub proof fn lemma_generic_filter_triples(name: Seq<char>, brand: Seq<char>, filter_type: Seq<char>)
    ensures
        generic_filter_named(name, brand, filter_type) == Some(GenericFilter::SchottKg1) <==> (filter_type
            == "heat_absorbing"@ && brand == "schott"@ && name == "KG1"@),
        generic_filter_named(name, brand, filter_type) == Some(GenericFilter::SchottKg3) <==> (filter_type
            == "heat_absorbing"@ && brand == "schott"@ && name == "KG3"@),
        generic_filter_named(name, brand, filter_type) == Some(GenericFilter::SchottKg5) <==> (filter_type
            == "heat_absorbing"@ && brand == "schott"@ && name == "KG5"@),
        generic_filter_named(name, brand, filter_type) == Some(GenericFilter::Canon24F28Is) <==> (filter_type
            == "lens_transmission"@ && brand == "canon"@ && name == "canon_24_f28_is"@),
{
    reveal_strlit("KG1");
    reveal_strlit("KG3");
    reveal_strlit("KG5");
    reveal_strlit("heat_absorbing");
    reveal_strlit("lens_transmission");
    reveal_strlit("schott");
    reveal_strlit("canon");
    reveal_strlit("canon_24_f28_is");
    assert("KG1"@[2] != "KG3"@[2] && "KG1"@[2] != "KG5"@[2] && "KG3"@[2] != "KG5"@[2]);
    assert("heat_absorbing"@.len() != "lens_transmission"@.len());
    assert("schott"@.len() != "canon"@.len());
}

} // verus!
