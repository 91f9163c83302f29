//! Diffusion-filter families and the names that select them.
//!
//! The point-spread functions of the families are floating-point models and
//! live outside this module; here a family name is resolved to its family.

use vstd::prelude::*;
use crate::utils::text::str_eq;

verus! {

/// The diffusion-filter families.
#[derive(Debug, Clone, Copy, PartialEq, Eq, Structural)]
pub enum DiffusionFamily {
    Glimmerglass,
    BlackProMist,
    ProMist,
    Cinebloom,
}

pub const FAMILY_GLIMMERGLASS: &'static str = "glimmerglass";
pub const FAMILY_BLACK_PRO_MIST: &'static str = "black_pro_mist";
pub const FAMILY_PRO_MIST: &'static str = "pro_mist";
pub const FAMILY_CINEBLOOM: &'static str = "cinebloom";
pub const FAMILY_WHITE_PRO_MIST: &'static str = "white_pro_mist";
pub const FAMILY_HOLLYWOOD_BLACK: &'static str = "hollywood_black";
pub const FAMILY_TIFFEN_SOFT_FX: &'static str = "tiffen_soft_fx";

/// The canonical family names.
pub const DIFFUSION_FILTER_FAMILIES: [&'static str; 4] = [
    FAMILY_GLIMMERGLASS,
    FAMILY_BLACK_PRO_MIST,
    FAMILY_PRO_MIST,
    FAMILY_CINEBLOOM,
];

/// The family a name selects; unknown names select Black Pro-Mist.
pub open spec fn diffusion_family_named(name: Seq<char>) -> DiffusionFamily {
    if name == FAMILY_GLIMMERGLASS@ {
        DiffusionFamily::Glimmerglass
    } else if name == FAMILY_BLACK_PRO_MIST@ {
        DiffusionFamily::BlackProMist
    } else if name == FAMILY_PRO_MIST@ {
        DiffusionFamily::ProMist
    } else if name == FAMILY_CINEBLOOM@ {
        DiffusionFamily::Cinebloom
    } else if name == FAMILY_WHITE_PRO_MIST@ {
        DiffusionFamily::ProMist
    } else if name == FAMILY_HOLLYWOOD_BLACK@ {
        DiffusionFamily::Cinebloom
    } else if name == FAMILY_TIFFEN_SOFT_FX@ {
        DiffusionFamily::Glimmerglass
    } else {
        DiffusionFamily::BlackProMist
    }
}

/// Resolve a diffusion-filter family name. Three older names are aliases
/// (`white_pro_mist` for Pro-Mist, `hollywood_black` for CineBloom,
/// `tiffen_soft_fx` for Glimmerglass); any other name selects Black Pro-Mist.
pub fn diffusion_family(name: &str) -> (r: DiffusionFamily)
    ensures
        r == diffusion_family_named(name@),
{
    if str_eq(name, FAMILY_GLIMMERGLASS) {
        DiffusionFamily::Glimmerglass
    } else if str_eq(name, FAMILY_BLACK_PRO_MIST) {
        DiffusionFamily::BlackProMist
    } else if str_eq(name, FAMILY_PRO_MIST) {
        DiffusionFamily::ProMist
    } else if str_eq(name, FAMILY_CINEBLOOM) {
        DiffusionFamily::Cinebloom
    } else if str_eq(name, FAMILY_WHITE_PRO_MIST) {
        DiffusionFamily::ProMist
    } else if str_eq(name, FAMILY_HOLLYWOOD_BLACK) {
        DiffusionFamily::Cinebloom
    } else if str_eq(name, FAMILY_TIFFEN_SOFT_FX) {
        DiffusionFamily::Glimmerglass
    } else {
        DiffusionFamily::BlackProMist
    }
}

/// Each canonical family name selects the family it names, in the order of
/// `DIFFUSION_FILTER_FAMILIES`.
pub proof fn lemma_canonical_family_names()
    ensures
        diffusion_family_named(DIFFUSION_FILTER_FAMILIES[0]@) == DiffusionFamily::Glimmerglass,
        diffusion_family_named(DIFFUSION_FILTER_FAMILIES[1]@) == DiffusionFamily::BlackProMist,
        diffusion_family_named(DIFFUSION_FILTER_FAMILIES[2]@) == DiffusionFamily::ProMist,
        diffusion_family_named(DIFFUSION_FILTER_FAMILIES[3]@) == DiffusionFamily::Cinebloom,
{
    reveal_strlit("glimmerglass");
    reveal_strlit("black_pro_mist");
    reveal_strlit("pro_mist");
    reveal_strlit("cinebloom");
    assert(FAMILY_GLIMMERGLASS@.len() == 12);
    assert(FAMILY_BLACK_PRO_MIST@.len() == 14);
    assert(FAMILY_PRO_MIST@.len() == 8);
    assert(FAMILY_CINEBLOOM@.len() == 9);
}

/// The names of each diffusion family: Glimmerglass is `glimmerglass` or
/// `tiffen_soft_fx`; Pro-Mist is `pro_mist` or `white_pro_mist`; CineBloom is
/// `cinebloom` or `hollywood_black`; Black Pro-Mist is `black_pro_mist` and
/// every name that is none of these.
pub proof fn lemma_diffusion_family_aliases(n: Seq<char>)
    ensures
        diffusion_family_named(n) == DiffusionFamily::Glimmerglass <==> (n == "glimmerglass"@ || n == "tiffen_soft_fx"@),
        diffusion_family_named(n) == DiffusionFamily::BlackProMist <==> (n == "black_pro_mist"@ || !(n == "glimmerglass"@ || n == "tiffen_soft_fx"@ || n == "black_pro_mist"@ || n == "pro_mist"@ || n == "white_pro_mist"@ || n == "cinebloom"@ || n == "hollywood_black"@)),
        diffusion_family_named(n) == DiffusionFamily::ProMist <==> (n == "pro_mist"@ || n == "white_pro_mist"@),
        diffusion_family_named(n) == DiffusionFamily::Cinebloom <==> (n == "cinebloom"@ || n == "hollywood_black"@),
{
    reveal_strlit("black_pro_mist");
    reveal_strlit("cinebloom");
    reveal_strlit("glimmerglass");
    reveal_strlit("hollywood_black");
    reveal_strlit("pro_mist");
    reveal_strlit("tiffen_soft_fx");
    reveal_strlit("white_pro_mist");
    assert("pro_mist"@.len() == 8);
    assert("cinebloom"@.len() == 9);
    assert("glimmerglass"@.len() == 12);
    assert("black_pro_mist"@.len() == 14 && "tiffen_soft_fx"@.len() == 14 && "white_pro_mist"@.len() == 14);
    assert("black_pro_mist"@[0] != "tiffen_soft_fx"@[0]);
    assert("black_pro_mist"@[0] != "white_pro_mist"@[0]);
    assert("tiffen_soft_fx"@[0] != "white_pro_mist"@[0]);
    assert("hollywood_black"@.len() == 15);
}

} // verus!
