//! Standard illuminants and the labels that select them.
//!
//! The spectral power distributions are floating-point tables and live
//! outside this module; here a label is resolved to the illuminant it names.

use vstd::prelude::*;
use crate::utils::text::{lemma_encode_utf8_ascii_head, str_eq};

verus! {

/// Illuminants with a fixed spectrum.
#[derive(Debug, Clone, Copy, PartialEq, Eq, Structural)]
pub enum IlluminantKind {
    D50,
    D55,
    D65,
    ThKg1,
    ThKg3,
    ThKg3L,
    ThKg5,
    Incandescent,
    K75P,
}

pub const ILLUMINANT_D50: &'static str = "D50";
pub const ILLUMINANT_D55: &'static str = "D55";
pub const ILLUMINANT_D65: &'static str = "D65";
pub const ILLUMINANT_TH_KG1: &'static str = "TH-KG1";
pub const ILLUMINANT_TH_KG3: &'static str = "TH-KG3";
pub const ILLUMINANT_TH_KG3_L: &'static str = "TH-KG3-L";
pub const ILLUMINANT_TH_KG5: &'static str = "TH-KG5";
pub const ILLUMINANT_T: &'static str = "T";
pub const ILLUMINANT_INCANDESCENT: &'static str = "Incandescent";
pub const ILLUMINANT_K75P: &'static str = "K75P";

/// The illuminant a label names, if it has a fixed spectrum.
pub open spec fn illuminant_named(name: Seq<char>) -> Option<IlluminantKind> {
    if name == ILLUMINANT_D50@ {
        Some(IlluminantKind::D50)
    } else if name == ILLUMINANT_D55@ {
        Some(IlluminantKind::D55)
    } else if name == ILLUMINANT_D65@ {
        Some(IlluminantKind::D65)
    } else if name == ILLUMINANT_TH_KG1@ {
        Some(IlluminantKind::ThKg1)
    } else if name == ILLUMINANT_TH_KG3@ {
        Some(IlluminantKind::ThKg3)
    } else if name == ILLUMINANT_TH_KG3_L@ {
        Some(IlluminantKind::ThKg3L)
    } else if name == ILLUMINANT_TH_KG5@ {
        Some(IlluminantKind::ThKg5)
    } else if name == ILLUMINANT_T@ {
        Some(IlluminantKind::Incandescent)
    } else if name == ILLUMINANT_INCANDESCENT@ {
        Some(IlluminantKind::Incandescent)
    } else if name == ILLUMINANT_K75P@ {
        Some(IlluminantKind::K75P)
    } else {
        None
    }
}

/// Resolve an illuminant label with a fixed spectrum; `T` and `Incandescent`
/// both name the incandescent source. `None` for other labels, which are
/// either black bodies (`BB` followed by a temperature) or unknown.
pub fn named_illuminant(name: &str) -> (r: Option<IlluminantKind>)
    ensures
        r == illuminant_named(name@),
{
    if str_eq(name, ILLUMINANT_D50) {
        Some(IlluminantKind::D50)
    } else if str_eq(name, ILLUMINANT_D55) {
        Some(IlluminantKind::D55)
    } else if str_eq(name, ILLUMINANT_D65) {
        Some(IlluminantKind::D65)
    } else if str_eq(name, ILLUMINANT_TH_KG1) {
        Some(IlluminantKind::ThKg1)
    } else if str_eq(name, ILLUMINANT_TH_KG3) {
        Some(IlluminantKind::ThKg3)
    } else if str_eq(name, ILLUMINANT_TH_KG3_L) {
        Some(IlluminantKind::ThKg3L)
    } else if str_eq(name, ILLUMINANT_TH_KG5) {
        Some(IlluminantKind::ThKg5)
    } else if str_eq(name, ILLUMINANT_T) {
        Some(IlluminantKind::Incandescent)
    } else if str_eq(name, ILLUMINANT_INCANDESCENT) {
        Some(IlluminantKind::Incandescent)
    } else if str_eq(name, ILLUMINANT_K75P) {
        Some(IlluminantKind::K75P)
    } else {
        None
    }
}

/// The label names a black body: it starts with `BB`, followed by the
/// temperature in kelvin.
pub open spec fn has_blackbody_prefix_spec(name: Seq<char>) -> bool {
    name.len() >= 2 && name[0] == 'B' && name[1] == 'B'
}

/// Whether a label starts with the black-body prefix `BB`.
pub fn has_blackbody_prefix(name: &str) -> (r: bool)
    ensures
        r == has_blackbody_prefix_spec(name@),
{
    let b = name.as_bytes();
    let r = b.len() >= 2 && b[0] == 0x42 && b[1] == 0x42;
    proof {
        let s = name@;
        assert(b@ == vstd::utf8::encode_utf8(s));
        lemma_encode_utf8_ascii_head(s, 0x42);
        if s.len() > 0 {
            vstd::utf8::char_u32_cast(s[0], s[0] as u32);
        }
        if s.len() > 0 && s[0] as u32 == 0x42 {
            assert(s[0] == 'B');
            lemma_encode_utf8_ascii_head(s.drop_first(), 0x42);
            if s.len() > 1 {
                assert(s.drop_first()[0] == s[1]);
                vstd::utf8::char_u32_cast(s[1], s[1] as u32);
            }
        }
    }
    r
}

/// A label with a fixed spectrum never reads as a black body: none of them
/// starts with `BB`.
pub proof fn lemma_fixed_labels_are_not_black_bodies(name: Seq<char>)
    ensures
        illuminant_named(name) is Some ==> !has_blackbody_prefix_spec(name),
{
    reveal_strlit("D50");
    reveal_strlit("D55");
    reveal_strlit("D65");
    reveal_strlit("TH-KG1");
    reveal_strlit("TH-KG3");
    reveal_strlit("TH-KG3-L");
    reveal_strlit("TH-KG5");
    reveal_strlit("T");
    reveal_strlit("Incandescent");
    reveal_strlit("K75P");
}

/// The labels of each fixed-spectrum illuminant; `T` and `Incandescent`
/// both name the incandescent source, and no other label has a fixed
/// spectrum.
pub proof fn lemma_illuminant_aliases(n: Seq<char>)
    ensures
        illuminant_named(n) == Some(IlluminantKind::D50) <==> (n == "D50"@),
        illuminant_named(n) == Some(IlluminantKind::D55) <==> (n == "D55"@),
        illuminant_named(n) == Some(IlluminantKind::D65) <==> (n == "D65"@),
        illuminant_named(n) == Some(IlluminantKind::ThKg1) <==> (n == "TH-KG1"@),
        illuminant_named(n) == Some(IlluminantKind::ThKg3) <==> (n == "TH-KG3"@),
        illuminant_named(n) == Some(IlluminantKind::ThKg3L) <==> (n == "TH-KG3-L"@),
        illuminant_named(n) == Some(IlluminantKind::ThKg5) <==> (n == "TH-KG5"@),
        illuminant_named(n) == Some(IlluminantKind::Incandescent) <==> (n == "T"@ || n == "Incandescent"@),
        illuminant_named(n) == Some(IlluminantKind::K75P) <==> (n == "K75P"@),
        illuminant_named(n) is None <==> !(n == "D50"@ || n == "D55"@ || n == "D65"@ || n == "TH-KG1"@ || n == "TH-KG3"@ || n == "TH-KG3-L"@ || n == "TH-KG5"@ || n == "T"@ || n == "Incandescent"@ || n == "K75P"@),
{
    reveal_strlit("D50");
    reveal_strlit("D55");
    reveal_strlit("D65");
    reveal_strlit("Incandescent");
    reveal_strlit("K75P");
    reveal_strlit("T");
    reveal_strlit("TH-KG1");
    reveal_strlit("TH-KG3");
    reveal_strlit("TH-KG3-L");
    reveal_strlit("TH-KG5");
    assert("T"@.len() == 1);
    assert("D50"@.len() == 3 && "D55"@.len() == 3 && "D65"@.len() == 3);
    assert("D50"@[2] != "D55"@[2]);
    assert("D50"@[1] != "D65"@[1]);
    assert("D55"@[1] != "D65"@[1]);
    assert("K75P"@.len() == 4);
    assert("TH-KG1"@.len() == 6 && "TH-KG3"@.len() == 6 && "TH-KG5"@.len() == 6);
    assert("TH-KG1"@[5] != "TH-KG3"@[5]);
    assert("TH-KG1"@[5] != "TH-KG5"@[5]);
    assert("TH-KG3"@[5] != "TH-KG5"@[5]);
    assert("TH-KG3-L"@.len() == 8);
    assert("Incandescent"@.len() == 12);
}

} // verus!
