//! Colour-space identifiers and the parsing of colour-space names.
//!
//! The conversion matrices and transfer functions work on floating-point
//! samples and live outside this module.

use vstd::prelude::*;
use crate::utils::spectral_upsampling::{
    upsampling_space_spec, UpsamplingSpace, UPSAMPLING_PROPHOTO_NAMES, UPSAMPLING_REC2020_NAMES,
};
use crate::utils::text::{alnum_lower, alnum_lower_of, ascii_lower, bytes_eq_str, is_ascii_alnum};

verus! {

/// Supported RGB colour spaces.
#[derive(Clone, Copy, Debug, PartialEq, Eq, Structural)]
pub enum RgbColorSpace {
    Srgb,
    ProPhotoRgb,
    Rec2020,
    DisplayP3,
    Aces2065_1,
}

/// Chromatic adaptation transforms.
#[derive(Clone, Copy, Debug, PartialEq, Eq, Structural)]
pub enum ChromaticAdaptationTransform {
    Bradford,
    Cat02,
}

pub const KEY_SRGB: &'static str = "srgb";
pub const KEY_PROPHOTO: &'static str = "prophoto";
pub const KEY_PROPHOTO_RGB: &'static str = "prophotorgb";
pub const KEY_ROMM: &'static str = "romm";
pub const KEY_ROMM_RGB: &'static str = "rommrgb";
pub const KEY_REC2020: &'static str = "rec2020";
pub const KEY_BT2020: &'static str = "bt2020";
pub const KEY_ITUR_BT2020: &'static str = "iturbt2020";
pub const KEY_ITUR_2020: &'static str = "itur2020";
pub const KEY_REC2100: &'static str = "rec2100";
pub const KEY_DISPLAY_P3: &'static str = "displayp3";
pub const KEY_P3: &'static str = "p3";
pub const KEY_DCI_P3_D65: &'static str = "dcip3d65";
pub const KEY_ACES2065_1: &'static str = "aces20651";
pub const KEY_ACES2065: &'static str = "aces2065";
pub const KEY_ACES: &'static str = "aces";
pub const KEY_ACES_AP0: &'static str = "acesap0";

/// The colour space a normalised name (lower-case letters and digits only)
/// stands for.
pub open spec fn color_space_for_key(k: Seq<char>) -> Option<RgbColorSpace> {
    if k == KEY_SRGB@ {
        Some(RgbColorSpace::Srgb)
    } else if k == KEY_PROPHOTO@ || k == KEY_PROPHOTO_RGB@ || k == KEY_ROMM@ || k == KEY_ROMM_RGB@ {
        Some(RgbColorSpace::ProPhotoRgb)
    } else if k == KEY_REC2020@ || k == KEY_BT2020@ || k == KEY_ITUR_BT2020@ || k == KEY_ITUR_2020@ || k
        == KEY_REC2100@ {
        Some(RgbColorSpace::Rec2020)
    } else if k == KEY_DISPLAY_P3@ || k == KEY_P3@ || k == KEY_DCI_P3_D65@ {
        Some(RgbColorSpace::DisplayP3)
    } else if k == KEY_ACES2065_1@ || k == KEY_ACES2065@ || k == KEY_ACES@ || k == KEY_ACES_AP0@ {
        Some(RgbColorSpace::Aces2065_1)
    } else {
        None
    }
}

/// Parse a colour-space name, ignoring case and every character that is not
/// an ASCII letter or digit, so that `"ProPhoto RGB"`, `"prophoto-rgb"` and
/// `"ROMM"` all name ProPhoto RGB.
pub fn parse_rgb_color_space(name: &str) -> (r: Option<RgbColorSpace>)
    ensures
        r == color_space_for_key(alnum_lower(name@)),
{
    let key = alnum_lower_of(name);
    let k = key.as_slice();
    let ghost t = alnum_lower(name@);
    if bytes_eq_str(k, KEY_SRGB) {
        Some(RgbColorSpace::Srgb)
    } else if bytes_eq_str(k, KEY_PROPHOTO) || bytes_eq_str(k, KEY_PROPHOTO_RGB) || bytes_eq_str(k, KEY_ROMM)
        || bytes_eq_str(k, KEY_ROMM_RGB) {
        Some(RgbColorSpace::ProPhotoRgb)
    } else if bytes_eq_str(k, KEY_REC2020) || bytes_eq_str(k, KEY_BT2020) || bytes_eq_str(k, KEY_ITUR_BT2020)
        || bytes_eq_str(k, KEY_ITUR_2020) || bytes_eq_str(k, KEY_REC2100) {
        Some(RgbColorSpace::Rec2020)
    } else if bytes_eq_str(k, KEY_DISPLAY_P3) || bytes_eq_str(k, KEY_P3) || bytes_eq_str(k, KEY_DCI_P3_D65) {
        Some(RgbColorSpace::DisplayP3)
    } else if bytes_eq_str(k, KEY_ACES2065_1) || bytes_eq_str(k, KEY_ACES2065) || bytes_eq_str(k, KEY_ACES)
        || bytes_eq_str(k, KEY_ACES_AP0) {
        Some(RgbColorSpace::Aces2065_1)
    } else {
        None
    }
}

/// Normalising a name is idempotent, so a name and its normalised form name
/// the same colour space.
pub proof fn lemma_normalised_name_parses_alike(name: Seq<char>)
    ensures
        alnum_lower(alnum_lower(name)) == alnum_lower(name),
        color_space_for_key(alnum_lower(alnum_lower(name))) == color_space_for_key(alnum_lower(name)),
    decreases name.len(),
{
    if name.len() > 0 {
        let rest = name.drop_first();
        lemma_normalised_name_parses_alike(rest);
        let c = name[0];
        if is_ascii_alnum(c) {
            let l = ascii_lower(c);
            let n = seq![l] + alnum_lower(rest);
            assert(n[0] == l);
            assert(n.drop_first() =~= alnum_lower(rest));
            assert(is_ascii_alnum(l));
            assert(ascii_lower(l) == l);
        }
    }
}

} // verus!

verus! {

proof fn lemma_rec2020_spellings_parse()
    ensures
        forall|i: int| 0 <= i < 5 ==> color_space_for_key(alnum_lower((#[trigger] UPSAMPLING_REC2020_NAMES@[i])@))
            == Some(RgbColorSpace::Rec2020),
{
    reveal_with_fuel(alnum_lower, 14);
    reveal_strlit("ITU-R BT.2020");
    reveal_strlit("Rec2020");
    reveal_strlit("BT.2020");
    reveal_strlit("rec2020");
    reveal_strlit("bt2020");
    reveal_strlit("iturbt2020");
    reveal_strlit("srgb");
    reveal_strlit("prophoto");
    reveal_strlit("prophotorgb");
    reveal_strlit("romm");
    reveal_strlit("rommrgb");
    assert(alnum_lower("ITU-R BT.2020"@) =~= KEY_ITUR_BT2020@);
    assert(alnum_lower("Rec2020"@) =~= KEY_REC2020@);
    assert(alnum_lower("BT.2020"@) =~= KEY_BT2020@);
    assert(alnum_lower("rec2020"@) =~= KEY_REC2020@);
    assert(alnum_lower("bt2020"@) =~= KEY_BT2020@);
    assert forall|i: int| 0 <= i < 5 implies color_space_for_key(alnum_lower((#[trigger] UPSAMPLING_REC2020_NAMES@[i])@))
        == Some(RgbColorSpace::Rec2020) by {
        assert(UPSAMPLING_REC2020_NAMES@ == seq!["ITU-R BT.2020", "Rec2020", "BT.2020", "rec2020", "bt2020"]);
    }
}

proof fn lemma_prophoto_spellings_parse()
    ensures
        forall|i: int| 0 <= i < 4 ==> color_space_for_key(alnum_lower((#[trigger] UPSAMPLING_PROPHOTO_NAMES@[i])@))
            == Some(RgbColorSpace::ProPhotoRgb),
{
    reveal_with_fuel(alnum_lower, 13);
    reveal_strlit("ProPhoto RGB");
    reveal_strlit("prophoto-rgb");
    reveal_strlit("ProPhoto");
    reveal_strlit("ROMM RGB");
    reveal_strlit("prophotorgb");
    reveal_strlit("prophoto");
    reveal_strlit("rommrgb");
    reveal_strlit("srgb");
    assert(alnum_lower("ProPhoto RGB"@) =~= KEY_PROPHOTO_RGB@);
    assert(alnum_lower("prophoto-rgb"@) =~= KEY_PROPHOTO_RGB@);
    assert(alnum_lower("ProPhoto"@) =~= KEY_PROPHOTO@);
    assert(alnum_lower("ROMM RGB"@) =~= KEY_ROMM_RGB@);
    assert forall|i: int| 0 <= i < 4 implies color_space_for_key(alnum_lower((#[trigger] UPSAMPLING_PROPHOTO_NAMES@[i])@))
        == Some(RgbColorSpace::ProPhotoRgb) by {
        assert(UPSAMPLING_PROPHOTO_NAMES@ == seq!["ProPhoto RGB", "prophoto-rgb", "ProPhoto", "ROMM RGB"]);
    }
}

/// The spellings of Rec. 2020 and ProPhoto that the spectral upsampler
/// accepts name the same colour spaces when parsed as colour-space names.
pub proof fn lemma_upsampling_names_parse_alike(name: Seq<char>)
    ensures
        upsampling_space_spec(name) == UpsamplingSpace::Rec2020 ==> color_space_for_key(alnum_lower(name)) == Some(
            RgbColorSpace::Rec2020,
        ),
        upsampling_space_spec(name) == UpsamplingSpace::ProPhoto ==> color_space_for_key(alnum_lower(name)) == Some(
            RgbColorSpace::ProPhotoRgb,
        ),
{
    lemma_rec2020_spellings_parse();
    lemma_prophoto_spellings_parse();
}

pub const NAME_SRGB: &'static str = "sRGB";
pub const NAME_PROPHOTO_RGB: &'static str = "ProPhoto RGB";
pub const NAME_REC2020: &'static str = "ITU-R BT.2020";
pub const NAME_DISPLAY_P3: &'static str = "Display P3";
pub const NAME_ACES2065_1: &'static str = "ACES2065-1";

/// The display name of each colour space.
pub open spec fn color_space_name(cs: RgbColorSpace) -> Seq<char> {
    match cs {
        RgbColorSpace::Srgb => NAME_SRGB@,
        RgbColorSpace::ProPhotoRgb => NAME_PROPHOTO_RGB@,
        RgbColorSpace::Rec2020 => NAME_REC2020@,
        RgbColorSpace::DisplayP3 => NAME_DISPLAY_P3@,
        RgbColorSpace::Aces2065_1 => NAME_ACES2065_1@,
    }
}

impl RgbColorSpace {
    /// The display name of this colour space.
    pub fn name(self) -> (r: &'static str)
        ensures
            r@ == color_space_name(self),
    {
        match self {
            RgbColorSpace::Srgb => NAME_SRGB,
            RgbColorSpace::ProPhotoRgb => NAME_PROPHOTO_RGB,
            RgbColorSpace::Rec2020 => NAME_REC2020,
            RgbColorSpace::DisplayP3 => NAME_DISPLAY_P3,
            RgbColorSpace::Aces2065_1 => NAME_ACES2065_1,
        }
    }
}

proof fn lemma_name_srgb_key()
    ensures
        alnum_lower(NAME_SRGB@) == KEY_SRGB@,
{
    reveal_with_fuel(alnum_lower, 5);
    reveal_strlit("sRGB");
    reveal_strlit("srgb");
    assert(alnum_lower(NAME_SRGB@) =~= KEY_SRGB@);
}

proof fn lemma_name_prophoto_rgb_key()
    ensures
        alnum_lower(NAME_PROPHOTO_RGB@) == KEY_PROPHOTO_RGB@,
{
    reveal_with_fuel(alnum_lower, 13);
    reveal_strlit("ProPhoto RGB");
    reveal_strlit("prophotorgb");
    assert(alnum_lower(NAME_PROPHOTO_RGB@) =~= KEY_PROPHOTO_RGB@);
}

proof fn lemma_name_rec2020_key()
    ensures
        alnum_lower(NAME_REC2020@) == KEY_ITUR_BT2020@,
{
    reveal_with_fuel(alnum_lower, 14);
    reveal_strlit("ITU-R BT.2020");
    reveal_strlit("iturbt2020");
    assert(alnum_lower(NAME_REC2020@) =~= KEY_ITUR_BT2020@);
}

proof fn lemma_name_display_p3_key()
    ensures
        alnum_lower(NAME_DISPLAY_P3@) == KEY_DISPLAY_P3@,
{
    reveal_with_fuel(alnum_lower, 11);
    reveal_strlit("Display P3");
    reveal_strlit("displayp3");
    assert(alnum_lower(NAME_DISPLAY_P3@) =~= KEY_DISPLAY_P3@);
}

proof fn lemma_name_aces2065_1_key()
    ensures
        alnum_lower(NAME_ACES2065_1@) == KEY_ACES2065_1@,
{
    reveal_with_fuel(alnum_lower, 11);
    reveal_strlit("ACES2065-1");
    reveal_strlit("aces20651");
    assert(alnum_lower(NAME_ACES2065_1@) =~= KEY_ACES2065_1@);
}

/// Every colour space parses back from its own display name.
pub proof fn lemma_color_space_names_parse_back(cs: RgbColorSpace)
    ensures
        color_space_for_key(alnum_lower(color_space_name(cs))) == Some(cs),
{
    reveal_strlit("srgb");
    reveal_strlit("prophoto");
    reveal_strlit("prophotorgb");
    reveal_strlit("romm");
    reveal_strlit("rommrgb");
    reveal_strlit("rec2020");
    reveal_strlit("bt2020");
    reveal_strlit("iturbt2020");
    reveal_strlit("itur2020");
    reveal_strlit("rec2100");
    reveal_strlit("displayp3");
    reveal_strlit("p3");
    reveal_strlit("dcip3d65");
    reveal_strlit("aces20651");
    match cs {
        RgbColorSpace::Srgb => {
            lemma_name_srgb_key();
            assert(color_space_name(cs) == NAME_SRGB@);
            assert(alnum_lower(color_space_name(cs)) == KEY_SRGB@);
            assert(color_space_for_key(KEY_SRGB@) == Some(RgbColorSpace::Srgb));
        },
        RgbColorSpace::ProPhotoRgb => {
            lemma_name_prophoto_rgb_key();
            assert(alnum_lower(color_space_name(cs)) == KEY_PROPHOTO_RGB@);
            assert(color_space_for_key(KEY_PROPHOTO_RGB@) == Some(RgbColorSpace::ProPhotoRgb));
        },
        RgbColorSpace::Rec2020 => {
            lemma_name_rec2020_key();
            assert(alnum_lower(color_space_name(cs)) == KEY_ITUR_BT2020@);
            assert(color_space_for_key(KEY_ITUR_BT2020@) == Some(RgbColorSpace::Rec2020));
        },
        RgbColorSpace::DisplayP3 => {
            lemma_name_display_p3_key();
            assert(alnum_lower(color_space_name(cs)) == KEY_DISPLAY_P3@);
            assert(color_space_for_key(KEY_DISPLAY_P3@) == Some(RgbColorSpace::DisplayP3));
        },
        RgbColorSpace::Aces2065_1 => {
            lemma_name_aces2065_1_key();
            assert(alnum_lower(color_space_name(cs)) == KEY_ACES2065_1@);
            assert(KEY_ACES2065_1@.len() == 9);
            assert(KEY_ACES2065_1@ != KEY_DISPLAY_P3@) by {
                assert(KEY_ACES2065_1@[0] != KEY_DISPLAY_P3@[0]);
            }
            assert(color_space_for_key(KEY_ACES2065_1@) == Some(RgbColorSpace::Aces2065_1));
        },
    }
}

/// The normalised names of each colour space: sRGB is `srgb`; ProPhoto RGB
/// is `prophoto`, `prophotorgb`, `romm` or `rommrgb`; Rec. 2020 is `rec2020`,
/// `bt2020`, `iturbt2020`, `itur2020` or `rec2100`; Display P3 is
/// `displayp3`, `p3` or `dcip3d65`; ACES2065-1 is `aces20651`, `aces2065`,
/// `aces` or `acesap0`; no other normalised name is a colour space.
pub proof fn lemma_color_space_aliases(k: Seq<char>)
    ensures
        color_space_for_key(k) == Some(RgbColorSpace::Srgb) <==> (k == "srgb"@),
        color_space_for_key(k) == Some(RgbColorSpace::ProPhotoRgb) <==> (k == "prophoto"@ || k == "prophotorgb"@ || k == "romm"@ || k == "rommrgb"@),
        color_space_for_key(k) == Some(RgbColorSpace::Rec2020) <==> (k == "rec2020"@ || k == "bt2020"@ || k == "iturbt2020"@ || k == "itur2020"@ || k == "rec2100"@),
        color_space_for_key(k) == Some(RgbColorSpace::DisplayP3) <==> (k == "displayp3"@ || k == "p3"@ || k == "dcip3d65"@),
        color_space_for_key(k) == Some(RgbColorSpace::Aces2065_1) <==> (k == "aces20651"@ || k == "aces2065"@ || k == "aces"@ || k == "acesap0"@),
        color_space_for_key(k) is None <==> !(k == "srgb"@ || k == "prophoto"@ || k == "prophotorgb"@ || k == "romm"@ || k == "rommrgb"@ || k == "rec2020"@ || k == "bt2020"@ || k == "iturbt2020"@ || k == "itur2020"@ || k == "rec2100"@ || k == "displayp3"@ || k == "p3"@ || k == "dcip3d65"@ || k == "aces20651"@ || k == "aces2065"@ || k == "aces"@ || k == "acesap0"@),
{
    reveal_strlit("aces");
    reveal_strlit("aces2065");
    reveal_strlit("aces20651");
    reveal_strlit("acesap0");
    reveal_strlit("bt2020");
    reveal_strlit("dcip3d65");
    reveal_strlit("displayp3");
    reveal_strlit("itur2020");
    reveal_strlit("iturbt2020");
    reveal_strlit("p3");
    reveal_strlit("prophoto");
    reveal_strlit("prophotorgb");
    reveal_strlit("rec2020");
    reveal_strlit("rec2100");
    reveal_strlit("romm");
    reveal_strlit("rommrgb");
    reveal_strlit("srgb");
    assert("p3"@.len() == 2);
    assert("srgb"@.len() == 4 && "romm"@.len() == 4 && "aces"@.len() == 4);
    assert("srgb"@[0] != "romm"@[0]);
    assert("srgb"@[0] != "aces"@[0]);
    assert("romm"@[0] != "aces"@[0]);
    assert("bt2020"@.len() == 6);
    assert("rommrgb"@.len() == 7 && "rec2020"@.len() == 7 && "rec2100"@.len() == 7 && "acesap0"@.len() == 7);
    assert("rommrgb"@[1] != "rec2020"@[1]);
    assert("rommrgb"@[1] != "rec2100"@[1]);
    assert("rommrgb"@[0] != "acesap0"@[0]);
    assert("rec2020"@[4] != "rec2100"@[4]);
    assert("rec2020"@[0] != "acesap0"@[0]);
    assert("rec2100"@[0] != "acesap0"@[0]);
    assert("prophoto"@.len() == 8 && "itur2020"@.len() == 8 && "dcip3d65"@.len() == 8 && "aces2065"@.len() == 8);
    assert("prophoto"@[0] != "itur2020"@[0]);
    assert("prophoto"@[0] != "dcip3d65"@[0]);
    assert("prophoto"@[0] != "aces2065"@[0]);
    assert("itur2020"@[0] != "dcip3d65"@[0]);
    assert("itur2020"@[0] != "aces2065"@[0]);
    assert("dcip3d65"@[0] != "aces2065"@[0]);
    assert("displayp3"@.len() == 9 && "aces20651"@.len() == 9);
    assert("displayp3"@[0] != "aces20651"@[0]);
    assert("iturbt2020"@.len() == 10);
    assert("prophotorgb"@.len() == 11);
}

} // verus!
