//! Known film stock and print paper names.
//!
//! Each stock has a canonical profile name; the enums below convert between
//! the enum value and that name in both directions.

use vstd::prelude::*;
use crate::utils::text::str_eq;

verus! {

// Profile field values.

pub const PROFILE_TYPE_NEGATIVE: &'static str = "negative";
pub const PROFILE_TYPE_POSITIVE: &'static str = "positive";
pub const PROFILE_SUPPORT_FILM: &'static str = "film";
pub const PROFILE_SUPPORT_PAPER: &'static str = "paper";
pub const PROFILE_STAGE_FILMING: &'static str = "filming";
pub const PROFILE_STAGE_PRINTING: &'static str = "printing";
pub const PROFILE_USE_STILL: &'static str = "still";
pub const PROFILE_USE_CINE: &'static str = "cine";
pub const PROFILE_ANTIHALATION_STRONG: &'static str = "strong";
pub const PROFILE_ANTIHALATION_WEAK: &'static str = "weak";
pub const PROFILE_ANTIHALATION_NO: &'static str = "no";
pub const PROFILE_CHANNEL_MODEL_COLOR: &'static str = "color";
pub const PROFILE_CHANNEL_MODEL_BW: &'static str = "bw";

// Film stock names.

pub const KODAK_EKTAR_100: &'static str = "kodak_ektar_100";
pub const KODAK_PORTRA_160: &'static str = "kodak_portra_160";
pub const KODAK_PORTRA_400: &'static str = "kodak_portra_400";
pub const KODAK_PORTRA_800: &'static str = "kodak_portra_800";
pub const KODAK_PORTRA_800_PUSH1: &'static str = "kodak_portra_800_push1";
pub const KODAK_PORTRA_800_PUSH2: &'static str = "kodak_portra_800_push2";
pub const KODAK_GOLD_200: &'static str = "kodak_gold_200";
pub const KODAK_ULTRAMAX_400: &'static str = "kodak_ultramax_400";
pub const KODAK_VISION3_50D: &'static str = "kodak_vision3_50d";
pub const KODAK_VISION3_250D: &'static str = "kodak_vision3_250d";
pub const KODAK_VERITA_200D: &'static str = "kodak_verita_200d";
pub const KODAK_VISION3_200T: &'static str = "kodak_vision3_200t";
pub const KODAK_VISION3_500T: &'static str = "kodak_vision3_500t";
pub const FUJIFILM_PRO_400H: &'static str = "fujifilm_pro_400h";
pub const FUJIFILM_C200: &'static str = "fujifilm_c200";
pub const FUJIFILM_XTRA_400: &'static str = "fujifilm_xtra_400";
pub const KODAK_EKTACHROME_100: &'static str = "kodak_ektachrome_100";
pub const KODAK_KODACHROME_64: &'static str = "kodak_kodachrome_64";
pub const FUJIFILM_VELVIA_100: &'static str = "fujifilm_velvia_100";
pub const FUJIFILM_PROVIA_100F: &'static str = "fujifilm_provia_100f";

pub const FILM_STOCK_NAMES: [&'static str; 20] = [
    KODAK_EKTAR_100,
    KODAK_PORTRA_160,
    KODAK_PORTRA_400,
    KODAK_PORTRA_800,
    KODAK_PORTRA_800_PUSH1,
    KODAK_PORTRA_800_PUSH2,
    KODAK_GOLD_200,
    KODAK_ULTRAMAX_400,
    KODAK_VISION3_50D,
    KODAK_VISION3_250D,
    KODAK_VERITA_200D,
    KODAK_VISION3_200T,
    KODAK_VISION3_500T,
    FUJIFILM_PRO_400H,
    FUJIFILM_C200,
    FUJIFILM_XTRA_400,
    KODAK_EKTACHROME_100,
    KODAK_KODACHROME_64,
    FUJIFILM_VELVIA_100,
    FUJIFILM_PROVIA_100F,
];

/// Known film stocks.
#[derive(Debug, Clone, Copy, PartialEq, Eq, Hash, Structural)]
pub enum FilmStock {
    KodakEktar100,
    KodakPortra160,
    KodakPortra400,
    KodakPortra800,
    KodakPortra800Push1,
    KodakPortra800Push2,
    KodakGold200,
    KodakUltramax400,
    KodakVision350D,
    KodakVision3250D,
    KodakVerita200D,
    KodakVision3200T,
    KodakVision3500T,
    FujifilmPro400H,
    FujifilmC200,
    FujifilmXtra400,
    KodakEktachrome100,
    KodakKodachrome64,
    FujifilmVelvia100,
    FujifilmProvia100F,
}

/// The canonical profile name of a film stock.
pub open spec fn film_stock_name(s: FilmStock) -> Seq<char> {
    match s {
        FilmStock::KodakEktar100 => KODAK_EKTAR_100@,
        FilmStock::KodakPortra160 => KODAK_PORTRA_160@,
        FilmStock::KodakPortra400 => KODAK_PORTRA_400@,
        FilmStock::KodakPortra800 => KODAK_PORTRA_800@,
        FilmStock::KodakPortra800Push1 => KODAK_PORTRA_800_PUSH1@,
        FilmStock::KodakPortra800Push2 => KODAK_PORTRA_800_PUSH2@,
        FilmStock::KodakGold200 => KODAK_GOLD_200@,
        FilmStock::KodakUltramax400 => KODAK_ULTRAMAX_400@,
        FilmStock::KodakVision350D => KODAK_VISION3_50D@,
        FilmStock::KodakVision3250D => KODAK_VISION3_250D@,
        FilmStock::KodakVerita200D => KODAK_VERITA_200D@,
        FilmStock::KodakVision3200T => KODAK_VISION3_200T@,
        FilmStock::KodakVision3500T => KODAK_VISION3_500T@,
        FilmStock::FujifilmPro400H => FUJIFILM_PRO_400H@,
        FilmStock::FujifilmC200 => FUJIFILM_C200@,
        FilmStock::FujifilmXtra400 => FUJIFILM_XTRA_400@,
        FilmStock::KodakEktachrome100 => KODAK_EKTACHROME_100@,
        FilmStock::KodakKodachrome64 => KODAK_KODACHROME_64@,
        FilmStock::FujifilmVelvia100 => FUJIFILM_VELVIA_100@,
        FilmStock::FujifilmProvia100F => FUJIFILM_PROVIA_100F@,
    }
}

/// The canonical name of a film stock, as the constant that holds it.
pub open spec fn film_stock_str(s: FilmStock) -> &'static str {
    match s {
        FilmStock::KodakEktar100 => KODAK_EKTAR_100,
        FilmStock::KodakPortra160 => KODAK_PORTRA_160,
        FilmStock::KodakPortra400 => KODAK_PORTRA_400,
        FilmStock::KodakPortra800 => KODAK_PORTRA_800,
        FilmStock::KodakPortra800Push1 => KODAK_PORTRA_800_PUSH1,
        FilmStock::KodakPortra800Push2 => KODAK_PORTRA_800_PUSH2,
        FilmStock::KodakGold200 => KODAK_GOLD_200,
        FilmStock::KodakUltramax400 => KODAK_ULTRAMAX_400,
        FilmStock::KodakVision350D => KODAK_VISION3_50D,
        FilmStock::KodakVision3250D => KODAK_VISION3_250D,
        FilmStock::KodakVerita200D => KODAK_VERITA_200D,
        FilmStock::KodakVision3200T => KODAK_VISION3_200T,
        FilmStock::KodakVision3500T => KODAK_VISION3_500T,
        FilmStock::FujifilmPro400H => FUJIFILM_PRO_400H,
        FilmStock::FujifilmC200 => FUJIFILM_C200,
        FilmStock::FujifilmXtra400 => FUJIFILM_XTRA_400,
        FilmStock::KodakEktachrome100 => KODAK_EKTACHROME_100,
        FilmStock::KodakKodachrome64 => KODAK_KODACHROME_64,
        FilmStock::FujifilmVelvia100 => FUJIFILM_VELVIA_100,
        FilmStock::FujifilmProvia100F => FUJIFILM_PROVIA_100F,
    }
}

/// Every film stock, in the canonical listing order.
pub open spec fn film_stocks_in_order() -> Seq<FilmStock> {
    seq![
        FilmStock::KodakEktar100,
        FilmStock::KodakPortra160,
        FilmStock::KodakPortra400,
        FilmStock::KodakPortra800,
        FilmStock::KodakPortra800Push1,
        FilmStock::KodakPortra800Push2,
        FilmStock::KodakGold200,
        FilmStock::KodakUltramax400,
        FilmStock::KodakVision350D,
        FilmStock::KodakVision3250D,
        FilmStock::KodakVerita200D,
        FilmStock::KodakVision3200T,
        FilmStock::KodakVision3500T,
        FilmStock::FujifilmPro400H,
        FilmStock::FujifilmC200,
        FilmStock::FujifilmXtra400,
        FilmStock::KodakEktachrome100,
        FilmStock::KodakKodachrome64,
        FilmStock::FujifilmVelvia100,
        FilmStock::FujifilmProvia100F,
    ]
}

/// The film stock whose canonical name is `name`, if there is one.
pub open spec fn film_stock_named(name: Seq<char>) -> Option<FilmStock> {
    if exists|s: FilmStock| film_stock_name(s) == name {
        Some(choose|s: FilmStock| film_stock_name(s) == name)
    } else {
        None
    }
}

impl FilmStock {
    pub const ALL: [FilmStock; 20] = [
        FilmStock::KodakEktar100,
        FilmStock::KodakPortra160,
        FilmStock::KodakPortra400,
        FilmStock::KodakPortra800,
        FilmStock::KodakPortra800Push1,
        FilmStock::KodakPortra800Push2,
        FilmStock::KodakGold200,
        FilmStock::KodakUltramax400,
        FilmStock::KodakVision350D,
        FilmStock::KodakVision3250D,
        FilmStock::KodakVerita200D,
        FilmStock::KodakVision3200T,
        FilmStock::KodakVision3500T,
        FilmStock::FujifilmPro400H,
        FilmStock::FujifilmC200,
        FilmStock::FujifilmXtra400,
        FilmStock::KodakEktachrome100,
        FilmStock::KodakKodachrome64,
        FilmStock::FujifilmVelvia100,
        FilmStock::FujifilmProvia100F,
    ];

    /// The canonical profile name of this stock.
    pub fn as_str(self) -> (r: &'static str)
        ensures
            r@ == film_stock_name(self),
            r == film_stock_str(self),
    {
        match self {
            FilmStock::KodakEktar100 => KODAK_EKTAR_100,
            FilmStock::KodakPortra160 => KODAK_PORTRA_160,
            FilmStock::KodakPortra400 => KODAK_PORTRA_400,
            FilmStock::KodakPortra800 => KODAK_PORTRA_800,
            FilmStock::KodakPortra800Push1 => KODAK_PORTRA_800_PUSH1,
            FilmStock::KodakPortra800Push2 => KODAK_PORTRA_800_PUSH2,
            FilmStock::KodakGold200 => KODAK_GOLD_200,
            FilmStock::KodakUltramax400 => KODAK_ULTRAMAX_400,
            FilmStock::KodakVision350D => KODAK_VISION3_50D,
            FilmStock::KodakVision3250D => KODAK_VISION3_250D,
            FilmStock::KodakVerita200D => KODAK_VERITA_200D,
            FilmStock::KodakVision3200T => KODAK_VISION3_200T,
            FilmStock::KodakVision3500T => KODAK_VISION3_500T,
            FilmStock::FujifilmPro400H => FUJIFILM_PRO_400H,
            FilmStock::FujifilmC200 => FUJIFILM_C200,
            FilmStock::FujifilmXtra400 => FUJIFILM_XTRA_400,
            FilmStock::KodakEktachrome100 => KODAK_EKTACHROME_100,
            FilmStock::KodakKodachrome64 => KODAK_KODACHROME_64,
            FilmStock::FujifilmVelvia100 => FUJIFILM_VELVIA_100,
            FilmStock::FujifilmProvia100F => FUJIFILM_PROVIA_100F,
        }
    }

    /// The stock whose canonical name is `name`; `None` for any other name.
    pub fn from_name(name: &str) -> (r: Option<FilmStock>)
        ensures
            r == film_stock_named(name@),
    {
        proof { lemma_stock_names_distinct(); }

        if str_eq(name, KODAK_EKTAR_100) {
            assert(film_stock_name(FilmStock::KodakEktar100) == name@);
            return Some(FilmStock::KodakEktar100);
        }
        if str_eq(name, KODAK_PORTRA_160) {
            assert(film_stock_name(FilmStock::KodakPortra160) == name@);
            return Some(FilmStock::KodakPortra160);
        }
        if str_eq(name, KODAK_PORTRA_400) {
            assert(film_stock_name(FilmStock::KodakPortra400) == name@);
            return Some(FilmStock::KodakPortra400);
        }
        if str_eq(name, KODAK_PORTRA_800) {
            assert(film_stock_name(FilmStock::KodakPortra800) == name@);
            return Some(FilmStock::KodakPortra800);
        }
        if str_eq(name, KODAK_PORTRA_800_PUSH1) {
            assert(film_stock_name(FilmStock::KodakPortra800Push1) == name@);
            return Some(FilmStock::KodakPortra800Push1);
        }
        if str_eq(name, KODAK_PORTRA_800_PUSH2) {
            assert(film_stock_name(FilmStock::KodakPortra800Push2) == name@);
            return Some(FilmStock::KodakPortra800Push2);
        }
        if str_eq(name, KODAK_GOLD_200) {
            assert(film_stock_name(FilmStock::KodakGold200) == name@);
            return Some(FilmStock::KodakGold200);
        }
        if str_eq(name, KODAK_ULTRAMAX_400) {
            assert(film_stock_name(FilmStock::KodakUltramax400) == name@);
            return Some(FilmStock::KodakUltramax400);
        }
        if str_eq(name, KODAK_VISION3_50D) {
            assert(film_stock_name(FilmStock::KodakVision350D) == name@);
            return Some(FilmStock::KodakVision350D);
        }
        if str_eq(name, KODAK_VISION3_250D) {
            assert(film_stock_name(FilmStock::KodakVision3250D) == name@);
            return Some(FilmStock::KodakVision3250D);
        }
        if str_eq(name, KODAK_VERITA_200D) {
            assert(film_stock_name(FilmStock::KodakVerita200D) == name@);
            return Some(FilmStock::KodakVerita200D);
        }
        if str_eq(name, KODAK_VISION3_200T) {
            assert(film_stock_name(FilmStock::KodakVision3200T) == name@);
            return Some(FilmStock::KodakVision3200T);
        }
        if str_eq(name, KODAK_VISION3_500T) {
            assert(film_stock_name(FilmStock::KodakVision3500T) == name@);
            return Some(FilmStock::KodakVision3500T);
        }
        if str_eq(name, FUJIFILM_PRO_400H) {
            assert(film_stock_name(FilmStock::FujifilmPro400H) == name@);
            return Some(FilmStock::FujifilmPro400H);
        }
        if str_eq(name, FUJIFILM_C200) {
            assert(film_stock_name(FilmStock::FujifilmC200) == name@);
            return Some(FilmStock::FujifilmC200);
        }
        if str_eq(name, FUJIFILM_XTRA_400) {
            assert(film_stock_name(FilmStock::FujifilmXtra400) == name@);
            return Some(FilmStock::FujifilmXtra400);
        }
        if str_eq(name, KODAK_EKTACHROME_100) {
            assert(film_stock_name(FilmStock::KodakEktachrome100) == name@);
            return Some(FilmStock::KodakEktachrome100);
        }
        if str_eq(name, KODAK_KODACHROME_64) {
            assert(film_stock_name(FilmStock::KodakKodachrome64) == name@);
            return Some(FilmStock::KodakKodachrome64);
        }
        if str_eq(name, FUJIFILM_VELVIA_100) {
            assert(film_stock_name(FilmStock::FujifilmVelvia100) == name@);
            return Some(FilmStock::FujifilmVelvia100);
        }
        if str_eq(name, FUJIFILM_PROVIA_100F) {
            assert(film_stock_name(FilmStock::FujifilmProvia100F) == name@);
            return Some(FilmStock::FujifilmProvia100F);
        }
        None
    }
}

// Print paper names.

pub const KODAK_ULTRA_ENDURA: &'static str = "kodak_ultra_endura";
pub const KODAK_ENDURA_PREMIER: &'static str = "kodak_endura_premier";
pub const KODAK_EKTACOLOR_EDGE: &'static str = "kodak_ektacolor_edge";
pub const KODAK_SUPRA_ENDURA: &'static str = "kodak_supra_endura";
pub const KODAK_PORTRA_ENDURA: &'static str = "kodak_portra_endura";
pub const FUJIFILM_CRYSTAL_ARCHIVE_TYPEII: &'static str = "fujifilm_crystal_archive_typeii";
pub const KODAK_2383: &'static str = "kodak_2383";
pub const KODAK_2393: &'static str = "kodak_2393";

pub const PRINT_PAPER_NAMES: [&'static str; 8] = [
    KODAK_ULTRA_ENDURA,
    KODAK_ENDURA_PREMIER,
    KODAK_EKTACOLOR_EDGE,
    KODAK_SUPRA_ENDURA,
    KODAK_PORTRA_ENDURA,
    FUJIFILM_CRYSTAL_ARCHIVE_TYPEII,
    KODAK_2383,
    KODAK_2393,
];

/// Known print papers.
#[derive(Debug, Clone, Copy, PartialEq, Eq, Hash, Structural)]
pub enum PrintPaper {
    KodakUltraEndura,
    KodakEnduraPremier,
    KodakEktacolorEdge,
    KodakSupraEndura,
    KodakPortraEndura,
    FujifilmCrystalArchiveTypeIi,
    Kodak2383,
    Kodak2393,
}

/// The canonical profile name of a print paper.
pub open spec fn print_paper_name(p: PrintPaper) -> Seq<char> {
    match p {
        PrintPaper::KodakUltraEndura => KODAK_ULTRA_ENDURA@,
        PrintPaper::KodakEnduraPremier => KODAK_ENDURA_PREMIER@,
        PrintPaper::KodakEktacolorEdge => KODAK_EKTACOLOR_EDGE@,
        PrintPaper::KodakSupraEndura => KODAK_SUPRA_ENDURA@,
        PrintPaper::KodakPortraEndura => KODAK_PORTRA_ENDURA@,
        PrintPaper::FujifilmCrystalArchiveTypeIi => FUJIFILM_CRYSTAL_ARCHIVE_TYPEII@,
        PrintPaper::Kodak2383 => KODAK_2383@,
        PrintPaper::Kodak2393 => KODAK_2393@,
    }
}

/// The canonical name of a print paper, as the constant that holds it.
pub open spec fn print_paper_str(p: PrintPaper) -> &'static str {
    match p {
        PrintPaper::KodakUltraEndura => KODAK_ULTRA_ENDURA,
        PrintPaper::KodakEnduraPremier => KODAK_ENDURA_PREMIER,
        PrintPaper::KodakEktacolorEdge => KODAK_EKTACOLOR_EDGE,
        PrintPaper::KodakSupraEndura => KODAK_SUPRA_ENDURA,
        PrintPaper::KodakPortraEndura => KODAK_PORTRA_ENDURA,
        PrintPaper::FujifilmCrystalArchiveTypeIi => FUJIFILM_CRYSTAL_ARCHIVE_TYPEII,
        PrintPaper::Kodak2383 => KODAK_2383,
        PrintPaper::Kodak2393 => KODAK_2393,
    }
}

/// Every print paper, in the canonical listing order.
pub open spec fn print_papers_in_order() -> Seq<PrintPaper> {
    seq![
        PrintPaper::KodakUltraEndura,
        PrintPaper::KodakEnduraPremier,
        PrintPaper::KodakEktacolorEdge,
        PrintPaper::KodakSupraEndura,
        PrintPaper::KodakPortraEndura,
        PrintPaper::FujifilmCrystalArchiveTypeIi,
        PrintPaper::Kodak2383,
        PrintPaper::Kodak2393,
    ]
}

/// The print paper whose canonical name is `name`, if there is one.
pub open spec fn print_paper_named(name: Seq<char>) -> Option<PrintPaper> {
    if exists|p: PrintPaper| print_paper_name(p) == name {
        Some(choose|p: PrintPaper| print_paper_name(p) == name)
    } else {
        None
    }
}

impl PrintPaper {
    pub const ALL: [PrintPaper; 8] = [
        PrintPaper::KodakUltraEndura,
        PrintPaper::KodakEnduraPremier,
        PrintPaper::KodakEktacolorEdge,
        PrintPaper::KodakSupraEndura,
        PrintPaper::KodakPortraEndura,
        PrintPaper::FujifilmCrystalArchiveTypeIi,
        PrintPaper::Kodak2383,
        PrintPaper::Kodak2393,
    ];

    /// The canonical profile name of this paper.
    pub fn as_str(self) -> (r: &'static str)
        ensures
            r@ == print_paper_name(self),
            r == print_paper_str(self),
    {
        match self {
            PrintPaper::KodakUltraEndura => KODAK_ULTRA_ENDURA,
            PrintPaper::KodakEnduraPremier => KODAK_ENDURA_PREMIER,
            PrintPaper::KodakEktacolorEdge => KODAK_EKTACOLOR_EDGE,
            PrintPaper::KodakSupraEndura => KODAK_SUPRA_ENDURA,
            PrintPaper::KodakPortraEndura => KODAK_PORTRA_ENDURA,
            PrintPaper::FujifilmCrystalArchiveTypeIi => FUJIFILM_CRYSTAL_ARCHIVE_TYPEII,
            PrintPaper::Kodak2383 => KODAK_2383,
            PrintPaper::Kodak2393 => KODAK_2393,
        }
    }

    /// The paper whose canonical name is `name`; `None` for any other name.
    pub fn from_name(name: &str) -> (r: Option<PrintPaper>)
        ensures
            r == print_paper_named(name@),
    {
        proof { lemma_stock_names_distinct(); }

        if str_eq(name, KODAK_ULTRA_ENDURA) {
            assert(print_paper_name(PrintPaper::KodakUltraEndura) == name@);
            return Some(PrintPaper::KodakUltraEndura);
        }
        if str_eq(name, KODAK_ENDURA_PREMIER) {
            assert(print_paper_name(PrintPaper::KodakEnduraPremier) == name@);
            return Some(PrintPaper::KodakEnduraPremier);
        }
        if str_eq(name, KODAK_EKTACOLOR_EDGE) {
            assert(print_paper_name(PrintPaper::KodakEktacolorEdge) == name@);
            return Some(PrintPaper::KodakEktacolorEdge);
        }
        if str_eq(name, KODAK_SUPRA_ENDURA) {
            assert(print_paper_name(PrintPaper::KodakSupraEndura) == name@);
            return Some(PrintPaper::KodakSupraEndura);
        }
        if str_eq(name, KODAK_PORTRA_ENDURA) {
            assert(print_paper_name(PrintPaper::KodakPortraEndura) == name@);
            return Some(PrintPaper::KodakPortraEndura);
        }
        if str_eq(name, FUJIFILM_CRYSTAL_ARCHIVE_TYPEII) {
            assert(print_paper_name(PrintPaper::FujifilmCrystalArchiveTypeIi) == name@);
            return Some(PrintPaper::FujifilmCrystalArchiveTypeIi);
        }
        if str_eq(name, KODAK_2383) {
            assert(print_paper_name(PrintPaper::Kodak2383) == name@);
            return Some(PrintPaper::Kodak2383);
        }
        if str_eq(name, KODAK_2393) {
            assert(print_paper_name(PrintPaper::Kodak2393) == name@);
            return Some(PrintPaper::Kodak2393);
        }
        None
    }
}

/// Error returned when a name is neither a known film stock nor a known
/// print paper.
#[derive(Debug, Clone, Copy, PartialEq, Eq, Hash, Structural)]
pub struct UnknownStockName;

impl FilmStock {
    /// Parse a film stock name, failing with `UnknownStockName`.
    pub fn parse_name(s: &str) -> (r: Result<FilmStock, UnknownStockName>)
        ensures
            r == (match film_stock_named(s@) {
                Some(f) => Ok(f),
                None => Err(UnknownStockName),
            }),
    {
        match FilmStock::from_name(s) {
            Some(f) => Ok(f),
            None => Err(UnknownStockName),
        }
    }
}

impl PrintPaper {
    /// Parse a print paper name, failing with `UnknownStockName`.
    pub fn parse_name(s: &str) -> (r: Result<PrintPaper, UnknownStockName>)
        ensures
            r == (match print_paper_named(s@) {
                Some(p) => Ok(p),
                None => Err(UnknownStockName),
            }),
    {
        match PrintPaper::from_name(s) {
            Some(p) => Ok(p),
            None => Err(UnknownStockName),
        }
    }
}

/// All known film stock profile names, in canonical order.
pub fn all_film_stock_names() -> (r: &'static [&'static str; 20])
    ensures
        r@.len() == 20,
        forall|i: int| 0 <= i < 20 ==> (#[trigger] r@[i])@ == film_stock_name(film_stocks_in_order()[i]),
        r@ == FILM_STOCK_NAMES@,
{
    &FILM_STOCK_NAMES
}

/// All known print paper profile names, in canonical order.
pub fn all_print_paper_names() -> (r: &'static [&'static str; 8])
    ensures
        r@.len() == 8,
        forall|i: int| 0 <= i < 8 ==> (#[trigger] r@[i])@ == print_paper_name(print_papers_in_order()[i]),
        r@ == PRINT_PAPER_NAMES@,
{
    &PRINT_PAPER_NAMES
}

/// The name of the `i`-th known stock: film stocks first, then print papers.
pub open spec fn known_stock_name(i: int) -> Seq<char> {
    if i < 20 {
        film_stock_name(film_stocks_in_order()[i])
    } else {
        print_paper_name(print_papers_in_order()[i - 20])
    }
}

/// All known profile names: the film stocks followed by the print papers.
pub fn all_known_stock_names() -> (r: Vec<&'static str>)
    ensures
        r@.len() == 28,
        forall|i: int| 0 <= i < 28 ==> (#[trigger] r@[i])@ == known_stock_name(i),
        r@ == FILM_STOCK_NAMES@ + PRINT_PAPER_NAMES@,
{
    let films = all_film_stock_names();
    let papers = all_print_paper_names();
    let mut out: Vec<&'static str> = Vec::new();
    let mut i: usize = 0;
    while i < 20
        invariant
            0 <= i <= 20,
            films@.len() == 20,
            forall|k: int| 0 <= k < 20 ==> (#[trigger] films@[k])@ == film_stock_name(film_stocks_in_order()[k]),
            films@ == FILM_STOCK_NAMES@,
            out@ == FILM_STOCK_NAMES@.subrange(0, i as int),
            out@.len() == i,
            forall|k: int| 0 <= k < i ==> (#[trigger] out@[k])@ == known_stock_name(k),
        decreases 20 - i,
    {
        out.push(films[i]);
        proof {
            assert(FILM_STOCK_NAMES@.subrange(0, i + 1) =~= FILM_STOCK_NAMES@.subrange(0, i as int).push(
                FILM_STOCK_NAMES@[i as int],
            ));
        }
        i = i + 1;
    }
    let mut j: usize = 0;
    while j < 8
        invariant
            0 <= j <= 8,
            papers@.len() == 8,
            forall|k: int| 0 <= k < 8 ==> (#[trigger] papers@[k])@ == print_paper_name(print_papers_in_order()[k]),
            papers@ == PRINT_PAPER_NAMES@,
            out@ == FILM_STOCK_NAMES@ + PRINT_PAPER_NAMES@.subrange(0, j as int),
            out@.len() == 20 + j,
            forall|k: int| 0 <= k < 20 + j ==> (#[trigger] out@[k])@ == known_stock_name(k),
        decreases 8 - j,
    {
        out.push(papers[j]);
        proof {
            assert(FILM_STOCK_NAMES@ + PRINT_PAPER_NAMES@.subrange(0, j + 1) =~= (FILM_STOCK_NAMES@
                + PRINT_PAPER_NAMES@.subrange(0, j as int)).push(PRINT_PAPER_NAMES@[j as int]));
        }
        j = j + 1;
    }
    proof {
        assert(FILM_STOCK_NAMES@.subrange(0, 20) =~= FILM_STOCK_NAMES@);
        assert(PRINT_PAPER_NAMES@.subrange(0, 8) =~= PRINT_PAPER_NAMES@);
    }
    out
}

/// A few characters that tell the known stock names apart: the length, the
/// ninth character and the first, third and fourth characters from the end.
spec fn name_key(s: Seq<char>) -> (int, char, char, char, char) {
    (s.len() as int, s[8], s[s.len() - 1], s[s.len() - 3], s[s.len() - 4])
}

spec fn film_stock_key(s: FilmStock) -> (int, char, char, char, char) {
    match s {
        FilmStock::KodakEktar100 => (15int, 't', '0', '1', '_'),
        FilmStock::KodakPortra160 => (16int, 'r', '0', '1', '_'),
        FilmStock::KodakPortra400 => (16int, 'r', '0', '4', '_'),
        FilmStock::KodakPortra800 => (16int, 'r', '0', '8', '_'),
        FilmStock::KodakPortra800Push1 => (22int, 'r', '1', 's', 'u'),
        FilmStock::KodakPortra800Push2 => (22int, 'r', '2', 's', 'u'),
        FilmStock::KodakGold200 => (14int, 'l', '0', '2', '_'),
        FilmStock::KodakUltramax400 => (18int, 't', '0', '4', '_'),
        FilmStock::KodakVision350D => (17int, 's', 'd', '5', '_'),
        FilmStock::KodakVision3250D => (18int, 's', 'd', '5', '2'),
        FilmStock::KodakVerita200D => (17int, 'r', 'd', '0', '2'),
        FilmStock::KodakVision3200T => (18int, 's', 't', '0', '2'),
        FilmStock::KodakVision3500T => (18int, 's', 't', '0', '5'),
        FilmStock::FujifilmPro400H => (17int, '_', 'h', '0', '4'),
        FilmStock::FujifilmC200 => (13int, '_', '0', '2', 'c'),
        FilmStock::FujifilmXtra400 => (17int, '_', '0', '4', '_'),
        FilmStock::KodakEktachrome100 => (20int, 't', '0', '1', '_'),
        FilmStock::KodakKodachrome64 => (19int, 'd', '4', '_', 'e'),
        FilmStock::FujifilmVelvia100 => (19int, '_', '0', '1', '_'),
        FilmStock::FujifilmProvia100F => (20int, '_', 'f', '0', '1'),
    }
}

spec fn print_paper_key(p: PrintPaper) -> (int, char, char, char, char) {
    match p {
        PrintPaper::KodakUltraEndura => (18int, 't', 'a', 'u', 'd'),
        PrintPaper::KodakEnduraPremier => (20int, 'd', 'r', 'i', 'm'),
        PrintPaper::KodakEktacolorEdge => (20int, 't', 'e', 'd', 'e'),
        PrintPaper::KodakSupraEndura => (18int, 'p', 'a', 'u', 'd'),
        PrintPaper::KodakPortraEndura => (19int, 'r', 'a', 'u', 'd'),
        PrintPaper::FujifilmCrystalArchiveTypeIi => (31int, '_', 'i', 'e', 'p'),
        PrintPaper::Kodak2383 => (10int, '8', '3', '3', '2'),
        PrintPaper::Kodak2393 => (10int, '9', '3', '3', '2'),
    }
}

proof fn lemma_name_keys()
    ensures
        forall|s: FilmStock| name_key(#[trigger] film_stock_name(s)) == film_stock_key(s),
        forall|p: PrintPaper| name_key(#[trigger] print_paper_name(p)) == print_paper_key(p),
{
    reveal_strlit("kodak_ektar_100");
    reveal_strlit("kodak_portra_160");
    reveal_strlit("kodak_portra_400");
    reveal_strlit("kodak_portra_800");
    reveal_strlit("kodak_portra_800_push1");
    reveal_strlit("kodak_portra_800_push2");
    reveal_strlit("kodak_gold_200");
    reveal_strlit("kodak_ultramax_400");
    reveal_strlit("kodak_vision3_50d");
    reveal_strlit("kodak_vision3_250d");
    reveal_strlit("kodak_verita_200d");
    reveal_strlit("kodak_vision3_200t");
    reveal_strlit("kodak_vision3_500t");
    reveal_strlit("fujifilm_pro_400h");
    reveal_strlit("fujifilm_c200");
    reveal_strlit("fujifilm_xtra_400");
    reveal_strlit("kodak_ektachrome_100");
    reveal_strlit("kodak_kodachrome_64");
    reveal_strlit("fujifilm_velvia_100");
    reveal_strlit("fujifilm_provia_100f");
    reveal_strlit("kodak_ultra_endura");
    reveal_strlit("kodak_endura_premier");
    reveal_strlit("kodak_ektacolor_edge");
    reveal_strlit("kodak_supra_endura");
    reveal_strlit("kodak_portra_endura");
    reveal_strlit("fujifilm_crystal_archive_typeii");
    reveal_strlit("kodak_2383");
    reveal_strlit("kodak_2393");
}

/// No two known stocks share a name: the film stocks have pairwise distinct
/// names, so have the print papers, and no film stock is named like a paper.
pub proof fn lemma_stock_names_distinct()
    ensures
        forall|a: FilmStock, b: FilmStock| a != b ==> film_stock_name(a) != film_stock_name(b),
        forall|a: PrintPaper, b: PrintPaper| a != b ==> print_paper_name(a) != print_paper_name(b),
        forall|a: FilmStock, b: PrintPaper| film_stock_name(a) != print_paper_name(b),
{
    lemma_name_keys();
    assert forall|a: FilmStock, b: FilmStock| a != b implies film_stock_name(a) != film_stock_name(b) by {
        assert(name_key(film_stock_name(a)) == film_stock_key(a));
        assert(name_key(film_stock_name(b)) == film_stock_key(b));
    }
    assert forall|a: PrintPaper, b: PrintPaper| a != b implies print_paper_name(a) != print_paper_name(b) by {
        assert(name_key(print_paper_name(a)) == print_paper_key(a));
        assert(name_key(print_paper_name(b)) == print_paper_key(b));
    }
    assert forall|a: FilmStock, b: PrintPaper| film_stock_name(a) != print_paper_name(b) by {
        assert(name_key(film_stock_name(a)) == film_stock_key(a));
        assert(name_key(print_paper_name(b)) == print_paper_key(b));
    }
}

/// Looking up a stock by its canonical name gives back that stock, and a
/// name that a lookup accepts is the canonical name of what it returns.
pub proof fn lemma_stock_name_round_trip()
    ensures
        forall|f: FilmStock| #[trigger] film_stock_named(film_stock_name(f)) == Some(f),
        forall|p: PrintPaper| #[trigger] print_paper_named(print_paper_name(p)) == Some(p),
        forall|n: Seq<char>| #[trigger] film_stock_named(n) is Some ==> film_stock_name(film_stock_named(n)->0) == n,
        forall|n: Seq<char>| #[trigger] print_paper_named(n) is Some ==> print_paper_name(print_paper_named(n)->0) == n,
{
    lemma_stock_names_distinct();
    assert forall|f: FilmStock| #[trigger] film_stock_named(film_stock_name(f)) == Some(f) by {
        assert(film_stock_name(f) == film_stock_name(f));
    }
    assert forall|p: PrintPaper| #[trigger] print_paper_named(print_paper_name(p)) == Some(p) by {
        assert(print_paper_name(p) == print_paper_name(p));
    }
}

impl std::str::FromStr for FilmStock {
    type Err = UnknownStockName;

    fn from_str(s: &str) -> (r: Result<FilmStock, UnknownStockName>)
        ensures
            r == (match film_stock_named(s@) {
                Some(f) => Ok(f),
                None => Err(UnknownStockName),
            }),
    {
        FilmStock::parse_name(s)
    }
}

impl std::str::FromStr for PrintPaper {
    type Err = UnknownStockName;

    fn from_str(s: &str) -> (r: Result<PrintPaper, UnknownStockName>)
        ensures
            r == (match print_paper_named(s@) {
                Some(p) => Ok(p),
                None => Err(UnknownStockName),
            }),
    {
        PrintPaper::parse_name(s)
    }
}

impl From<FilmStock> for &'static str {
    fn from(value: FilmStock) -> (r: &'static str) {
        value.as_str()
    }
}

impl vstd::std_specs::convert::FromSpecImpl<FilmStock> for &'static str {
    open spec fn obeys_from_spec() -> bool {
        true
    }

    open spec fn from_spec(value: FilmStock) -> &'static str {
        film_stock_str(value)
    }
}

impl From<PrintPaper> for &'static str {
    fn from(value: PrintPaper) -> (r: &'static str) {
        value.as_str()
    }
}

impl vstd::std_specs::convert::FromSpecImpl<PrintPaper> for &'static str {
    open spec fn obeys_from_spec() -> bool {
        true
    }

    open spec fn from_spec(value: PrintPaper) -> &'static str {
        print_paper_str(value)
    }
}

/// The known stock names are pairwise distinct.
pub proof fn lemma_known_stock_names_distinct()
    ensures
        forall|i: int, j: int| 0 <= i < 28 && 0 <= j < 28 && i != j ==> #[trigger] known_stock_name(i)
            != #[trigger] known_stock_name(j),
{
    lemma_stock_names_distinct();
}

/// The canonical profile name of every film stock and print paper.
pub proof fn lemma_canonical_stock_names()
    ensures
        film_stock_name(FilmStock::KodakEktar100) == "kodak_ektar_100"@,
        film_stock_name(FilmStock::KodakPortra160) == "kodak_portra_160"@,
        film_stock_name(FilmStock::KodakPortra400) == "kodak_portra_400"@,
        film_stock_name(FilmStock::KodakPortra800) == "kodak_portra_800"@,
        film_stock_name(FilmStock::KodakPortra800Push1) == "kodak_portra_800_push1"@,
        film_stock_name(FilmStock::KodakPortra800Push2) == "kodak_portra_800_push2"@,
        film_stock_name(FilmStock::KodakGold200) == "kodak_gold_200"@,
        film_stock_name(FilmStock::KodakUltramax400) == "kodak_ultramax_400"@,
        film_stock_name(FilmStock::KodakVision350D) == "kodak_vision3_50d"@,
        film_stock_name(FilmStock::KodakVision3250D) == "kodak_vision3_250d"@,
        film_stock_name(FilmStock::KodakVerita200D) == "kodak_verita_200d"@,
        film_stock_name(FilmStock::KodakVision3200T) == "kodak_vision3_200t"@,
        film_stock_name(FilmStock::KodakVision3500T) == "kodak_vision3_500t"@,
        film_stock_name(FilmStock::FujifilmPro400H) == "fujifilm_pro_400h"@,
        film_stock_name(FilmStock::FujifilmC200) == "fujifilm_c200"@,
        film_stock_name(FilmStock::FujifilmXtra400) == "fujifilm_xtra_400"@,
        film_stock_name(FilmStock::KodakEktachrome100) == "kodak_ektachrome_100"@,
        film_stock_name(FilmStock::KodakKodachrome64) == "kodak_kodachrome_64"@,
        film_stock_name(FilmStock::FujifilmVelvia100) == "fujifilm_velvia_100"@,
        film_stock_name(FilmStock::FujifilmProvia100F) == "fujifilm_provia_100f"@,
        print_paper_name(PrintPaper::KodakUltraEndura) == "kodak_ultra_endura"@,
        print_paper_name(PrintPaper::KodakEnduraPremier) == "kodak_endura_premier"@,
        print_paper_name(PrintPaper::KodakEktacolorEdge) == "kodak_ektacolor_edge"@,
        print_paper_name(PrintPaper::KodakSupraEndura) == "kodak_supra_endura"@,
        print_paper_name(PrintPaper::KodakPortraEndura) == "kodak_portra_endura"@,
        print_paper_name(PrintPaper::FujifilmCrystalArchiveTypeIi) == "fujifilm_crystal_archive_typeii"@,
        print_paper_name(PrintPaper::Kodak2383) == "kodak_2383"@,
        print_paper_name(PrintPaper::Kodak2393) == "kodak_2393"@,
{
}

} // verus!
