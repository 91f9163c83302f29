//! Profile metadata: the built-in profile list and the consistency checks a
//! loaded profile must pass.
//!
//! A profile's spectral tables hold floating-point data; the checks here need
//! only their lengths and the text labels, which `ProfileShape` and
//! `ProfileLabels` carry.

pub mod schema;
pub mod validation;

use vstd::prelude::*;
use crate::model::stocks::{
    FUJIFILM_C200, FUJIFILM_CRYSTAL_ARCHIVE_TYPEII, FUJIFILM_PROVIA_100F, FUJIFILM_PRO_400H, FUJIFILM_VELVIA_100, FUJIFILM_XTRA_400, KODAK_2383, KODAK_2393, KODAK_EKTACHROME_100, KODAK_EKTACOLOR_EDGE, KODAK_EKTAR_100, KODAK_ENDURA_PREMIER, KODAK_GOLD_200, KODAK_KODACHROME_64, KODAK_PORTRA_160, KODAK_PORTRA_400, KODAK_PORTRA_800, KODAK_PORTRA_800_PUSH1, KODAK_PORTRA_800_PUSH2, KODAK_PORTRA_ENDURA, KODAK_SUPRA_ENDURA, KODAK_ULTRAMAX_400, KODAK_ULTRA_ENDURA, KODAK_VERITA_200D, KODAK_VISION3_200T, KODAK_VISION3_250D, KODAK_VISION3_500T, KODAK_VISION3_50D,
    known_stock_name,
};
use crate::utils::text::{lemma_str_precedes_distinct, lemma_str_precedes_transitive, precedes_at, str_eq, str_precedes};

verus! {

/// Stock identifiers of the profiles built into the engine, in alphabetical
/// order.
pub const BUILT_IN_PROFILES: [&'static str; 28] = [
    FUJIFILM_C200,
    FUJIFILM_CRYSTAL_ARCHIVE_TYPEII,
    FUJIFILM_PRO_400H,
    FUJIFILM_PROVIA_100F,
    FUJIFILM_VELVIA_100,
    FUJIFILM_XTRA_400,
    KODAK_2383,
    KODAK_2393,
    KODAK_EKTACHROME_100,
    KODAK_EKTACOLOR_EDGE,
    KODAK_EKTAR_100,
    KODAK_ENDURA_PREMIER,
    KODAK_GOLD_200,
    KODAK_KODACHROME_64,
    KODAK_PORTRA_160,
    KODAK_PORTRA_400,
    KODAK_PORTRA_800,
    KODAK_PORTRA_800_PUSH1,
    KODAK_PORTRA_800_PUSH2,
    KODAK_PORTRA_ENDURA,
    KODAK_SUPRA_ENDURA,
    KODAK_ULTRA_ENDURA,
    KODAK_ULTRAMAX_400,
    KODAK_VERITA_200D,
    KODAK_VISION3_200T,
    KODAK_VISION3_250D,
    KODAK_VISION3_500T,
    KODAK_VISION3_50D,
];

/// The name of the `i`-th built-in profile.
pub open spec fn built_in_profile_name(i: int) -> Seq<char> {
    seq![
        FUJIFILM_C200@,
        FUJIFILM_CRYSTAL_ARCHIVE_TYPEII@,
        FUJIFILM_PRO_400H@,
        FUJIFILM_PROVIA_100F@,
        FUJIFILM_VELVIA_100@,
        FUJIFILM_XTRA_400@,
        KODAK_2383@,
        KODAK_2393@,
        KODAK_EKTACHROME_100@,
        KODAK_EKTACOLOR_EDGE@,
        KODAK_EKTAR_100@,
        KODAK_ENDURA_PREMIER@,
        KODAK_GOLD_200@,
        KODAK_KODACHROME_64@,
        KODAK_PORTRA_160@,
        KODAK_PORTRA_400@,
        KODAK_PORTRA_800@,
        KODAK_PORTRA_800_PUSH1@,
        KODAK_PORTRA_800_PUSH2@,
        KODAK_PORTRA_ENDURA@,
        KODAK_SUPRA_ENDURA@,
        KODAK_ULTRA_ENDURA@,
        KODAK_ULTRAMAX_400@,
        KODAK_VERITA_200D@,
        KODAK_VISION3_200T@,
        KODAK_VISION3_250D@,
        KODAK_VISION3_500T@,
        KODAK_VISION3_50D@,
    ][i]
}

/// The stock identifiers of the built-in profiles, in strictly increasing
/// alphabetical order.
pub fn available_profiles() -> (r: &'static [&'static str])
    ensures
        r@.len() == 28,
        forall|i: int| 0 <= i < 28 ==> (#[trigger] r@[i])@ == built_in_profile_name(i),
        forall|i: int, j: int| 0 <= i < j < 28 ==> str_precedes((#[trigger] r@[i])@, (#[trigger] r@[j])@),
{
    let r: &'static [&'static str] = &BUILT_IN_PROFILES;
    proof {
        lemma_built_in_profiles_sorted();
        assert forall|i: int, j: int| 0 <= i < j < 28 implies str_precedes((#[trigger] r@[i])@, (#[trigger] r@[j])@) by {
            assert(r@[i]@ == built_in_profile_name(i));
            assert(r@[j]@ == built_in_profile_name(j));
            assert(str_precedes(built_in_profile_name(i), built_in_profile_name(j)));
        }
    }
    r
}

/// Look up a stock identifier among the built-in profiles: its position in
/// `available_profiles`, or `None` when no built-in profile has that name.
pub fn built_in_profile_index(stock: &str) -> (r: Option<usize>)
    ensures
        match r {
            Some(i) => i < 28 && stock@ == built_in_profile_name(i as int),
            None => forall|i: int| 0 <= i < 28 ==> stock@ != #[trigger] built_in_profile_name(i),
        },
{
    let names = available_profiles();
    let mut i: usize = 0;
    while i < names.len()
        invariant
            names@.len() == 28,
            forall|k: int| 0 <= k < 28 ==> (#[trigger] names@[k])@ == built_in_profile_name(k),
            0 <= i <= 28,
            forall|k: int| 0 <= k < i ==> stock@ != #[trigger] built_in_profile_name(k),
        decreases 28 - i,
    {
        if str_eq(stock, names[i]) {
            return Some(i);
        }
        i = i + 1;
    }
    None
}

/// Position in the known-stock listing of the `i`-th built-in profile.
pub open spec fn built_in_to_known(i: int) -> int {
    seq![
        14int, 25int, 13int, 19int, 18int, 15int, 26int, 27int, 16int, 22int, 0int, 21int, 6int, 17int, 1int, 2int, 3int, 4int, 5int, 24int, 23int, 20int, 7int, 10int, 11int, 9int, 12int, 8int
    ][i]
}

/// Position in the built-in listing of the `j`-th known stock.
pub open spec fn known_to_built_in(j: int) -> int {
    seq![
        10int, 14int, 15int, 16int, 17int, 18int, 12int, 22int, 27int, 25int, 23int, 24int, 26int, 2int, 0int, 5int, 8int, 13int, 4int, 3int, 21int, 11int, 9int, 20int, 19int, 1int, 6int, 7int
    ][j]
}

/// The built-in profiles are exactly the known film stocks and print
/// papers: `built_in_to_known` matches each built-in profile with the known
/// stock of the same name, and `known_to_built_in` is its inverse.
pub proof fn lemma_built_in_profiles_are_known_stocks()
    ensures
        forall|i: int| 0 <= i < 28 ==> 0 <= #[trigger] built_in_to_known(i) < 28
            && known_to_built_in(built_in_to_known(i)) == i
            && known_stock_name(built_in_to_known(i)) == built_in_profile_name(i),
        forall|j: int| 0 <= j < 28 ==> 0 <= #[trigger] known_to_built_in(j) < 28
            && built_in_to_known(known_to_built_in(j)) == j,
{
}


/// Each built-in profile name comes before the next one.
proof fn lemma_adjacent_built_in_names_ordered()
    ensures
        forall|i: int| 0 <= i < 27 ==> str_precedes(#[trigger] built_in_profile_name(i), built_in_profile_name(i + 1)),
{
    reveal_strlit("fujifilm_c200");
    reveal_strlit("fujifilm_crystal_archive_typeii");
    reveal_strlit("fujifilm_pro_400h");
    reveal_strlit("fujifilm_provia_100f");
    reveal_strlit("fujifilm_velvia_100");
    reveal_strlit("fujifilm_xtra_400");
    reveal_strlit("kodak_2383");
    reveal_strlit("kodak_2393");
    reveal_strlit("kodak_ektachrome_100");
    reveal_strlit("kodak_ektacolor_edge");
    reveal_strlit("kodak_ektar_100");
    reveal_strlit("kodak_endura_premier");
    reveal_strlit("kodak_gold_200");
    reveal_strlit("kodak_kodachrome_64");
    reveal_strlit("kodak_portra_160");
    reveal_strlit("kodak_portra_400");
    reveal_strlit("kodak_portra_800");
    reveal_strlit("kodak_portra_800_push1");
    reveal_strlit("kodak_portra_800_push2");
    reveal_strlit("kodak_portra_endura");
    reveal_strlit("kodak_supra_endura");
    reveal_strlit("kodak_ultra_endura");
    reveal_strlit("kodak_ultramax_400");
    reveal_strlit("kodak_verita_200d");
    reveal_strlit("kodak_vision3_200t");
    reveal_strlit("kodak_vision3_250d");
    reveal_strlit("kodak_vision3_500t");
    reveal_strlit("kodak_vision3_50d");
    assert forall|i: int| 0 <= i < 27 implies str_precedes(#[trigger] built_in_profile_name(i), built_in_profile_name(i + 1)) by {
        if i == 0 {
            assert(built_in_profile_name(0).subrange(0, 10) =~= built_in_profile_name(1).subrange(0, 10));
            assert(precedes_at(built_in_profile_name(0), built_in_profile_name(1), 10));
        }
        else if i == 1 {
            assert(built_in_profile_name(1).subrange(0, 9) =~= built_in_profile_name(2).subrange(0, 9));
            assert(precedes_at(built_in_profile_name(1), built_in_profile_name(2), 9));
        }
        else if i == 2 {
            assert(built_in_profile_name(2).subrange(0, 12) =~= built_in_profile_name(3).subrange(0, 12));
            assert(precedes_at(built_in_profile_name(2), built_in_profile_name(3), 12));
        }
        else if i == 3 {
            assert(built_in_profile_name(3).subrange(0, 9) =~= built_in_profile_name(4).subrange(0, 9));
            assert(precedes_at(built_in_profile_name(3), built_in_profile_name(4), 9));
        }
        else if i == 4 {
            assert(built_in_profile_name(4).subrange(0, 9) =~= built_in_profile_name(5).subrange(0, 9));
            assert(precedes_at(built_in_profile_name(4), built_in_profile_name(5), 9));
        }
        else if i == 5 {
            assert(built_in_profile_name(5).subrange(0, 0) =~= built_in_profile_name(6).subrange(0, 0));
            assert(precedes_at(built_in_profile_name(5), built_in_profile_name(6), 0));
        }
        else if i == 6 {
            assert(built_in_profile_name(6).subrange(0, 8) =~= built_in_profile_name(7).subrange(0, 8));
            assert(precedes_at(built_in_profile_name(6), built_in_profile_name(7), 8));
        }
        else if i == 7 {
            assert(built_in_profile_name(7).subrange(0, 6) =~= built_in_profile_name(8).subrange(0, 6));
            assert(precedes_at(built_in_profile_name(7), built_in_profile_name(8), 6));
        }
        else if i == 8 {
            assert(built_in_profile_name(8).subrange(0, 11) =~= built_in_profile_name(9).subrange(0, 11));
            assert(precedes_at(built_in_profile_name(8), built_in_profile_name(9), 11));
        }
        else if i == 9 {
            assert(built_in_profile_name(9).subrange(0, 10) =~= built_in_profile_name(10).subrange(0, 10));
            assert(precedes_at(built_in_profile_name(9), built_in_profile_name(10), 10));
        }
        else if i == 10 {
            assert(built_in_profile_name(10).subrange(0, 7) =~= built_in_profile_name(11).subrange(0, 7));
            assert(precedes_at(built_in_profile_name(10), built_in_profile_name(11), 7));
        }
        else if i == 11 {
            assert(built_in_profile_name(11).subrange(0, 6) =~= built_in_profile_name(12).subrange(0, 6));
            assert(precedes_at(built_in_profile_name(11), built_in_profile_name(12), 6));
        }
        else if i == 12 {
            assert(built_in_profile_name(12).subrange(0, 6) =~= built_in_profile_name(13).subrange(0, 6));
            assert(precedes_at(built_in_profile_name(12), built_in_profile_name(13), 6));
        }
        else if i == 13 {
            assert(built_in_profile_name(13).subrange(0, 6) =~= built_in_profile_name(14).subrange(0, 6));
            assert(precedes_at(built_in_profile_name(13), built_in_profile_name(14), 6));
        }
        else if i == 14 {
            assert(built_in_profile_name(14).subrange(0, 13) =~= built_in_profile_name(15).subrange(0, 13));
            assert(precedes_at(built_in_profile_name(14), built_in_profile_name(15), 13));
        }
        else if i == 15 {
            assert(built_in_profile_name(15).subrange(0, 13) =~= built_in_profile_name(16).subrange(0, 13));
            assert(precedes_at(built_in_profile_name(15), built_in_profile_name(16), 13));
        }
        else if i == 16 {
            assert(built_in_profile_name(16).subrange(0, 16) =~= built_in_profile_name(17).subrange(0, 16));
            assert(precedes_at(built_in_profile_name(16), built_in_profile_name(17), 16));
        }
        else if i == 17 {
            assert(built_in_profile_name(17).subrange(0, 21) =~= built_in_profile_name(18).subrange(0, 21));
            assert(precedes_at(built_in_profile_name(17), built_in_profile_name(18), 21));
        }
        else if i == 18 {
            assert(built_in_profile_name(18).subrange(0, 13) =~= built_in_profile_name(19).subrange(0, 13));
            assert(precedes_at(built_in_profile_name(18), built_in_profile_name(19), 13));
        }
        else if i == 19 {
            assert(built_in_profile_name(19).subrange(0, 6) =~= built_in_profile_name(20).subrange(0, 6));
            assert(precedes_at(built_in_profile_name(19), built_in_profile_name(20), 6));
        }
        else if i == 20 {
            assert(built_in_profile_name(20).subrange(0, 6) =~= built_in_profile_name(21).subrange(0, 6));
            assert(precedes_at(built_in_profile_name(20), built_in_profile_name(21), 6));
        }
        else if i == 21 {
            assert(built_in_profile_name(21).subrange(0, 11) =~= built_in_profile_name(22).subrange(0, 11));
            assert(precedes_at(built_in_profile_name(21), built_in_profile_name(22), 11));
        }
        else if i == 22 {
            assert(built_in_profile_name(22).subrange(0, 6) =~= built_in_profile_name(23).subrange(0, 6));
            assert(precedes_at(built_in_profile_name(22), built_in_profile_name(23), 6));
        }
        else if i == 23 {
            assert(built_in_profile_name(23).subrange(0, 7) =~= built_in_profile_name(24).subrange(0, 7));
            assert(precedes_at(built_in_profile_name(23), built_in_profile_name(24), 7));
        }
        else if i == 24 {
            assert(built_in_profile_name(24).subrange(0, 15) =~= built_in_profile_name(25).subrange(0, 15));
            assert(precedes_at(built_in_profile_name(24), built_in_profile_name(25), 15));
        }
        else if i == 25 {
            assert(built_in_profile_name(25).subrange(0, 14) =~= built_in_profile_name(26).subrange(0, 14));
            assert(precedes_at(built_in_profile_name(25), built_in_profile_name(26), 14));
        }
        else if i == 26 {
            assert(built_in_profile_name(26).subrange(0, 16) =~= built_in_profile_name(27).subrange(0, 16));
            assert(precedes_at(built_in_profile_name(26), built_in_profile_name(27), 16));
        }
    }
}

proof fn lemma_built_in_names_ordered_from(i: int, j: int)
    requires
        0 <= i < j < 28,
    ensures
        str_precedes(built_in_profile_name(i), built_in_profile_name(j)),
    decreases j - i,
{
    lemma_adjacent_built_in_names_ordered();
    assert(str_precedes(built_in_profile_name(i), built_in_profile_name(i + 1)));
    if i + 1 < j {
        lemma_built_in_names_ordered_from(i + 1, j);
        lemma_str_precedes_transitive(built_in_profile_name(i), built_in_profile_name(i + 1), built_in_profile_name(j));
    }
}

/// The built-in profile names are in strictly increasing alphabetical order,
/// so no name occurs twice.
pub proof fn lemma_built_in_profiles_sorted()
    ensures
        forall|i: int, j: int| 0 <= i < j < 28 ==> str_precedes(#[trigger] built_in_profile_name(i), #[trigger] built_in_profile_name(j)),
        forall|i: int, j: int| 0 <= i < j < 28 ==> #[trigger] built_in_profile_name(i) != #[trigger] built_in_profile_name(j),
{
    assert forall|i: int, j: int| 0 <= i < j < 28 implies str_precedes(#[trigger] built_in_profile_name(i), #[trigger] built_in_profile_name(j)) by {
        lemma_built_in_names_ordered_from(i, j);
    }
    assert forall|i: int, j: int| 0 <= i < j < 28 implies #[trigger] built_in_profile_name(i) != #[trigger] built_in_profile_name(j) by {
        lemma_built_in_names_ordered_from(i, j);
        lemma_str_precedes_distinct(built_in_profile_name(i), built_in_profile_name(j));
    }
}

/// `s` is the name of a built-in profile.
pub open spec fn is_built_in_profile_name(s: Seq<char>) -> bool {
    exists|j: int| 0 <= j < 28 && #[trigger] built_in_profile_name(j) == s
}

/// `s` is one of the known stock names.
pub open spec fn is_known_stock_name(s: Seq<char>) -> bool {
    exists|i: int| 0 <= i < 28 && #[trigger] known_stock_name(i) == s
}

/// A name is a known stock name exactly when it is the name of a built-in
/// profile: the two listings hold the same set of names.
pub proof fn lemma_known_stocks_are_built_in_profiles()
    ensures
        forall|s: Seq<char>|
            #![trigger is_known_stock_name(s)]
            #![trigger is_built_in_profile_name(s)]
            is_known_stock_name(s) <==> is_built_in_profile_name(s),
{
    lemma_built_in_profiles_are_known_stocks();
    assert forall|s: Seq<char>| is_known_stock_name(s) implies #[trigger] is_built_in_profile_name(s) by {
        let i = choose|i: int| 0 <= i < 28 && #[trigger] known_stock_name(i) == s;
        let j = known_to_built_in(i);
        assert(built_in_to_known(j) == i);
        assert(built_in_profile_name(j) == known_stock_name(built_in_to_known(j)));
    }
    assert forall|s: Seq<char>| is_built_in_profile_name(s) implies #[trigger] is_known_stock_name(s) by {
        let j = choose|j: int| 0 <= j < 28 && #[trigger] built_in_profile_name(j) == s;
        assert(known_stock_name(built_in_to_known(j)) == built_in_profile_name(j));
    }
}

} // verus!
