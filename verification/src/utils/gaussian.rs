//! Index arithmetic of the separable Gaussian filter.
//!
//! The recursive filter runs over a line padded on both sides by mirroring
//! it; the filtering itself is floating-point work done elsewhere.

use vstd::prelude::*;

verus! {

/// The sample of a line of `n` samples that position `i` of its mirrored,
/// periodic extension reads: the line, then the line reversed, repeated.
pub open spec fn reflect_index_spec(i: int, n: int) -> int {
    if n == 1 {
        0
    } else {
        let j = if i < 0 { -1 - i } else { i };
        let m = j % (2 * n);
        if m >= n { 2 * n - 1 - m } else { m }
    }
}

/// Map position `i`, possibly outside the line, to the sample of a line of
/// `n` samples that the mirrored extension puts there.
pub fn reflect_index(i: isize, n: isize) -> (r: usize)
    requires
        n >= 1,
        2 * n <= isize::MAX,
    ensures
        r == reflect_index_spec(i as int, n as int),
        r < n,
        0 <= i < n ==> r == i,
{
    if n == 1 {
        return 0;
    }
    let j: isize = if i < 0 { -1 - i } else { i };
    let p: usize = (2 * n) as usize;
    let m: usize = (j as usize) % p;
    proof {
        if 0 <= i < n {
            vstd::arithmetic::div_mod::lemma_small_mod(i as nat, p as nat);
        }
    }
    if m >= n as usize {
        p - 1 - m
    } else {
        m
    }
}

/// Reading the mirrored extension at `-1 - i` gives the same sample as at
/// `i`: the padding before the line is the line reversed.
pub proof fn lemma_reflect_index_mirror(i: int, n: int)
    requires
        n >= 1,
    ensures
        reflect_index_spec(-1 - i, n) == reflect_index_spec(i, n),
{
}

/// The mirrored extension repeats every `2 * n` positions.
pub proof fn lemma_reflect_index_period(i: int, n: int)
    requires
        n >= 1,
        i >= 0,
    ensures
        reflect_index_spec(i + 2 * n, n) == reflect_index_spec(i, n),
{
    vstd::arithmetic::div_mod::lemma_mod_add_multiples_vanish(i, 2 * n);
}

/// Around the line the extension is the line reversed: position `-1 - k`
/// before it reads sample `k`, and position `n + k` after it reads sample
/// `n - 1 - k`.
pub proof fn lemma_reflect_index_padding(i: int, n: int)
    requires
        n >= 2,
    ensures
        -n <= i < 0 ==> reflect_index_spec(i, n) == -1 - i,
        n <= i < 2 * n ==> reflect_index_spec(i, n) == 2 * n - 1 - i,
{
    if -n <= i < 0 {
        vstd::arithmetic::div_mod::lemma_small_mod((-1 - i) as nat, (2 * n) as nat);
    }
    if n <= i < 2 * n {
        vstd::arithmetic::div_mod::lemma_small_mod(i as nat, (2 * n) as nat);
    }
}

} // verus!
