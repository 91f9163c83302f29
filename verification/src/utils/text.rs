//! Byte-level string comparison helpers.

use vstd::prelude::*;
use vstd::utf8::*;

verus! {

/// Two strings are equal exactly when their UTF-8 encodings are equal.
pub proof fn lemma_encode_utf8_injective(a: Seq<char>, b: Seq<char>)
    ensures
        (encode_utf8(a) == encode_utf8(b)) <==> (a == b),
{
    if encode_utf8(a) == encode_utf8(b) {
        encode_utf8_decode_utf8(a);
        encode_utf8_decode_utf8(b);
    }
}

/// Compare two byte slices element by element.
pub fn bytes_eq(a: &[u8], b: &[u8]) -> (r: bool)
    ensures
        r == (a@ == b@),
{
    if a.len() != b.len() {
        return false;
    }
    let mut i: usize = 0;
    while i < a.len()
        invariant
            a@.len() == b@.len(),
            0 <= i <= a@.len(),
            forall|j: int| 0 <= j < i ==> a@[j] == b@[j],
        decreases a@.len() - i,
    {
        if a[i] != b[i] {
            return false;
        }
        i = i + 1;
    }
    assert(a@ =~= b@);
    true
}

/// Compare two strings for equality of their character sequences.
pub fn str_eq(a: &str, b: &str) -> (r: bool)
    ensures
        r == (a@ == b@),
{
    let ab = a.as_bytes();
    let bb = b.as_bytes();
    let r = bytes_eq(ab, bb);
    proof {
        lemma_encode_utf8_injective(a@, b@);
    }
    r
}

} // verus!

verus! {

/// `pat` occurs in `h` at byte offset `i`.
pub open spec fn occurs_at(h: Seq<u8>, pat: Seq<u8>, i: int) -> bool {
    0 <= i && i + pat.len() <= h.len() && h.subrange(i, i + pat.len()) == pat
}

/// The first offset at or after `i` where `pat` occurs in `h`.
pub open spec fn find_from(h: Seq<u8>, pat: Seq<u8>, i: int) -> Option<int>
    decreases h.len() + 1 - i,
{
    if i < 0 || i + pat.len() > h.len() {
        None
    } else if h.subrange(i, i + pat.len()) == pat {
        Some(i)
    } else {
        find_from(h, pat, i + 1)
    }
}

/// The first offset where `pat` occurs in `h`.
pub open spec fn find_bytes_spec(h: Seq<u8>, pat: Seq<u8>) -> Option<int> {
    find_from(h, pat, 0)
}

/// `pat` occurs somewhere in `h`.
pub open spec fn contains_bytes_spec(h: Seq<u8>, pat: Seq<u8>) -> bool {
    find_bytes_spec(h, pat) is Some
}

/// What `find_from` returns is an occurrence, and no earlier one exists.
pub proof fn lemma_find_from(h: Seq<u8>, pat: Seq<u8>, i: int)
    requires
        0 <= i,
    ensures
        find_from(h, pat, i) matches Some(k) ==> i <= k && occurs_at(h, pat, k)
            && forall|j: int| i <= j < k ==> !occurs_at(h, pat, j),
        find_from(h, pat, i) is None ==> forall|j: int| i <= j ==> !occurs_at(h, pat, j),
    decreases h.len() + 1 - i,
{
    if i + pat.len() > h.len() {
    } else if h.subrange(i, i + pat.len()) == pat {
    } else {
        lemma_find_from(h, pat, i + 1);
    }
}

/// The first offset at or after `from` where `pat` occurs in `h`.
pub fn find_bytes_from(h: &[u8], pat: &[u8], from: usize) -> (r: Option<usize>)
    ensures
        match r {
            Some(k) => find_from(h@, pat@, from as int) == Some(k as int),
            None => find_from(h@, pat@, from as int) is None,
        },
{
    let n = h.len();
    let m = pat.len();
    if m > n {
        assert(find_from(h@, pat@, from as int) is None);
        return None;
    }
    let mut i = from;
    while i <= n - m
        invariant
            from <= i,
            m <= n,
            n == h@.len(),
            m == pat@.len(),
            find_from(h@, pat@, from as int) == find_from(h@, pat@, i as int),
        decreases n - i,
    {
        let mut j: usize = 0;
        let mut same = true;
        while j < m
            invariant
                0 <= j <= m,
                i + m <= n,
                m == pat@.len(),
                n == h@.len(),
                same == (forall|k: int| 0 <= k < j ==> h@[i + k] == pat@[k]),
            decreases m - j,
        {
            if h[i + j] != pat[j] {
                same = false;
            }
            j = j + 1;
        }
        if same {
            assert(h@.subrange(i as int, i + m) =~= pat@);
            return Some(i);
        }
        assert(h@.subrange(i as int, i + m) != pat@) by {
            let k = choose|k: int| 0 <= k < m && h@[i + k] != pat@[k];
            assert(h@.subrange(i as int, i + m)[k] != pat@[k]);
        }
        i = i + 1;
    }
    None
}

} // verus!

verus! {

/// One-byte UTF-8 encodings of Unicode white space: tab, line feed, vertical
/// tab, form feed, carriage return and space.
pub open spec fn is_ws1(a: u8) -> bool {
    (0x09 <= a && a <= 0x0D) || a == 0x20
}

/// Two-byte UTF-8 encodings of Unicode white space: U+0085 and U+00A0.
pub open spec fn is_ws2(a: u8, b: u8) -> bool {
    a == 0xC2 && (b == 0x85 || b == 0xA0)
}

/// Three-byte UTF-8 encodings of Unicode white space: U+1680,
/// U+2000..U+200A, U+2028, U+2029, U+202F, U+205F and U+3000.
pub open spec fn is_ws3(a: u8, b: u8, c: u8) -> bool {
    ||| (a == 0xE1 && b == 0x9A && c == 0x80)
    ||| (a == 0xE2 && b == 0x80 && ((0x80 <= c && c <= 0x8A) || c == 0xA8 || c == 0xA9 || c == 0xAF))
    ||| (a == 0xE2 && b == 0x81 && c == 0x9F)
    ||| (a == 0xE3 && b == 0x80 && c == 0x80)
}

/// Length of the white-space character that `b` starts with, or 0.
pub open spec fn ws_front_len(b: Seq<u8>) -> int {
    if b.len() >= 1 && is_ws1(b[0]) {
        1
    } else if b.len() >= 2 && is_ws2(b[0], b[1]) {
        2
    } else if b.len() >= 3 && is_ws3(b[0], b[1], b[2]) {
        3
    } else {
        0
    }
}

/// Length of the white-space character that `b` ends with, or 0.
pub open spec fn ws_back_len(b: Seq<u8>) -> int {
    let n = b.len() as int;
    if n >= 1 && is_ws1(b[n - 1]) {
        1
    } else if n >= 2 && is_ws2(b[n - 2], b[n - 1]) {
        2
    } else if n >= 3 && is_ws3(b[n - 3], b[n - 2], b[n - 1]) {
        3
    } else {
        0
    }
}

/// `b` without its leading white space.
pub open spec fn trim_start_spec(b: Seq<u8>) -> Seq<u8>
    decreases b.len(),
{
    let k = ws_front_len(b);
    if k > 0 {
        trim_start_spec(b.subrange(k, b.len() as int))
    } else {
        b
    }
}

/// `b` without its trailing white space.
pub open spec fn trim_end_spec(b: Seq<u8>) -> Seq<u8>
    decreases b.len(),
{
    let k = ws_back_len(b);
    if k > 0 {
        trim_end_spec(b.subrange(0, b.len() - k))
    } else {
        b
    }
}

/// `b` without leading and trailing white space, as `str::trim` does on
/// UTF-8 text.
pub open spec fn trim_spec(b: Seq<u8>) -> Seq<u8> {
    trim_end_spec(trim_start_spec(b))
}

fn ws_front_len_at(h: &[u8], lo: usize, hi: usize) -> (r: usize)
    requires
        lo <= hi <= h@.len(),
    ensures
        r == ws_front_len(h@.subrange(lo as int, hi as int)),
        r <= hi - lo,
{
    let n = hi - lo;
    if n >= 1 && ((0x09 <= h[lo] && h[lo] <= 0x0D) || h[lo] == 0x20) {
        1
    } else if n >= 2 && h[lo] == 0xC2 && (h[lo + 1] == 0x85 || h[lo + 1] == 0xA0) {
        2
    } else if n >= 3 && ((h[lo] == 0xE1 && h[lo + 1] == 0x9A && h[lo + 2] == 0x80)
        || (h[lo] == 0xE2 && h[lo + 1] == 0x80 && ((0x80 <= h[lo + 2] && h[lo + 2] <= 0x8A)
            || h[lo + 2] == 0xA8 || h[lo + 2] == 0xA9 || h[lo + 2] == 0xAF))
        || (h[lo] == 0xE2 && h[lo + 1] == 0x81 && h[lo + 2] == 0x9F)
        || (h[lo] == 0xE3 && h[lo + 1] == 0x80 && h[lo + 2] == 0x80)) {
        3
    } else {
        0
    }
}

fn ws_back_len_at(h: &[u8], lo: usize, hi: usize) -> (r: usize)
    requires
        lo <= hi <= h@.len(),
    ensures
        r == ws_back_len(h@.subrange(lo as int, hi as int)),
        r <= hi - lo,
{
    let n = hi - lo;
    if n >= 1 && ((0x09 <= h[hi - 1] && h[hi - 1] <= 0x0D) || h[hi - 1] == 0x20) {
        1
    } else if n >= 2 && h[hi - 2] == 0xC2 && (h[hi - 1] == 0x85 || h[hi - 1] == 0xA0) {
        2
    } else if n >= 3 && ((h[hi - 3] == 0xE1 && h[hi - 2] == 0x9A && h[hi - 1] == 0x80)
        || (h[hi - 3] == 0xE2 && h[hi - 2] == 0x80 && ((0x80 <= h[hi - 1] && h[hi - 1] <= 0x8A)
            || h[hi - 1] == 0xA8 || h[hi - 1] == 0xA9 || h[hi - 1] == 0xAF))
        || (h[hi - 3] == 0xE2 && h[hi - 2] == 0x81 && h[hi - 1] == 0x9F)
        || (h[hi - 3] == 0xE3 && h[hi - 2] == 0x80 && h[hi - 1] == 0x80)) {
        3
    } else {
        0
    }
}

/// The bounds of `h[lo..hi]` with leading and trailing white space removed.
pub fn trim_range(h: &[u8], lo: usize, hi: usize) -> (r: (usize, usize))
    requires
        lo <= hi <= h@.len(),
    ensures
        lo <= r.0 <= r.1 <= hi,
        h@.subrange(r.0 as int, r.1 as int) == trim_spec(h@.subrange(lo as int, hi as int)),
{
    let mut a = lo;
    loop
        invariant
            lo <= a <= hi <= h@.len(),
            trim_start_spec(h@.subrange(lo as int, hi as int)) == trim_start_spec(h@.subrange(a as int, hi as int)),
        ensures
            lo <= a <= hi,
            trim_start_spec(h@.subrange(lo as int, hi as int)) == trim_start_spec(h@.subrange(a as int, hi as int)),
            ws_front_len(h@.subrange(a as int, hi as int)) == 0,
        decreases hi - a,
    {
        let k = ws_front_len_at(h, a, hi);
        if k == 0 {
            break;
        }
        assert(h@.subrange(a as int, hi as int).subrange(k as int, hi - a) =~= h@.subrange(a + k, hi as int));
        a = a + k;
    }
    assert(trim_start_spec(h@.subrange(a as int, hi as int)) == h@.subrange(a as int, hi as int));
    let mut b = hi;
    loop
        invariant
            lo <= a <= b <= hi <= h@.len(),
            trim_spec(h@.subrange(lo as int, hi as int)) == trim_end_spec(h@.subrange(a as int, b as int)),
        ensures
            lo <= a <= b <= hi,
            trim_spec(h@.subrange(lo as int, hi as int)) == trim_end_spec(h@.subrange(a as int, b as int)),
            ws_back_len(h@.subrange(a as int, b as int)) == 0,
        decreases b - a,
    {
        let k = ws_back_len_at(h, a, b);
        if k == 0 {
            break;
        }
        assert(h@.subrange(a as int, b as int).subrange(0, b - k - a) =~= h@.subrange(a as int, b - k));
        b = b - k;
    }
    (a, b)
}

/// Decimal digit byte.
pub open spec fn is_digit(c: u8) -> bool {
    0x30 <= c && c <= 0x39
}

/// Value of a string of decimal digits.
pub open spec fn decimal_value(d: Seq<u8>) -> int
    decreases d.len(),
{
    if d.len() == 0 {
        0
    } else {
        decimal_value(d.drop_last()) * 10 + (d.last() - 0x30)
    }
}

/// The digits of an unsigned integer literal: an optional leading `+` is
/// dropped.
pub open spec fn unsigned_digits(p: Seq<u8>) -> Seq<u8> {
    if p.len() > 0 && p[0] == 0x2B {
        p.drop_first()
    } else {
        p
    }
}

/// What `usize::from_str` accepts: an optional `+`, then one or more decimal
/// digits whose value fits in `usize`.
pub open spec fn parse_usize_spec(p: Seq<u8>) -> Option<int> {
    let d = unsigned_digits(p);
    if d.len() == 0 || !(forall|i: int| 0 <= i < d.len() ==> is_digit(#[trigger] d[i])) {
        None
    } else if decimal_value(d) > usize::MAX {
        None
    } else {
        Some(decimal_value(d))
    }
}

/// A longer run of digits never has a smaller value.
pub proof fn lemma_decimal_value_monotone(d: Seq<u8>, i: int, j: int)
    requires
        0 <= i <= j <= d.len(),
        forall|k: int| 0 <= k < d.len() ==> is_digit(#[trigger] d[k]),
    ensures
        decimal_value(d.subrange(0, i)) <= decimal_value(d.subrange(0, j)),
        decimal_value(d.subrange(0, i)) >= 0,
    decreases j - i,
{
    if i < j {
        lemma_decimal_value_monotone(d, i, j - 1);
        assert(d.subrange(0, j).drop_last() =~= d.subrange(0, j - 1));
        lemma_decimal_value_nonneg(d.subrange(0, j - 1));
    } else {
        lemma_decimal_value_nonneg(d.subrange(0, i));
    }
}

proof fn lemma_decimal_value_nonneg(d: Seq<u8>)
    requires
        forall|k: int| 0 <= k < d.len() ==> is_digit(#[trigger] d[k]),
    ensures
        decimal_value(d) >= 0,
    decreases d.len(),
{
    if d.len() > 0 {
        lemma_decimal_value_nonneg(d.drop_last());
    }
}

/// Parse `h[lo..hi]` as `usize::from_str` does.
pub fn parse_usize_range(h: &[u8], lo: usize, hi: usize) -> (r: Option<usize>)
    requires
        lo <= hi <= h@.len(),
    ensures
        match r {
            Some(v) => parse_usize_spec(h@.subrange(lo as int, hi as int)) == Some(v as int),
            None => parse_usize_spec(h@.subrange(lo as int, hi as int)) is None,
        },
{
    let ghost p = h@.subrange(lo as int, hi as int);
    let mut start = lo;
    if hi > lo && h[lo] == 0x2B {
        start = lo + 1;
    }
    let ghost d = h@.subrange(start as int, hi as int);
    assert(d =~= unsigned_digits(p));
    if start == hi {
        return None;
    }
    let mut acc: usize = 0;
    let mut i = start;
    while i < hi
        invariant
            lo <= start <= i <= hi <= h@.len(),
            d == h@.subrange(start as int, hi as int),
            d == unsigned_digits(h@.subrange(lo as int, hi as int)),
            forall|k: int| 0 <= k < i - start ==> is_digit(#[trigger] d[k]),
            acc as int == decimal_value(d.subrange(0, i - start)),
        decreases hi - i,
    {
        let c = h[i];
        assert(d[i - start] == h@[i as int]);
        if c < 0x30 || c > 0x39 {
            assert(!is_digit(d[i - start]));
            return None;
        }
        let ghost prefix = d.subrange(0, i + 1 - start);
        assert(prefix.drop_last() =~= d.subrange(0, i - start));
        let next = match acc.checked_mul(10) {
            Some(t) => t.checked_add((c - 0x30) as usize),
            None => None,
        };
        match next {
            Some(v) => {
                acc = v;
            },
            None => {
                proof {
                    assert(prefix.last() == c);
                    assert(decimal_value(prefix) == acc * 10 + (c - 0x30));
                    assert(decimal_value(prefix) > usize::MAX);
                    if forall|k: int| 0 <= k < d.len() ==> is_digit(#[trigger] d[k]) {
                        lemma_decimal_value_monotone(d, i + 1 - start, d.len() as int);
                        assert(d.subrange(0, d.len() as int) =~= d);
                    }
                }
                return None;
            },
        }
        i = i + 1;
    }
    assert(d.subrange(0, hi - start) =~= d);
    Some(acc)
}

} // verus!

verus! {

/// Offset of the first `c` in `b`, or `b.len()` when there is none.
pub open spec fn first_index(b: Seq<u8>, c: u8) -> int
    decreases b.len(),
{
    if b.len() == 0 {
        0
    } else if b[0] == c {
        0
    } else {
        1 + first_index(b.drop_first(), c)
    }
}

/// `first_index` is the offset of the first occurrence, or the length.
pub proof fn lemma_first_index(b: Seq<u8>, c: u8, i: int)
    requires
        0 <= i <= b.len(),
        forall|j: int| 0 <= j < i ==> b[j] != c,
        i == b.len() || b[i] == c,
    ensures
        first_index(b, c) == i,
    decreases b.len(),
{
    if b.len() > 0 && b[0] != c {
        assert forall|j: int| 0 <= j < i - 1 implies b.drop_first()[j] != c by {
            assert(b.drop_first()[j] == b[j + 1]);
        }
        if i < b.len() {
            assert(b.drop_first()[i - 1] == b[i]);
        }
        lemma_first_index(b.drop_first(), c, i - 1);
    }
}

/// The non-empty comma-separated fields of `b`, each with white space
/// trimmed: what `split(',')`, `trim()` and skipping empty fields give.
pub open spec fn comma_fields(b: Seq<u8>) -> Seq<Seq<u8>>
    decreases b.len(),
{
    let i = first_index(b, 0x2C);
    if 0 <= i < b.len() {
        let head = trim_spec(b.subrange(0, i));
        let rest = comma_fields(b.subrange(i + 1, b.len() as int));
        if head.len() > 0 {
            seq![head] + rest
        } else {
            rest
        }
    } else {
        let head = trim_spec(b);
        if head.len() > 0 {
            seq![head]
        } else {
            seq![]
        }
    }
}

/// The first offset of `pat` in `h`.
pub fn find_bytes(h: &[u8], pat: &[u8]) -> (r: Option<usize>)
    ensures
        match r {
            Some(k) => find_bytes_spec(h@, pat@) == Some(k as int),
            None => find_bytes_spec(h@, pat@) is None,
        },
{
    find_bytes_from(h, pat, 0)
}

/// Whether `pat` occurs in `h`.
pub fn contains_bytes(h: &[u8], pat: &[u8]) -> (r: bool)
    ensures
        r == contains_bytes_spec(h@, pat@),
{
    find_bytes(h, pat).is_some()
}


/// The first offset of byte `c` in `h`.
pub fn find_byte(h: &[u8], c: u8) -> (r: Option<usize>)
    ensures
        match r {
            Some(k) => find_bytes_spec(h@, seq![c]) == Some(k as int) && k < h@.len(),
            None => find_bytes_spec(h@, seq![c]) is None,
        },
{
    let n = h.len();
    let mut i: usize = 0;
    while i < n
        invariant
            i <= n,
            n == h@.len(),
            find_from(h@, seq![c], 0) == find_from(h@, seq![c], i as int),
        decreases n - i,
    {
        if h[i] == c {
            assert(h@.subrange(i as int, i + 1) =~= seq![c]);
            return Some(i);
        }
        assert(h@.subrange(i as int, i + 1) != seq![c]) by {
            assert(h@.subrange(i as int, i + 1)[0] == h@[i as int]);
        }
        i = i + 1;
    }
    None
}

} // verus!

verus! {

/// An ASCII letter or digit.
pub open spec fn is_ascii_alnum(c: char) -> bool {
    ('0' <= c && c <= '9') || ('a' <= c && c <= 'z') || ('A' <= c && c <= 'Z')
}

/// The ASCII lower-case form of `c`; other characters are unchanged.
pub open spec fn ascii_lower(c: char) -> char {
    if 'A' <= c && c <= 'Z' {
        ((c as u32) + 32) as char
    } else {
        c
    }
}

/// The ASCII letters and digits of `s`, in order and in lower case.
pub open spec fn alnum_lower(s: Seq<char>) -> Seq<char>
    decreases s.len(),
{
    if s.len() == 0 {
        seq![]
    } else {
        let head: Seq<char> = if is_ascii_alnum(s[0]) { seq![ascii_lower(s[0])] } else { seq![] };
        head + alnum_lower(s.drop_first())
    }
}

/// Byte form of `is_ascii_alnum`.
pub open spec fn is_alnum_byte(b: u8) -> bool {
    (0x30 <= b && b <= 0x39) || (0x61 <= b && b <= 0x7A) || (0x41 <= b && b <= 0x5A)
}

/// Byte form of `ascii_lower`.
pub open spec fn lower_byte(b: u8) -> u8 {
    if 0x41 <= b && b <= 0x5A {
        (b + 32) as u8
    } else {
        b
    }
}

/// Byte form of `alnum_lower`.
pub open spec fn alnum_lower_bytes(b: Seq<u8>) -> Seq<u8>
    decreases b.len(),
{
    if b.len() == 0 {
        seq![]
    } else {
        let head: Seq<u8> = if is_alnum_byte(b[0]) { seq![lower_byte(b[0])] } else { seq![] };
        head + alnum_lower_bytes(b.drop_first())
    }
}

proof fn lemma_alnum_lower_bytes_concat(a: Seq<u8>, b: Seq<u8>)
    ensures
        alnum_lower_bytes(a + b) == alnum_lower_bytes(a) + alnum_lower_bytes(b),
    decreases a.len(),
{
    if a.len() == 0 {
        assert(a + b =~= b);
    } else {
        assert((a + b).drop_first() =~= a.drop_first() + b);
        lemma_alnum_lower_bytes_concat(a.drop_first(), b);
        assert((a + b)[0] == a[0]);
    }
}

proof fn lemma_encode_utf8_concat(a: Seq<char>, b: Seq<char>)
    ensures
        encode_utf8(a + b) == encode_utf8(a) + encode_utf8(b),
    decreases a.len(),
{
    if a.len() == 0 {
        assert(a + b =~= b);
    } else {
        assert((a + b).drop_first() =~= a.drop_first() + b);
        lemma_encode_utf8_concat(a.drop_first(), b);
        assert((a + b)[0] == a[0]);
    }
}

proof fn lemma_encode_ascii_char(c: char)
    requires
        (c as u32) < 0x80,
    ensures
        encode_utf8(seq![c]) == seq![(c as u32) as u8],
{
    let u = c as u32;
    let b = leading_byte_width_1(u);
    assert(b == u) by (bit_vector)
        requires b == (u & 0x7F) as u8, u < 0x80;
    assert(seq![c].drop_first() =~= seq![]);
    assert(encode_utf8(seq![c]) =~= encode_scalar(u) + encode_utf8(seq![]));
}

proof fn lemma_alnum_lower_single(b: u8)
    ensures
        alnum_lower_bytes(seq![b]) == (if is_alnum_byte(b) { seq![lower_byte(b)] } else { seq![] }),
{
    assert(seq![b].drop_first() =~= seq![]);
    assert(alnum_lower_bytes(seq![]) =~= seq![]);
    let head: Seq<u8> = if is_alnum_byte(b) { seq![lower_byte(b)] } else { seq![] };
    assert(head + seq![] =~= head);
}

proof fn lemma_alnum_lower_scalar(c: char)
    ensures
        alnum_lower_bytes(encode_scalar(c as u32)) == encode_utf8(
            if is_ascii_alnum(c) { seq![ascii_lower(c)] } else { seq![] },
        ),
{
    let s = c as u32;
    vstd::utf8::char_is_scalar(c);
    assert(encode_utf8(seq![]) =~= seq![]);
    if has_width_1_encoding(s) {
        let b = leading_byte_width_1(s);
        assert(b == s) by (bit_vector)
            requires b == (s & 0x7F) as u8, s <= 0x7F;
        assert(encode_scalar(s) =~= seq![b]);
        lemma_alnum_lower_single(b);
        if is_ascii_alnum(c) {
            let l = ascii_lower(c);
            if 'A' <= c && c <= 'Z' {
                assert((l as u32) == s + 32);
            }
            lemma_encode_ascii_char(l);
        }
    } else {
        let e = encode_scalar(s);
        assert forall|i: int| 0 <= i < e.len() implies e[i] >= 0x80 by {
            if has_width_2_encoding(s) {
                let b0 = leading_byte_width_2(s);
                let b1 = last_continuation_byte(s);
                assert(b0 >= 0x80 && b1 >= 0x80) by (bit_vector)
                    requires b0 == 0xC0 | ((s >> 6) & 0x1F) as u8, b1 == 0x80 | (s & 0x3F) as u8;
            } else if has_width_3_encoding(s) {
                let b0 = leading_byte_width_3(s);
                let b1 = second_last_continuation_byte(s);
                let b2 = last_continuation_byte(s);
                assert(b0 >= 0x80 && b1 >= 0x80 && b2 >= 0x80) by (bit_vector)
                    requires
                        b0 == 0xE0 | ((s >> 12) & 0x0F) as u8,
                        b1 == 0x80 | ((s >> 6) & 0x3F) as u8,
                        b2 == 0x80 | (s & 0x3F) as u8;
            } else {
                let b0 = leading_byte_width_4(s);
                let b1 = third_last_continuation_byte(s);
                let b2 = second_last_continuation_byte(s);
                let b3 = last_continuation_byte(s);
                assert(b0 >= 0x80 && b1 >= 0x80 && b2 >= 0x80 && b3 >= 0x80) by (bit_vector)
                    requires
                        b0 == 0xF0 | ((s >> 18) & 0x7) as u8,
                        b1 == 0x80 | ((s >> 12) & 0x3F) as u8,
                        b2 == 0x80 | ((s >> 6) & 0x3F) as u8,
                        b3 == 0x80 | (s & 0x3F) as u8;
            }
        }
        lemma_alnum_lower_high_bytes(e);
    }
}

proof fn lemma_alnum_lower_high_bytes(e: Seq<u8>)
    requires
        forall|i: int| 0 <= i < e.len() ==> e[i] >= 0x80,
    ensures
        alnum_lower_bytes(e) == Seq::<u8>::empty(),
    decreases e.len(),
{
    if e.len() > 0 {
        lemma_alnum_lower_high_bytes(e.drop_first());
        assert(seq![] + Seq::<u8>::empty() =~= Seq::<u8>::empty());
    }
}

/// Keeping the ASCII letters and digits of the UTF-8 bytes of a string, in
/// lower case, gives the UTF-8 bytes of its lower-cased ASCII letters and
/// digits: no byte of a multi-byte character is ASCII.
pub proof fn lemma_alnum_lower_encode(s: Seq<char>)
    ensures
        alnum_lower_bytes(encode_utf8(s)) == encode_utf8(alnum_lower(s)),
    decreases s.len(),
{
    if s.len() > 0 {
        let head: Seq<char> = if is_ascii_alnum(s[0]) { seq![ascii_lower(s[0])] } else { seq![] };
        lemma_alnum_lower_encode(s.drop_first());
        lemma_alnum_lower_bytes_concat(encode_scalar(s[0] as u32), encode_utf8(s.drop_first()));
        lemma_alnum_lower_scalar(s[0]);
        lemma_encode_utf8_concat(head, alnum_lower(s.drop_first()));
    }
}

/// The lower-cased ASCII letters and digits of `name`, as UTF-8 bytes.
pub fn alnum_lower_of(name: &str) -> (r: Vec<u8>)
    ensures
        r@ == encode_utf8(alnum_lower(name@)),
{
    let b = name.as_bytes();
    let n = b.len();
    let mut out: Vec<u8> = Vec::new();
    let mut i: usize = 0;
    while i < n
        invariant
            i <= n,
            n == b@.len(),
            out@ == alnum_lower_bytes(b@.subrange(0, i as int)),
        decreases n - i,
    {
        let c = b[i];
        proof {
            assert(b@.subrange(0, i + 1) =~= b@.subrange(0, i as int) + seq![c]);
            lemma_alnum_lower_bytes_concat(b@.subrange(0, i as int), seq![c]);
            lemma_alnum_lower_single(c);
        }
        if (0x30 <= c && c <= 0x39) || (0x61 <= c && c <= 0x7A) {
            out.push(c);
        } else if 0x41 <= c && c <= 0x5A {
            out.push(c + 32);
        }
        proof {
            assert(out@ =~= alnum_lower_bytes(b@.subrange(0, i + 1)));
        }
        i = i + 1;
    }
    proof {
        assert(b@.subrange(0, n as int) =~= b@);
        lemma_alnum_lower_encode(name@);
    }
    out
}

/// Whether the UTF-8 bytes `b` spell out the string `s`.
pub fn bytes_eq_str(b: &[u8], s: &str) -> (r: bool)
    ensures
        r == (b@ == encode_utf8(s@)),
        forall|t: Seq<char>| b@ == encode_utf8(t) ==> (r == (t == s@)),
{
    let r = bytes_eq(b, s.as_bytes());
    proof {
        assert forall|t: Seq<char>| b@ == encode_utf8(t) implies (r == (t == s@)) by {
            lemma_encode_utf8_injective(t, s@);
        }
    }
    r
}

} // verus!

verus! {

/// The first byte of a character's UTF-8 encoding is below 0x80 exactly when
/// the character is ASCII, and an ASCII character encodes as itself.
proof fn lemma_encode_scalar_first_byte(c: char)
    ensures
        encode_scalar(c as u32).len() >= 1,
        (c as u32) < 0x80 ==> encode_scalar(c as u32) == seq![(c as u32) as u8],
        (c as u32) >= 0x80 ==> encode_scalar(c as u32)[0] >= 0x80,
{
    let s = c as u32;
    vstd::utf8::char_is_scalar(c);
    if has_width_1_encoding(s) {
        let b = leading_byte_width_1(s);
        assert(b == s) by (bit_vector)
            requires b == (s & 0x7F) as u8, s <= 0x7F;
        assert(encode_scalar(s) =~= seq![(s as u8)]);
    } else if has_width_2_encoding(s) {
        let b0 = leading_byte_width_2(s);
        assert(b0 >= 0x80) by (bit_vector)
            requires b0 == 0xC0 | ((s >> 6) & 0x1F) as u8;
    } else if has_width_3_encoding(s) {
        let b0 = leading_byte_width_3(s);
        assert(b0 >= 0x80) by (bit_vector)
            requires b0 == 0xE0 | ((s >> 12) & 0x0F) as u8;
    } else {
        let b0 = leading_byte_width_4(s);
        assert(b0 >= 0x80) by (bit_vector)
            requires b0 == 0xF0 | ((s >> 18) & 0x7) as u8;
    }
}

/// A string's UTF-8 encoding starts with the ASCII byte `b` exactly when the
/// string starts with the character `b`; the rest of the encoding is then
/// the encoding of the rest of the string.
pub proof fn lemma_encode_utf8_ascii_head(s: Seq<char>, b: u8)
    requires
        b < 0x80,
    ensures
        (encode_utf8(s).len() > 0 && encode_utf8(s)[0] == b) <==> (s.len() > 0 && s[0] as u32
            == b as u32),
        s.len() > 0 && s[0] as u32 == b as u32 ==> encode_utf8(s) == seq![b] + encode_utf8(
            s.drop_first(),
        ),
{
    if s.len() > 0 {
        lemma_encode_scalar_first_byte(s[0]);
        let e = encode_scalar(s[0] as u32);
        assert(encode_utf8(s) == e + encode_utf8(s.drop_first()));
        assert(encode_utf8(s)[0] == e[0]);
        if (s[0] as u32) < 0x80 {
            assert(e[0] == (s[0] as u32) as u8);
        }
    }
}

} // verus!

verus! {

/// `a` comes strictly before `b` in lexicographic order of characters: at
/// the first position where they differ `a` has the smaller character, or
/// `a` is a proper prefix of `b`. For ASCII names this is byte order.
pub open spec fn str_precedes(a: Seq<char>, b: Seq<char>) -> bool {
    exists|k: int| #[trigger] precedes_at(a, b, k)
}

/// `a` and `b` agree before position `k`, and `k` decides `a` before `b`.
pub open spec fn precedes_at(a: Seq<char>, b: Seq<char>, k: int) -> bool {
    &&& 0 <= k <= a.len()
    &&& k <= b.len()
    &&& a.subrange(0, k) == b.subrange(0, k)
    &&& ((k < a.len() && k < b.len() && (a[k] as u32) < (b[k] as u32)) || (k == a.len() && k < b.len()))
}

/// Lexicographic order is transitive.
pub proof fn lemma_str_precedes_transitive(a: Seq<char>, b: Seq<char>, c: Seq<char>)
    requires
        str_precedes(a, b),
        str_precedes(b, c),
    ensures
        str_precedes(a, c),
{
    let k1 = choose|k: int| #[trigger] precedes_at(a, b, k);
    let k2 = choose|k: int| #[trigger] precedes_at(b, c, k);
    let k = if k1 <= k2 { k1 } else { k2 };
    assert forall|i: int| 0 <= i < k implies a[i] == c[i] by {
        assert(a.subrange(0, k1)[i] == b.subrange(0, k1)[i]);
        assert(b.subrange(0, k2)[i] == c.subrange(0, k2)[i]);
    }
    assert(a.subrange(0, k) =~= c.subrange(0, k));
    if k1 < k2 {
        assert(b.subrange(0, k2)[k1] == c.subrange(0, k2)[k1]);
    } else if k2 < k1 {
        assert(a.subrange(0, k1)[k2] == b.subrange(0, k1)[k2]);
    }
    assert(precedes_at(a, c, k));
}

/// A string never comes before itself, so strings in lexicographic order
/// are distinct.
pub proof fn lemma_str_precedes_distinct(a: Seq<char>, b: Seq<char>)
    requires
        str_precedes(a, b),
    ensures
        a != b,
{
    let k = choose|k: int| #[trigger] precedes_at(a, b, k);
    assert(precedes_at(a, b, k));
}

/// Reading an unsigned number: a non-empty run of decimal digits whose value
/// fits in `usize` reads as that value, with or without one leading `+`;
/// nothing else reads as a number (no sign but `+`, no empty text).
pub proof fn lemma_parse_usize_rules(d: Seq<u8>)
    ensures
        d.len() > 0 && (forall|i: int| 0 <= i < d.len() ==> 0x30 <= #[trigger] d[i] <= 0x39) && decimal_value(d)
            <= usize::MAX ==> parse_usize_spec(d) == Some(decimal_value(d)) && parse_usize_spec(seq![0x2Bu8] + d)
            == Some(decimal_value(d)),
        d.len() > 0 && d[0] == 0x2D ==> parse_usize_spec(d) is None,
        parse_usize_spec(Seq::<u8>::empty()) is None,
        parse_usize_spec(seq![0x2Bu8]) is None,
        parse_usize_spec(d) matches Some(v) ==> 0 <= v <= usize::MAX,
{
    assert((seq![0x2Bu8] + d).drop_first() =~= d);
    assert(seq![0x2Bu8].drop_first() =~= Seq::<u8>::empty());
    if parse_usize_spec(d) is Some {
        lemma_decimal_value_nonneg(unsigned_digits(d));
    }
}

/// Decimal digits read as a number in base ten, most significant first.
pub proof fn lemma_decimal_value_digits(d: Seq<u8>, c: u8)
    requires
        0x30 <= c <= 0x39,
    ensures
        decimal_value(d.push(c)) == 10 * decimal_value(d) + (c - 0x30),
        decimal_value(Seq::<u8>::empty()) == 0,
{
    assert(d.push(c).drop_last() =~= d);
}

/// Splitting at commas: text without a comma is one field (trimmed, and
/// dropped when empty), and text with a first comma is the field before it
/// followed by the fields after it.
pub proof fn lemma_comma_fields_split(a: Seq<u8>, b: Seq<u8>)
    requires
        forall|i: int| 0 <= i < a.len() ==> a[i] != 0x2C,
    ensures
        comma_fields(a) == (if trim_spec(a).len() > 0 { seq![trim_spec(a)] } else { Seq::<Seq<u8>>::empty() }),
        comma_fields(a + seq![0x2Cu8] + b) == (if trim_spec(a).len() > 0 {
            seq![trim_spec(a)]
        } else {
            Seq::<Seq<u8>>::empty()
        }) + comma_fields(b),
{
    lemma_first_index(a, 0x2C, a.len() as int);
    let t = a + seq![0x2Cu8] + b;
    assert forall|j: int| 0 <= j < a.len() implies t[j] != 0x2C by {
        assert(t[j] == a[j]);
    }
    assert(t[a.len() as int] == 0x2C);
    lemma_first_index(t, 0x2C, a.len() as int);
    assert(t.subrange(0, a.len() as int) =~= a);
    assert(t.subrange(a.len() as int + 1, t.len() as int) =~= b);
    if trim_spec(a).len() == 0 {
        assert(Seq::<Seq<u8>>::empty() + comma_fields(b) =~= comma_fields(b));
    }
}

} // verus!
