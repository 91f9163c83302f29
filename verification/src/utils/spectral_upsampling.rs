//! Readers for the binary look-up-table files of the spectral upsampling
//! step: the `.npy` spectra table and the Hanatos coefficient `.lut` table,
//! plus the mirrored index rule of the cubic interpolation.
//!
//! Reading the floating-point samples themselves happens outside this module;
//! here the file headers are checked and the sample region is located.

use vstd::prelude::*;
use vstd::utf8::valid_utf8;
use vstd::slice::slice_subrange;
use crate::utils::text::{
    find_byte,
    lemma_find_from,
    comma_fields, contains_bytes, contains_bytes_spec, find_bytes, find_bytes_spec, lemma_first_index,
    parse_usize_range, parse_usize_spec, str_eq, trim_range,
};

verus! {

/// Element types a spectra table may hold: little-endian half, single or
/// double precision floats.
#[derive(Debug, Clone, Copy, PartialEq, Eq, Structural)]
pub enum NpyDescr {
    F2,
    F4,
    F8,
}

/// Bytes per element of an element type.
pub open spec fn npy_bytes_per(d: NpyDescr) -> int {
    match d {
        NpyDescr::F2 => 2,
        NpyDescr::F4 => 4,
        NpyDescr::F8 => 8,
    }
}

impl NpyDescr {
    /// Bytes per element.
    pub fn bytes_per(self) -> (r: usize)
        ensures
            r == npy_bytes_per(self),
    {
        match self {
            NpyDescr::F2 => 2,
            NpyDescr::F4 => 4,
            NpyDescr::F8 => 8,
        }
    }

    /// The numpy type string of this element type.
    pub fn as_str(self) -> (r: &'static str)
        ensures
            r@ == (match self {
                NpyDescr::F2 => NPY_DESCR_F2@,
                NpyDescr::F4 => NPY_DESCR_F4@,
                NpyDescr::F8 => NPY_DESCR_F8@,
            }),
    {
        match self {
            NpyDescr::F2 => NPY_DESCR_F2,
            NpyDescr::F4 => NPY_DESCR_F4,
            NpyDescr::F8 => NPY_DESCR_F8,
        }
    }
}

pub const NPY_DESCR_F2: &'static str = "<f2";
pub const NPY_DESCR_F4: &'static str = "<f4";
pub const NPY_DESCR_F8: &'static str = "<f8";

/// The `.npy` magic string: byte 0x93 followed by `NUMPY`.
pub open spec fn npy_magic() -> Seq<u8> {
    seq![0x93u8, 0x4Eu8, 0x55u8, 0x4Du8, 0x50u8, 0x59u8]
}

pub const NPY_FORTRAN_FALSE_SQ: &'static str = "'fortran_order': False";
pub const NPY_FORTRAN_FALSE_DQ: &'static str = "\"fortran_order\": False";
pub const NPY_F2_SQ: &'static str = "'<f2'";
pub const NPY_F2_DQ: &'static str = "\"<f2\"";
pub const NPY_F4_SQ: &'static str = "'<f4'";
pub const NPY_F4_DQ: &'static str = "\"<f4\"";
pub const NPY_F8_SQ: &'static str = "'<f8'";
pub const NPY_F8_DQ: &'static str = "\"<f8\"";
pub const NPY_SHAPE_SQ: &'static str = "'shape':";
pub const NPY_SHAPE_DQ: &'static str = "\"shape\":";

/// The bytes of a string constant.
pub open spec fn lit(s: &str) -> Seq<u8> {
    vstd::utf8::encode_utf8(s@)
}

/// Where the header text of a `.npy` file starts and ends: after the magic
/// string, the version byte pair and a little-endian header length of two
/// bytes (version 1) or four bytes (versions 2 and 3).
pub open spec fn npy_header_bounds(b: Seq<u8>) -> Option<(int, int)> {
    if b.len() < 16 || b.subrange(0, 6) != npy_magic() {
        None
    } else {
        let major = b[6];
        let hs: int = if major == 1 { 10 } else { 12 };
        let hl: int = if major == 1 {
            b[8] + 256 * b[9]
        } else {
            b[8] + 256 * b[9] + 65536 * b[10] + 16777216 * b[11]
        };
        if major != 1 && major != 2 && major != 3 {
            None
        } else if hs + hl > b.len() {
            None
        } else {
            Some((hs, hs + hl))
        }
    }
}

/// The header declares C (row-major) order.
pub open spec fn npy_fortran_ok(h: Seq<u8>) -> bool {
    contains_bytes_spec(h, lit(NPY_FORTRAN_FALSE_SQ)) || contains_bytes_spec(h, lit(NPY_FORTRAN_FALSE_DQ))
}

/// The element type the header names; the smaller type wins when it names
/// several.
pub open spec fn npy_descr_spec(h: Seq<u8>) -> Option<NpyDescr> {
    if contains_bytes_spec(h, lit(NPY_F2_SQ)) || contains_bytes_spec(h, lit(NPY_F2_DQ)) {
        Some(NpyDescr::F2)
    } else if contains_bytes_spec(h, lit(NPY_F4_SQ)) || contains_bytes_spec(h, lit(NPY_F4_DQ)) {
        Some(NpyDescr::F4)
    } else if contains_bytes_spec(h, lit(NPY_F8_SQ)) || contains_bytes_spec(h, lit(NPY_F8_DQ)) {
        Some(NpyDescr::F8)
    } else {
        None
    }
}

/// A parsed dimension that is present and non-zero.
pub open spec fn is_positive_dim(o: Option<int>) -> bool {
    match o {
        Some(v) => v > 0,
        None => false,
    }
}

/// The three dimensions written between the parentheses of the shape
/// tuple: exactly three non-empty fields, each a non-zero `usize`.
pub open spec fn npy_dims_spec(inner: Seq<u8>) -> Option<(int, int, int)> {
    let f = comma_fields(inner);
    if f.len() == 3 && (forall|k: int| 0 <= k < 3 ==> is_positive_dim(#[trigger] parse_usize_spec(f[k]))) {
        Some((parse_usize_spec(f[0])->0, parse_usize_spec(f[1])->0, parse_usize_spec(f[2])->0))
    } else {
        None
    }
}

/// The text between the parentheses that follow the first `'shape':` key
/// (or, when there is none, the first `"shape":` key).
pub open spec fn npy_shape_text(h: Seq<u8>) -> Option<Seq<u8>> {
    let pos = match find_bytes_spec(h, lit(NPY_SHAPE_SQ)) {
        Some(p) => Some(p),
        None => find_bytes_spec(h, lit(NPY_SHAPE_DQ)),
    };
    match pos {
        None => None,
        Some(p) => {
            let after = h.subrange(p, h.len() as int);
            match find_bytes_spec(after, seq![0x28u8]) {
                None => None,
                Some(o) => {
                    let tail = after.subrange(o + 1, after.len() as int);
                    match find_bytes_spec(tail, seq![0x29u8]) {
                        None => None,
                        Some(c) => Some(tail.subrange(0, c)),
                    }
                },
            }
        },
    }
}

/// The shape the header declares.
pub open spec fn npy_shape_spec(h: Seq<u8>) -> Option<(int, int, int)> {
    match npy_shape_text(h) {
        None => None,
        Some(t) => npy_dims_spec(t),
    }
}

/// The layout of a `.npy` file holding a three-dimensional array: its
/// shape, element type and the offset of its data, which must be present in
/// full. `None` when any part of the header is missing or malformed.
pub open spec fn npy_layout(b: Seq<u8>) -> Option<(int, int, int, NpyDescr, int)> {
    match npy_header_bounds(b) {
        None => None,
        Some((hs, he)) => {
            let h = b.subrange(hs, he);
            if !valid_utf8(h) || !npy_fortran_ok(h) {
                None
            } else {
                match (npy_descr_spec(h), npy_shape_spec(h)) {
                    (Some(d), Some((x, y, z))) => {
                        let expected = x * y * z * npy_bytes_per(d);
                        if expected > usize::MAX || he + expected > b.len() {
                            None
                        } else {
                            Some((x, y, z, d, he))
                        }
                    },
                    _ => None,
                }
            }
        },
    }
}

/// A parsed `.npy` array: its shape, element type and raw element bytes.
#[derive(Clone, Copy)]
pub struct NpyArrayView<'a> {
    pub shape: [usize; 3],
    pub descr: NpyDescr,
    pub data: &'a [u8],
}

/// Whether `b` is valid UTF-8 text, as `std::str::from_utf8` decides: the
/// contract claims that `from_utf8` succeeds exactly on the byte strings that
/// vstd's `valid_utf8` accepts (well-formed, no overlong encodings, no
/// surrogates, nothing above U+10FFFF).
#[verifier::external_body]
fn utf8_is_valid(b: &[u8]) -> (r: bool)
    ensures
        r == valid_utf8(b@),
{
    std::str::from_utf8(b).is_ok()
}

/// Parse the comma-separated dimensions of a shape tuple.
pub fn parse_shape_fields(inner: &[u8]) -> (r: Option<[usize; 3]>)
    ensures
        match r {
            Some(d) => npy_dims_spec(inner@) == Some((d[0] as int, d[1] as int, d[2] as int)),
            None => npy_dims_spec(inner@) is None,
        },
{
    let n_all = inner.len();
    let mut dims: [usize; 3] = [0, 0, 0];
    let mut n: usize = 0;
    let mut seg_start: usize = 0;
    let ghost mut seen: Seq<Seq<u8>> = seq![];
    assert(inner@.subrange(0, n_all as int) =~= inner@);
    assert(seen + comma_fields(inner@) =~= comma_fields(inner@));
    loop
        invariant_except_break
            seen + comma_fields(inner@.subrange(seg_start as int, n_all as int)) == comma_fields(inner@),
        invariant
            n_all == inner@.len(),
            seg_start <= n_all,
            n <= 3,
            seen.len() == n,
            forall|k: int| 0 <= k < n ==> parse_usize_spec(#[trigger] seen[k]) == Some(dims[k] as int),
        ensures
            n <= 3,
            seen.len() == n,
            seen == comma_fields(inner@),
            forall|k: int| 0 <= k < n ==> parse_usize_spec(#[trigger] seen[k]) == Some(dims[k] as int),
        decreases n_all - seg_start,
    {
        let ghost rest = inner@.subrange(seg_start as int, n_all as int);
        let mut j = seg_start;
        while j < n_all && inner[j] != 0x2C
            invariant
                seg_start <= j <= n_all,
                n_all == inner@.len(),
                forall|k: int| seg_start <= k < j ==> inner@[k] != 0x2C,
            decreases n_all - j,
        {
            j = j + 1;
        }
        proof {
            assert forall|k: int| 0 <= k < j - seg_start implies rest[k] != 0x2C by {
                assert(rest[k] == inner@[seg_start + k]);
            }
            if j < n_all {
                assert(rest[j - seg_start] == inner@[j as int]);
            }
            lemma_first_index(rest, 0x2C, j - seg_start);
            assert(rest.subrange(0, j - seg_start) =~= inner@.subrange(seg_start as int, j as int));
            if j < n_all {
                assert(rest.subrange(j - seg_start + 1, rest.len() as int) =~= inner@.subrange(j + 1, n_all as int));
            } else {
                assert(rest =~= inner@.subrange(seg_start as int, j as int));
            }
        }
        let (a, b) = trim_range(inner, seg_start, j);
        let ghost head = inner@.subrange(a as int, b as int);
        if a < b {
            if n >= 3 {
                proof {
                    assert(comma_fields(rest).len() >= 1);
                    assert(comma_fields(inner@).len() > 3);
                }
                return None;
            }
            match parse_usize_range(inner, a, b) {
                None => {
                    proof {
                        assert(comma_fields(rest)[0] == head);
                        assert(comma_fields(inner@)[n as int] == head);
                        if comma_fields(inner@).len() == 3 {
                            assert(!(parse_usize_spec(comma_fields(inner@)[n as int]) matches Some(v) && v > 0));
                        }
                    }
                    return None;
                },
                Some(v) => {
                    dims[n] = v;
                    proof {
                        seen = seen.push(head);
                    }
                    n = n + 1;
                },
            }
        }
        if j >= n_all {
            proof {
                assert(comma_fields(inner@.subrange(seg_start as int, n_all as int)) =~= if head.len() > 0 { seq![head] } else { seq![] });
                assert(seen =~= comma_fields(inner@));
            }
            break;
        }
        proof {
            let next = inner@.subrange(j + 1, n_all as int);
            if head.len() > 0 {
                assert(seen.drop_last() + (seq![head] + comma_fields(next)) == comma_fields(inner@));
                assert(seen + comma_fields(next) =~= seen.drop_last() + (seq![head] + comma_fields(next)));
            }
        }
        seg_start = j + 1;
    }
    if n != 3 || dims[0] == 0 || dims[1] == 0 || dims[2] == 0 {
        proof {
            if n != 3 {
                assert(comma_fields(inner@).len() != 3);
            } else {
                let f = comma_fields(inner@);
                assert(f =~= seen);
                if dims[0] == 0 { assert(!(parse_usize_spec(f[0]) matches Some(v) && v > 0)); }
                if dims[1] == 0 { assert(!(parse_usize_spec(f[1]) matches Some(v) && v > 0)); }
                if dims[2] == 0 { assert(!(parse_usize_spec(f[2]) matches Some(v) && v > 0)); }
            }
        }
        return None;
    }
    proof {
        let f = comma_fields(inner@);
        assert(f =~= seen);
        assert(parse_usize_spec(f[0]) == Some(dims[0] as int));
        assert(parse_usize_spec(f[1]) == Some(dims[1] as int));
        assert(parse_usize_spec(f[2]) == Some(dims[2] as int));
    }
    Some(dims)
}


/// The element type named by a header, checking the smaller types first.
fn npy_descr_of(h: &[u8]) -> (r: Option<NpyDescr>)
    ensures
        r == npy_descr_spec(h@),
{
    if contains_bytes(h, NPY_F2_SQ.as_bytes()) || contains_bytes(h, NPY_F2_DQ.as_bytes()) {
        Some(NpyDescr::F2)
    } else if contains_bytes(h, NPY_F4_SQ.as_bytes()) || contains_bytes(h, NPY_F4_DQ.as_bytes()) {
        Some(NpyDescr::F4)
    } else if contains_bytes(h, NPY_F8_SQ.as_bytes()) || contains_bytes(h, NPY_F8_DQ.as_bytes()) {
        Some(NpyDescr::F8)
    } else {
        None
    }
}

/// The text between the parentheses of the shape tuple of a header.
fn npy_shape_text_of<'a>(h: &'a [u8]) -> (r: Option<&'a [u8]>)
    ensures
        match r {
            Some(t) => npy_shape_text(h@) == Some(t@),
            None => npy_shape_text(h@) is None,
        },
{
    let pos = match find_bytes(h, NPY_SHAPE_SQ.as_bytes()) {
        Some(p) => p,
        None => match find_bytes(h, NPY_SHAPE_DQ.as_bytes()) {
            Some(p) => p,
            None => return None,
        },
    };
    proof {
        lemma_find_from(h@, lit(NPY_SHAPE_SQ), 0);
        lemma_find_from(h@, lit(NPY_SHAPE_DQ), 0);
    }
    let after = slice_subrange(h, pos, h.len());
    let open = match find_byte(after, 0x28u8) {
        Some(o) => o,
        None => return None,
    };
    proof {
        lemma_find_from(after@, seq![0x28u8], 0);
    }
    let tail = slice_subrange(after, open + 1, after.len());
    let close = match find_byte(tail, 0x29u8) {
        Some(c) => c,
        None => return None,
    };
    proof {
        lemma_find_from(tail@, seq![0x29u8], 0);
    }
    Some(slice_subrange(tail, 0, close))
}

/// Parse the header of a `.npy` file holding a C-ordered three-dimensional
/// array of little-endian floats, and locate its data. `None` when the
/// magic string, version, header, element type or shape is malformed, or
/// when the file is shorter than the data the header announces.
pub fn parse_npy_array(bytes: &[u8]) -> (r: Option<NpyArrayView<'_>>)
    ensures
        match r {
            Some(v) => v.data@.len() == v.shape[0] * v.shape[1] * v.shape[2] * npy_bytes_per(v.descr)
                && npy_layout(bytes@) == Some((
                v.shape[0] as int,
                v.shape[1] as int,
                v.shape[2] as int,
                v.descr,
                (npy_layout(bytes@)->0).4,
            )) && v.data@ == bytes@.subrange(
                (npy_layout(bytes@)->0).4,
                (npy_layout(bytes@)->0).4 + v.shape[0] * v.shape[1] * v.shape[2] * npy_bytes_per(v.descr),
            ),
            None => npy_layout(bytes@) is None,
        },
{
    if bytes.len() < 16 {
        return None;
    }
    if !(bytes[0] == 0x93 && bytes[1] == 0x4E && bytes[2] == 0x55 && bytes[3] == 0x4D && bytes[4] == 0x50
        && bytes[5] == 0x59) {
        proof {
            if bytes@.subrange(0, 6) == npy_magic() {
                assert(bytes@.subrange(0, 6)[0] == bytes@[0]);
                assert(bytes@.subrange(0, 6)[1] == bytes@[1]);
                assert(bytes@.subrange(0, 6)[2] == bytes@[2]);
                assert(bytes@.subrange(0, 6)[3] == bytes@[3]);
                assert(bytes@.subrange(0, 6)[4] == bytes@[4]);
                assert(bytes@.subrange(0, 6)[5] == bytes@[5]);
            }
        }
        return None;
    }
    assert(bytes@.subrange(0, 6) =~= npy_magic());
    let major = bytes[6];
    let (header_len, header_start): (usize, usize) = if major == 1 {
        ((bytes[8] as usize) + 256 * (bytes[9] as usize), 10)
    } else if major == 2 || major == 3 {
        let v: u32 = (bytes[8] as u32) + 256 * (bytes[9] as u32) + 65536 * (bytes[10] as u32)
            + 16777216 * (bytes[11] as u32);
        (v as usize, 12)
    } else {
        return None;
    };
    let header_end = match header_start.checked_add(header_len) {
        Some(e) => e,
        None => return None,
    };
    if header_end > bytes.len() {
        return None;
    }
    let header = slice_subrange(bytes, header_start, header_end);
    if !utf8_is_valid(header) {
        return None;
    }
    if !(contains_bytes(header, NPY_FORTRAN_FALSE_SQ.as_bytes()) || contains_bytes(
        header,
        NPY_FORTRAN_FALSE_DQ.as_bytes(),
    )) {
        return None;
    }
    let descr = match npy_descr_of(header) {
        Some(d) => d,
        None => return None,
    };
    let text = match npy_shape_text_of(header) {
        Some(t) => t,
        None => return None,
    };
    let dims = match parse_shape_fields(text) {
        Some(d) => d,
        None => return None,
    };
    let bytes_per = descr.bytes_per();
    let expected = match dims[0].checked_mul(dims[1]) {
        Some(a) => match a.checked_mul(dims[2]) {
            Some(b) => match b.checked_mul(bytes_per) {
                Some(c) => c,
                None => return None,
            },
            None => {
                proof {
                    assert(dims[0] * dims[1] * dims[2] * bytes_per >= dims[0] * dims[1] * dims[2]) by (nonlinear_arith)
                        requires dims[0] * dims[1] * dims[2] >= 0, bytes_per >= 1;
                }
                return None;
            },
        },
        None => {
            proof {
                assert(dims[0] * dims[1] * dims[2] * bytes_per >= dims[0] * dims[1]) by (nonlinear_arith)
                    requires dims[0] * dims[1] >= 0, dims[2] >= 1, bytes_per >= 1;
            }
            return None;
        },
    };
    let data_end = match header_end.checked_add(expected) {
        Some(e) => e,
        None => return None,
    };
    if data_end > bytes.len() {
        return None;
    }
    let data = slice_subrange(bytes, header_end, data_end);
    Some(NpyArrayView { shape: dims, descr, data })
}


/// A parsed coefficient table: `width` x `height` cells of four
/// little-endian `f32` coefficients each.
#[derive(Clone, Copy)]
pub struct CoeffLutView<'a> {
    pub width: usize,
    pub height: usize,
    pub data: &'a [u8],
}

/// Little-endian `u32` at offset `i`.
pub open spec fn le_u32(b: Seq<u8>, i: int) -> int {
    b[i] + 256 * b[i + 1] + 65536 * b[i + 2] + 16777216 * b[i + 3]
}

/// A dimension field of the coefficient table: a little-endian `i32`
/// converted to `usize` (negative values wrap around).
pub open spec fn coeff_dim(b: Seq<u8>, i: int) -> usize {
    ((le_u32(b, i) as u32) as i32) as usize
}

/// The layout of a coefficient table: width and height at offsets 8 and 12,
/// then `width * height * 16` bytes of data from offset 16. `None` when a
/// dimension is zero, the size overflows `usize`, or the data is cut short.
pub open spec fn coeff_lut_layout(b: Seq<u8>) -> Option<(usize, usize)> {
    if b.len() < 16 {
        None
    } else {
        let w = coeff_dim(b, 8);
        let h = coeff_dim(b, 12);
        if w == 0 || h == 0 {
            None
        } else if w * h * 16 > usize::MAX || 16 + w * h * 16 > b.len() {
            None
        } else {
            Some((w, h))
        }
    }
}

fn read_dim(bytes: &[u8], i: usize) -> (r: usize)
    requires
        i + 4 <= bytes@.len(),
    ensures
        r == coeff_dim(bytes@, i as int),
{
    let v: u32 = (bytes[i] as u32) + 256 * (bytes[i + 1] as u32) + 65536 * (bytes[i + 2] as u32)
        + 16777216 * (bytes[i + 3] as u32);
    let signed = v as i32;
    signed as usize
}

/// Parse the header of a Hanatos coefficient table and locate its data.
pub fn parse_coeff_lut(bytes: &[u8]) -> (r: Option<CoeffLutView<'_>>)
    ensures
        match r {
            Some(v) => coeff_lut_layout(bytes@) == Some((v.width, v.height))
                && v.data@ == bytes@.subrange(16, 16 + v.width * v.height * 16)
                && v.data@.len() == v.width * v.height * 16,
            None => coeff_lut_layout(bytes@) is None,
        },
{
    if bytes.len() < 16 {
        return None;
    }
    let width = read_dim(bytes, 8);
    let height = read_dim(bytes, 12);
    if width == 0 || height == 0 {
        return None;
    }
    let expected = match width.checked_mul(height) {
        Some(a) => match a.checked_mul(4) {
            Some(b) => match b.checked_mul(4) {
                Some(c) => c,
                None => return None,
            },
            None => return None,
        },
        None => {
            proof {
                assert(width * height * 16 >= width * height) by (nonlinear_arith)
                    requires width * height >= 0;
            }
            return None;
        },
    };
    let end = match expected.checked_add(16) {
        Some(e) => e,
        None => return None,
    };
    if end > bytes.len() {
        return None;
    }
    Some(CoeffLutView { width, height, data: slice_subrange(bytes, 16, end) })
}

/// The side length the embedded spectra table is expected to have.
pub fn _embedded_spectra_lut_size_hint() -> (r: usize)
    ensures
        r == 192,
{
    DEFAULT_SPECTRA_LUT_SIZE
}

pub const DEFAULT_SPECTRA_LUT_SIZE: usize = 192;

/// The mirrored index rule used at the borders of the cubic interpolation:
/// indices below zero reflect about 0 (capped at the last index), indices
/// past the end reflect about the last index (clamped into range), and a
/// table of at most one entry always yields index 0.
pub open spec fn safe_index_spec(idx: int, len: int) -> int {
    if len <= 1 {
        0
    } else if idx < 0 {
        if -idx < len - 1 { -idx } else { len - 1 }
    } else if idx >= len {
        let m = 2 * (len - 1) - idx;
        if m < 0 { 0 } else if m > len - 1 { len - 1 } else { m }
    } else {
        idx
    }
}

/// Map a possibly out-of-range neighbour index onto the table by mirroring.
pub fn safe_index(idx: isize, len: usize) -> (r: usize)
    requires
        idx > isize::MIN,
        2 * len <= isize::MAX + 2,
    ensures
        r == safe_index_spec(idx as int, len as int),
        len >= 1 ==> r < len,
{
    if len <= 1 {
        0
    } else if idx < 0 {
        let last = (len - 1) as isize;
        let m = if -idx < last { -idx } else { last };
        m as usize
    } else if idx >= len as isize {
        let last = (len - 1) as isize;
        let m = 2 * last - idx;
        let c = if m < 0 { 0 } else if m > last { last } else { m };
        c as usize
    } else {
        idx as usize
    }
}

} // verus!

verus! {

/// The RGB encodings the spectral upsampler accepts, by primaries and
/// transfer curve.
#[derive(Debug, Clone, Copy, PartialEq, Eq, Structural)]
pub enum UpsamplingSpace {
    Srgb,
    Rec2020,
    ProPhoto,
}

pub const UPSAMPLING_REC2020_NAMES: [&'static str; 5] = ["ITU-R BT.2020", "Rec2020", "BT.2020", "rec2020", "bt2020"];
pub const UPSAMPLING_PROPHOTO_NAMES: [&'static str; 4] = ["ProPhoto RGB", "prophoto-rgb", "ProPhoto", "ROMM RGB"];

/// The space a colour-space label selects: one of the spellings of Rec. 2020
/// or of ProPhoto, and sRGB for every other label.
pub open spec fn upsampling_space_spec(name: Seq<char>) -> UpsamplingSpace {
    if exists|i: int| 0 <= i < 5 && name == (#[trigger] UPSAMPLING_REC2020_NAMES@[i])@ {
        UpsamplingSpace::Rec2020
    } else if exists|i: int| 0 <= i < 4 && name == (#[trigger] UPSAMPLING_PROPHOTO_NAMES@[i])@ {
        UpsamplingSpace::ProPhoto
    } else {
        UpsamplingSpace::Srgb
    }
}

/// Whether `name` is one of `names`.
fn names_contain(names: &[&'static str], name: &str) -> (r: bool)
    ensures
        r == exists|i: int| 0 <= i < names@.len() && name@ == (#[trigger] names@[i])@,
{
    let mut i: usize = 0;
    while i < names.len()
        invariant
            0 <= i <= names@.len(),
            forall|k: int| 0 <= k < i ==> name@ != (#[trigger] names@[k])@,
        decreases names@.len() - i,
    {
        if str_eq(name, names[i]) {
            assert(name@ == names@[i as int]@);
            return true;
        }
        i = i + 1;
    }
    false
}

/// The space whose transfer curve and primaries the upsampler uses for an
/// RGB input labelled `name`.
pub fn upsampling_space(name: &str) -> (r: UpsamplingSpace)
    ensures
        r == upsampling_space_spec(name@),
{
    if names_contain(&UPSAMPLING_REC2020_NAMES, name) {
        UpsamplingSpace::Rec2020
    } else if names_contain(&UPSAMPLING_PROPHOTO_NAMES, name) {
        UpsamplingSpace::ProPhoto
    } else {
        UpsamplingSpace::Srgb
    }
}

/// The element type of a header is read from its quoted type string, in
/// single or double quotes alike: a header naming `<f2` is half precision;
/// otherwise one naming `<f4` is single precision; otherwise one naming
/// `<f8` is double precision; a header naming none of them has no supported
/// element type.
pub proof fn lemma_npy_descr_from_quoted_type(h: Seq<u8>)
    ensures
        ({
            let f2 = contains_bytes_spec(h, lit("'<f2'")) || contains_bytes_spec(h, lit("\"<f2\""));
            let f4 = contains_bytes_spec(h, lit("'<f4'")) || contains_bytes_spec(h, lit("\"<f4\""));
            let f8 = contains_bytes_spec(h, lit("'<f8'")) || contains_bytes_spec(h, lit("\"<f8\""));
            &&& f2 ==> npy_descr_spec(h) == Some(NpyDescr::F2)
            &&& !f2 && f4 ==> npy_descr_spec(h) == Some(NpyDescr::F4)
            &&& !f2 && !f4 && f8 ==> npy_descr_spec(h) == Some(NpyDescr::F8)
            &&& !f2 && !f4 && !f8 <==> npy_descr_spec(h) is None
        }),
{
}

/// The spellings of each upsampling space: Rec. 2020 is `ITU-R BT.2020`,
/// `Rec2020`, `BT.2020`, `rec2020` or `bt2020`; ProPhoto is `ProPhoto RGB`,
/// `prophoto-rgb`, `ProPhoto` or `ROMM RGB`; every other label is sRGB.
pub proof fn lemma_upsampling_space_names(name: Seq<char>)
    ensures
        upsampling_space_spec(name) == UpsamplingSpace::Rec2020 <==> (name == "ITU-R BT.2020"@ || name == "Rec2020"@ || name == "BT.2020"@ || name == "rec2020"@ || name == "bt2020"@),
        upsampling_space_spec(name) == UpsamplingSpace::ProPhoto <==> (name == "ProPhoto RGB"@ || name == "prophoto-rgb"@ || name == "ProPhoto"@ || name == "ROMM RGB"@),
        upsampling_space_spec(name) == UpsamplingSpace::Srgb <==> (!(name == "ITU-R BT.2020"@ || name == "Rec2020"@ || name == "BT.2020"@ || name == "rec2020"@ || name == "bt2020"@ || name == "ProPhoto RGB"@ || name == "prophoto-rgb"@ || name == "ProPhoto"@ || name == "ROMM RGB"@)),
{
    reveal_strlit("BT.2020");
    reveal_strlit("ITU-R BT.2020");
    reveal_strlit("ProPhoto");
    reveal_strlit("ProPhoto RGB");
    reveal_strlit("ROMM RGB");
    reveal_strlit("Rec2020");
    reveal_strlit("bt2020");
    reveal_strlit("prophoto-rgb");
    reveal_strlit("rec2020");
    assert("bt2020"@.len() == 6);
    assert("BT.2020"@.len() == 7 && "Rec2020"@.len() == 7 && "rec2020"@.len() == 7);
    assert("BT.2020"@[0] != "Rec2020"@[0]);
    assert("BT.2020"@[0] != "rec2020"@[0]);
    assert("Rec2020"@[0] != "rec2020"@[0]);
    assert("ProPhoto"@.len() == 8 && "ROMM RGB"@.len() == 8);
    assert("ProPhoto"@[0] != "ROMM RGB"@[0]);
    assert("ProPhoto RGB"@.len() == 12 && "prophoto-rgb"@.len() == 12);
    assert("ProPhoto RGB"@[0] != "prophoto-rgb"@[0]);
    assert("ITU-R BT.2020"@.len() == 13);
}

/// How a neighbour index lands on a table of `len` entries: inside the table
/// it is kept; just before the start it is mirrored about entry 0, and just
/// past the end about the last entry; further out it sticks to the last
/// entry (before the start) or the first (past the mirrored range); a table
/// of at most one entry always gives entry 0.
pub proof fn lemma_safe_index_mirrors(idx: int, len: int)
    ensures
        len <= 1 ==> safe_index_spec(idx, len) == 0,
        len >= 2 ==> 0 <= safe_index_spec(idx, len) < len,
        len >= 2 && 0 <= idx < len ==> safe_index_spec(idx, len) == idx,
        len >= 2 && -(len - 1) <= idx < 0 ==> safe_index_spec(idx, len) == -idx,
        len >= 2 && idx < -(len - 1) ==> safe_index_spec(idx, len) == len - 1,
        len >= 2 && len <= idx <= 2 * (len - 1) ==> safe_index_spec(idx, len) == 2 * (len - 1) - idx,
        len >= 2 && idx > 2 * (len - 1) ==> safe_index_spec(idx, len) == 0,
{
}

/// Where a `.npy` header lies: the file must start with the byte 0x93 and
/// `NUMPY` and be at least 16 bytes long; version 1 gives a two-byte
/// little-endian header length at offset 8 and the header from offset 10,
/// versions 2 and 3 a four-byte length at offset 8 and the header from
/// offset 12; the header must fit in the file; other versions have none.
pub proof fn lemma_npy_header_rules(b: Seq<u8>)
    ensures
        ({
            let magic = b.len() >= 16 && b[0] == 0x93 && b[1] == 0x4E && b[2] == 0x55 && b[3] == 0x4D && b[4]
                == 0x50 && b[5] == 0x59;
            let short_len = b[8] + 256 * b[9];
            let long_len = b[8] + 256 * b[9] + 65536 * b[10] + 16777216 * b[11];
            &&& !magic ==> npy_header_bounds(b) is None
            &&& magic && b[6] == 1 ==> npy_header_bounds(b) == if 10 + short_len <= b.len() {
                Some((10int, 10 + short_len))
            } else {
                None
            }
            &&& magic && (b[6] == 2 || b[6] == 3) ==> npy_header_bounds(b) == if 12 + long_len <= b.len() {
                Some((12int, 12 + long_len))
            } else {
                None
            }
            &&& b[6] != 1 && b[6] != 2 && b[6] != 3 ==> npy_header_bounds(b) is None
        }),
{
    if b.len() >= 16 {
        let magic = b[0] == 0x93 && b[1] == 0x4E && b[2] == 0x55 && b[3] == 0x4D && b[4] == 0x50 && b[5] == 0x59;
        if magic {
            assert(b.subrange(0, 6) =~= npy_magic());
        } else {
            assert(b.subrange(0, 6) != npy_magic()) by {
                if b.subrange(0, 6) == npy_magic() {
                    assert(b.subrange(0, 6)[0] == b[0] && b.subrange(0, 6)[1] == b[1] && b.subrange(0, 6)[2] == b[2]
                        && b.subrange(0, 6)[3] == b[3] && b.subrange(0, 6)[4] == b[4] && b.subrange(0, 6)[5] == b[5]);
                }
            }
        }
    }
}

/// Where a coefficient table's data lies: width and height are the
/// little-endian 32-bit fields at offsets 8 and 12, read as signed values
/// converted to `usize`; both must be non-zero, and the `width * height`
/// cells of 16 bytes each must follow the 16-byte header in full.
pub proof fn lemma_coeff_table_rules(b: Seq<u8>)
    ensures
        b.len() < 16 ==> coeff_lut_layout(b) is None,
        b.len() >= 16 ==> {
            let w = coeff_dim(b, 8);
            let h = coeff_dim(b, 12);
            coeff_lut_layout(b) is Some <==> (w > 0 && h > 0 && w * h * 16 <= usize::MAX && 16 + w * h * 16
                <= b.len())
        },
        coeff_lut_layout(b) matches Some((w, h)) ==> w == coeff_dim(b, 8) && h == coeff_dim(b, 12),
{
}

} // verus!
