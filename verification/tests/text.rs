use spectralfilm::utils::spectral_upsampling::parse_shape_fields;
use spectralfilm::utils::text::{
    alnum_lower_of, bytes_eq, bytes_eq_str, contains_bytes, find_byte, find_bytes, find_bytes_from, parse_usize_range,
    str_eq, trim_range,
};

#[test]
fn byte_search() {
    let h = b"abcabcab";
    assert_eq!(find_bytes(h, b"cab"), Some(2));
    assert_eq!(find_bytes(h, b"abd"), None);
    assert_eq!(find_bytes(h, b""), Some(0));
    assert_eq!(find_bytes(b"ab", b"abc"), None);
    assert_eq!(find_bytes_from(h, b"ab", 1), Some(3));
    assert_eq!(find_bytes_from(h, b"ab", 7), None);
    assert!(contains_bytes(h, b"bca"));
    assert!(!contains_bytes(h, b"cc"));
    assert_eq!(find_byte(h, b'c'), Some(2));
    assert_eq!(find_byte(h, b'z'), None);
}

#[test]
fn equality_helpers() {
    assert!(bytes_eq(b"abc", b"abc"));
    assert!(!bytes_eq(b"abc", b"abd"));
    assert!(!bytes_eq(b"abc", b"ab"));
    assert!(str_eq("film", "film"));
    assert!(!str_eq("film", "Film"));
    assert!(str_eq("", ""));
    assert!(bytes_eq_str("caf\u{e9}".as_bytes(), "caf\u{e9}"));
    assert!(!bytes_eq_str(b"cafe", "caf\u{e9}"));
}

#[test]
fn trimming_white_space() {
    let h = " \t 12 \n".as_bytes();
    let (a, b) = trim_range(h, 0, h.len());
    assert_eq!(&h[a..b], b"12");
    let h = "\u{a0}\u{2003}x y\u{3000}".as_bytes();
    let (a, b) = trim_range(h, 0, h.len());
    assert_eq!(&h[a..b], b"x y");
    let h = b"   ";
    let (a, b) = trim_range(h, 0, 3);
    assert_eq!(a, b);
    let h = b"ab  cd";
    assert_eq!(trim_range(h, 2, 6), (4, 6));
}

#[test]
fn unsigned_parsing() {
    let h = b"x+42y007z";
    assert_eq!(parse_usize_range(h, 1, 4), Some(42));
    assert_eq!(parse_usize_range(h, 5, 8), Some(7));
    assert_eq!(parse_usize_range(h, 0, 4), None);
    assert_eq!(parse_usize_range(h, 1, 2), None);
    assert_eq!(parse_usize_range(h, 3, 3), None);
    let max = usize::MAX.to_string();
    assert_eq!(parse_usize_range(max.as_bytes(), 0, max.len()), Some(usize::MAX));
    let over = format!("{}0", usize::MAX);
    assert_eq!(parse_usize_range(over.as_bytes(), 0, over.len()), None);
    assert_eq!(parse_usize_range(b"-1", 0, 2), None);
}

#[test]
fn shape_fields() {
    assert_eq!(parse_shape_fields(b"2, 3, 4"), Some([2, 3, 4]));
    assert_eq!(parse_shape_fields(b" 2 ,3,4 ,"), Some([2, 3, 4]));
    assert_eq!(parse_shape_fields(b"2,,3,4"), Some([2, 3, 4]));
    assert_eq!(parse_shape_fields(b"2,3"), None);
    assert_eq!(parse_shape_fields(b"2,3,4,5"), None);
    assert_eq!(parse_shape_fields(b"2,0,4"), None);
    assert_eq!(parse_shape_fields(b"2,3,a"), None);
}

#[test]
fn lower_case_letters_and_digits() {
    assert_eq!(alnum_lower_of("ITU-R BT.2020"), b"iturbt2020".to_vec());
    assert_eq!(alnum_lower_of("Caf\u{c9} 9"), b"caf9".to_vec());
    assert_eq!(alnum_lower_of(""), Vec::<u8>::new());
}
