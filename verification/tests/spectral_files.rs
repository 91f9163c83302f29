use spectralfilm::utils::spectral_upsampling::{
    _embedded_spectra_lut_size_hint, parse_coeff_lut, parse_npy_array, safe_index, NpyDescr,
    DEFAULT_SPECTRA_LUT_SIZE,
};

fn npy(major: u8, header: &[u8], data_len: usize) -> Vec<u8> {
    let mut b = vec![0x93, b'N', b'U', b'M', b'P', b'Y', major, 0];
    let n = header.len();
    if major == 1 {
        b.extend_from_slice(&(n as u16).to_le_bytes());
    } else {
        b.extend_from_slice(&(n as u32).to_le_bytes());
    }
    b.extend_from_slice(header);
    b.extend((0..data_len).map(|i| i as u8));
    b
}

const HEADER_F4: &str = "{'descr': '<f4', 'fortran_order': False, 'shape': (2, 3, 4), }        \n";

#[test]
fn parses_version_one_header() {
    let bytes = npy(1, HEADER_F4.as_bytes(), 96);
    let v = parse_npy_array(&bytes).expect("valid file");
    assert_eq!(v.shape, [2, 3, 4]);
    assert_eq!(v.descr, NpyDescr::F4);
    assert_eq!(v.descr.bytes_per(), 4);
    assert_eq!(v.descr.as_str(), "<f4");
    assert_eq!(v.data.len(), 96);
    assert_eq!(v.data, &bytes[10 + HEADER_F4.len()..]);
}

#[test]
fn parses_version_two_header_and_trailing_data() {
    let header = "{\"descr\": \"<f8\", \"fortran_order\": False, \"shape\": ( 1 ,2,+3, )}\n";
    let bytes = npy(2, header.as_bytes(), 60);
    let v = parse_npy_array(&bytes).expect("valid file");
    assert_eq!(v.shape, [1, 2, 3]);
    assert_eq!(v.descr, NpyDescr::F8);
    assert_eq!(v.data.len(), 48);
    assert_eq!(v.data[0], 0);
    assert_eq!(v.data[47], 47);
}

#[test]
fn half_precision_wins_when_several_types_are_named() {
    let header = "{'descr': '<f4', 'other': '<f2', 'fortran_order': False, 'shape': (1, 1, 1), }\n";
    let bytes = npy(1, header.as_bytes(), 2);
    let v = parse_npy_array(&bytes).expect("valid file");
    assert_eq!(v.descr, NpyDescr::F2);
    assert_eq!(v.data.len(), 2);
}

#[test]
fn rejects_malformed_files() {
    let good = npy(1, HEADER_F4.as_bytes(), 96);
    let mut bad_magic = good.clone();
    bad_magic[1] = b'n';
    assert!(parse_npy_array(&bad_magic).is_none());
    assert!(parse_npy_array(&good[..15]).is_none());
    assert!(parse_npy_array(&good[..good.len() - 1]).is_none());
    assert!(parse_npy_array(&npy(4, HEADER_F4.as_bytes(), 96)).is_none());
    let fortran = "{'descr': '<f4', 'fortran_order': True, 'shape': (2, 3, 4), }\n";
    assert!(parse_npy_array(&npy(1, fortran.as_bytes(), 96)).is_none());
    let ints = "{'descr': '<i4', 'fortran_order': False, 'shape': (2, 3, 4), }\n";
    assert!(parse_npy_array(&npy(1, ints.as_bytes(), 96)).is_none());
    let two_d = "{'descr': '<f4', 'fortran_order': False, 'shape': (2, 3), }\n";
    assert!(parse_npy_array(&npy(1, two_d.as_bytes(), 96)).is_none());
    let four_d = "{'descr': '<f4', 'fortran_order': False, 'shape': (1, 2, 3, 4), }\n";
    assert!(parse_npy_array(&npy(1, four_d.as_bytes(), 96)).is_none());
    let zero = "{'descr': '<f4', 'fortran_order': False, 'shape': (0, 3, 4), }\n";
    assert!(parse_npy_array(&npy(1, zero.as_bytes(), 96)).is_none());
    let text = "{'descr': '<f4', 'fortran_order': False, 'shape': (2, x, 4), }\n";
    assert!(parse_npy_array(&npy(1, text.as_bytes(), 96)).is_none());
    let no_shape = "{'descr': '<f4', 'fortran_order': False}\n";
    assert!(parse_npy_array(&npy(1, no_shape.as_bytes(), 96)).is_none());
    let mut long_header = good.clone();
    long_header[8] = 0xff;
    long_header[9] = 0xff;
    assert!(parse_npy_array(&long_header).is_none());
}

#[test]
fn rejects_header_that_is_not_utf8() {
    let mut header = HEADER_F4.as_bytes().to_vec();
    let n = header.len();
    header[n - 3] = 0xff;
    let bytes = npy(1, &header, 96);
    assert!(parse_npy_array(&bytes).is_none());
    header[n - 3] = b' ';
    assert!(parse_npy_array(&npy(1, &header, 96)).is_some());
}

fn coeff(width: i32, height: i32, data_len: usize) -> Vec<u8> {
    let mut b = vec![7u8; 8];
    b.extend_from_slice(&width.to_le_bytes());
    b.extend_from_slice(&height.to_le_bytes());
    b.extend(std::iter::repeat(1u8).take(data_len));
    b
}

#[test]
fn coefficient_table_layout() {
    let bytes = coeff(2, 3, 96);
    let v = parse_coeff_lut(&bytes).expect("valid table");
    assert_eq!(v.width, 2);
    assert_eq!(v.height, 3);
    assert_eq!(v.data.len(), 96);
    let longer = coeff(2, 3, 100);
    assert_eq!(parse_coeff_lut(&longer).unwrap().data.len(), 96);
    let big = coeff(300, 1, 300 * 16);
    assert_eq!(parse_coeff_lut(&big).unwrap().width, 300);
}

#[test]
fn coefficient_table_errors() {
    assert!(parse_coeff_lut(&coeff(2, 3, 95)).is_none());
    assert!(parse_coeff_lut(&coeff(0, 3, 96)).is_none());
    assert!(parse_coeff_lut(&coeff(2, 0, 96)).is_none());
    assert!(parse_coeff_lut(&coeff(-1, 1, 96)).is_none());
    assert!(parse_coeff_lut(&[0u8; 15]).is_none());
}

#[test]
fn mirrored_table_indices() {
    assert_eq!(safe_index(-2, 5), 2);
    assert_eq!(safe_index(-10, 5), 4);
    assert_eq!(safe_index(5, 5), 3);
    assert_eq!(safe_index(7, 5), 1);
    assert_eq!(safe_index(20, 5), 0);
    assert_eq!(safe_index(3, 5), 3);
    assert_eq!(safe_index(0, 5), 0);
    assert_eq!(safe_index(9, 1), 0);
    assert_eq!(safe_index(-3, 0), 0);
}

#[test]
fn spectra_table_size_hint() {
    assert_eq!(_embedded_spectra_lut_size_hint(), 192);
    assert_eq!(DEFAULT_SPECTRA_LUT_SIZE, 192);
}
