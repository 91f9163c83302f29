use spectralfilm::runtime::pipeline::{check_input_buffer, SimulationError, INPUT_TOO_SHORT};
use spectralfilm::utils::image_buffers::{rgb_sample_count, validate_rgb_buffer, BufferError};

#[test]
fn sample_count_of_small_images() {
    assert_eq!(rgb_sample_count(4, 3), Ok(36));
    assert_eq!(rgb_sample_count(0, 100), Ok(0));
    assert_eq!(rgb_sample_count(1, 1), Ok(3));
}

#[test]
fn sample_count_overflow() {
    assert_eq!(
        rgb_sample_count(usize::MAX, 2),
        Err(BufferError::DimensionOverflow { width: usize::MAX, height: 2 })
    );
    let w = usize::MAX / 3 + 1;
    assert_eq!(rgb_sample_count(w, 1), Err(BufferError::DimensionOverflow { width: w, height: 1 }));
    assert_eq!(rgb_sample_count(usize::MAX / 3, 1), Ok((usize::MAX / 3) * 3));
}

#[test]
fn buffer_validation() {
    let buf = vec![0.0f32; 12];
    assert_eq!(validate_rgb_buffer(&buf, 2, 2), Ok(12));
    assert_eq!(validate_rgb_buffer(&buf, 1, 3), Ok(9));
    assert_eq!(
        validate_rgb_buffer(&buf, 3, 2),
        Err(BufferError::BufferTooShort { required: 18, actual: 12 })
    );
    assert_eq!(
        validate_rgb_buffer(&buf, usize::MAX, usize::MAX),
        Err(BufferError::DimensionOverflow { width: usize::MAX, height: usize::MAX })
    );
    let empty: [u16; 0] = [];
    assert_eq!(validate_rgb_buffer(&empty, 0, 5), Ok(0));
}

#[test]
fn pipeline_input_check() {
    assert_eq!(check_input_buffer(12, 2, 2).unwrap(), 12);
    assert_eq!(check_input_buffer(13, 2, 2).unwrap(), 12);
    match check_input_buffer(11, 2, 2) {
        Err(SimulationError::InvalidInput(m)) => {
            assert_eq!(m, INPUT_TOO_SHORT);
            assert_eq!(m, "input buffer shorter than width*height*3");
        }
        Ok(_) => panic!("a short buffer was accepted"),
    }
}
