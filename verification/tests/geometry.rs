use spectralfilm::utils::crop_resize::{crop_copy, crop_origin};
use spectralfilm::utils::gaussian::reflect_index;

#[test]
fn crop_origin_centres_and_clamps() {
    assert_eq!(crop_origin(50, 20, 100), 40);
    assert_eq!(crop_origin(50, 21, 100), 40);
    assert_eq!(crop_origin(5, 20, 100), 0);
    assert_eq!(crop_origin(-7, 20, 100), 0);
    assert_eq!(crop_origin(99, 20, 100), 80);
    assert_eq!(crop_origin(100, 20, 100), 80);
    assert_eq!(crop_origin(3, 10, 10), 0);
    assert_eq!(crop_origin(0, 1, 1), 0);
}

#[test]
fn crop_copies_the_window() {
    let (w, h, ch) = (4usize, 3usize, 2usize);
    let image: Vec<u32> = (0..(w * h * ch) as u32).collect();
    let out = crop_copy(&image, w, h, ch, 1, 1, 2, 2);
    assert_eq!(out, vec![10, 11, 12, 13, 18, 19, 20, 21]);
    let whole = crop_copy(&image, w, h, ch, 0, 0, w, h);
    assert_eq!(whole, image);
    assert!(crop_copy(&image, w, h, ch, 2, 1, 0, 2).is_empty());
    assert!(crop_copy(&image, w, h, 0, 0, 0, 2, 2).is_empty());
}

#[test]
fn crop_of_floats() {
    let image = [0.5f64, 1.5, 2.5, 3.5, 4.5, 5.5];
    assert_eq!(crop_copy(&image, 3, 2, 1, 2, 0, 1, 2), vec![2.5, 5.5]);
}

#[test]
fn reflected_indices() {
    assert_eq!(reflect_index(-1, 5), 0);
    assert_eq!(reflect_index(-2, 5), 1);
    assert_eq!(reflect_index(-5, 5), 4);
    assert_eq!(reflect_index(-6, 5), 4);
    assert_eq!(reflect_index(5, 5), 4);
    assert_eq!(reflect_index(9, 5), 0);
    assert_eq!(reflect_index(10, 5), 0);
    assert_eq!(reflect_index(12, 5), 2);
    assert_eq!(reflect_index(3, 5), 3);
    assert_eq!(reflect_index(-100, 1), 0);
    for i in -30isize..30 {
        assert_eq!(reflect_index(-1 - i, 7), reflect_index(i, 7));
        if i >= 0 {
            assert_eq!(reflect_index(i + 14, 7), reflect_index(i, 7));
        }
    }
}
