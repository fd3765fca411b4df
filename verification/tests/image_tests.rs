use image_processor::image::{ImageError, Images};
use image_processor::pixel::Pixels;

#[test]
fn pixel_add_test() {
    let pix1 = Pixels::new(10, 20, 30, 255);
    let pix2 = Pixels::new(50, 60, 70, 255);

    let pix_computed = pix1.add(pix2);
    let expected_pix = Pixels::new(60, 80, 100, 255);

    assert_eq!(pix_computed, expected_pix);
}

#[test]
fn pixel_sub_test() {
    let pix1 = Pixels::new(10, 20, 30, 255);
    let pix2 = Pixels::new(50, 60, 70, 155);

    let pix_computed = pix2.sub(pix1);
    let expected_pix = Pixels::new(40, 40, 40, 0);

    assert_eq!(pix_computed, expected_pix);
}

#[test]
fn pixel_mulf64_test() {
    let pix1 = Pixels::new(10, 20, 30, 255);
    let num = 10;

    let pix_computed = pix1.mul(num);
    let expected_pix = Pixels::new(100, 200, 255, 255);

    assert_eq!(pix_computed, expected_pix);
}

#[test]
fn image_get_pixel_at_location_test() {
    let img = Images::new(
        2,
        2,
        3,
        vec![
            Pixels::new(10, 20, 30, 255),
            Pixels::new(40, 50, 60, 255),
            Pixels::new(70, 80, 90, 255),
            Pixels::new(100, 110, 120, 255),
        ],
    );

    let pix_computed = img.get_pixel_at(1, 1).unwrap_or_default();
    let expected_pix = Pixels::new(100, 110, 120, 255);

    assert_eq!(pix_computed, expected_pix);
}

#[test]
fn image_get_pixel_at_location_out_of_bounds_test() {
    let img = Images::new(
        2,
        2,
        3,
        vec![
            Pixels::new(10, 20, 30, 255),
            Pixels::new(40, 50, 60, 255),
            Pixels::new(70, 80, 90, 255),
            Pixels::new(100, 110, 120, 255),
        ],
    );

    let pix_computed = img.get_pixel_at(4, 4).unwrap_or_default();
    let expected_pix = Pixels::new(0, 0, 0, 255);

    assert_eq!(pix_computed, expected_pix);
}

#[test]
fn pixel_div_test() {
    let pix = Pixels::new(100, 55, 9, 255);

    let pix_computed = pix.div(10);
    let expected_pix = Pixels::new(10, 5, 0, 25);

    assert_eq!(pix_computed, expected_pix);
}

#[test]
fn pixel_default_test() {
    let pix: Pixels = Default::default();

    assert_eq!(pix, Pixels::new(0, 0, 0, 255));
}

#[test]
fn image_get_pixel_at_error_kind_test() {
    let img = Images::new(2, 2, 3, vec![Pixels::new(1, 2, 3, 255); 4]);

    assert_eq!(img.get_pixel_at(2, 0), Err(ImageError::OutOfBounds));
    assert_eq!(img.get_pixel_at(0, 2), Err(ImageError::OutOfBounds));
}

#[test]
fn image_get_pixel_at_short_buffer_test() {
    // The declared dimensions promise four pixels but only three exist.
    let img = Images::new(2, 2, 3, vec![Pixels::new(1, 2, 3, 255); 3]);

    assert_eq!(img.get_pixel_at(1, 0).unwrap(), Pixels::new(1, 2, 3, 255));
    assert_eq!(img.get_pixel_at(1, 1), Err(ImageError::OutOfBounds));
}

#[test]
fn image_add_pixel_test() {
    let mut img = Images::new(2, 1, 3, vec![Pixels::new(1, 1, 1, 255)]);
    img.add_pixel(Pixels::new(2, 2, 2, 255));

    assert_eq!(img.get_image().len(), 2);
    assert_eq!(img.get_pixel_at(1, 0).unwrap(), Pixels::new(2, 2, 2, 255));
}

#[test]
fn image_set_pixel_at_test() {
    let mut img = Images::new(2, 2, 3, vec![Pixels::new(1, 1, 1, 255); 4]);

    // The insertion position is x * width + y.
    assert_eq!(img.set_pixel_at(1, 0, Pixels::new(9, 9, 9, 255)), Ok(()));
    assert_eq!(img.get_image().len(), 5);
    assert_eq!(img.get_image()[2], Pixels::new(9, 9, 9, 255));

    // A position past the end of the sequence is rejected.
    let mut short = Images::new(3, 1, 3, vec![Pixels::new(1, 1, 1, 255)]);
    assert_eq!(
        short.set_pixel_at(2, 0, Pixels::new(9, 9, 9, 255)),
        Err(ImageError::OutOfBounds)
    );
}

#[test]
fn image_metadata_test() {
    let img = Images::new(5, 4, 3, vec![Pixels::new(0, 0, 0, 0); 20]);

    assert_eq!(img.get_width(), 5);
    assert_eq!(img.get_height(), 4);
    assert_eq!(img.get_channels(), 3);
    assert_eq!(img.get_image().len(), 20);
}

#[test]
fn pixel_arithmetic_stays_in_range_test() {
    // Saturating arithmetic clamps instead of wrapping, at both ends.
    let hi = Pixels::new(200, 255, 128, 255);
    let lo = Pixels::new(100, 1, 128, 255);

    let sum = hi.add(lo);
    assert_eq!(sum, Pixels::new(255, 255, 255, 255));

    let diff = lo.sub(hi);
    assert_eq!(diff, Pixels::new(0, 0, 0, 0));

    let scaled = Pixels::new(2, 128, 0, 1).mul(1000);
    assert_eq!(scaled, Pixels::new(255, 255, 0, 255));
}
