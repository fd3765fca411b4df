use image_processor::crop::Crop;
use image_processor::image::Images;
use image_processor::pixel::Pixels;
use image_processor::resize::{ResizeBilinearInterpolation, ResizeNearestNeighbour};
use image_processor::rotate::{Flip90Left, Flip90Right, FlipHorizontal, FlipVertical};

fn common_setup_complex() -> Images {
    let mut vec_pix: Vec<Pixels> = Vec::new();
    for idx in 0..16u32 {
        vec_pix.push(Pixels::new(idx as u8 * 3, idx as u8 * 6, idx as u8 * 9, 255));
    }

    Images::new(4, 4, 3, vec_pix)
}

fn common_setup_simple() -> Images {
    let mut vec_pix: Vec<Pixels> = Vec::new();
    for idx in 0..4u32 {
        vec_pix.push(Pixels::new(idx as u8 * 3, idx as u8 * 6, idx as u8 * 9, 255));
    }

    Images::new(2, 2, 3, vec_pix)
}

#[test]
fn crop_test() {
    // Create a sample image
    let img = common_setup_complex();

    // Apply cropping operation
    let cropped_img = Crop::new((1, 1), 2, 2, &img).apply().unwrap();

    // Assert the result
    let expected_img = Images::new(
        2,
        2,
        3,
        vec![
            Pixels::new(15, 30, 45, 255),  // idx: 5
            Pixels::new(18, 36, 54, 255),  // idx: 6
            Pixels::new(27, 54, 81, 255),  // idx: 9
            Pixels::new(30, 60, 90, 255),  // idx: 10
        ],
    );
    assert_eq!(
        cropped_img.get_image().len(),
        expected_img.get_image().len()
    );
    assert_eq!(cropped_img, expected_img);
}

#[test]
fn resize_nearest_neighbour_test() {
    // Create a sample image
    let img = common_setup_complex();

    // Apply cropping operation
    let resized_img = ResizeNearestNeighbour::new(2, 2, &img).apply().unwrap();

    // Assert the result
    let expected_img = Images::new(
        2,
        2,
        3,
        vec![
            Pixels::new(0, 0, 0, 255),
            Pixels::new(6, 12, 18, 255),
            Pixels::new(24, 48, 72, 255),
            Pixels::new(30, 60, 90, 255),
        ],
    );
    assert_eq!(resized_img, expected_img);
}

#[test]
fn resize_bilinear_interpolation_test() {
    // Create a sample image
    let img = common_setup_complex();

    // Apply cropping operation
    let resized_img = ResizeBilinearInterpolation::new(2, 2, &img).apply().unwrap();

    // Assert the result
    let expected_img = Images::new(
        2,
        2,
        3,
        vec![
            Pixels::new(0, 0, 0, 255),
            Pixels::new(6, 12, 18, 255),
            Pixels::new(24, 48, 72, 255),
            Pixels::new(30, 60, 90, 255),
        ],
    );
    assert_eq!(resized_img, expected_img);
}

#[test]
fn rotate_vertical_test() {
    // Create a sample image
    let img = common_setup_simple();

    // Apply cropping operation
    let resized_img = FlipVertical::new(&img).apply();

    // Assert the result
    let expected_img = Images::new(
        2,
        2,
        3,
        vec![
            Pixels::new(9, 18, 27, 255),
            Pixels::new(6, 12, 18, 255),
            Pixels::new(3, 6, 9, 255),
            Pixels::new(0, 0, 0, 255),
        ],
    );
    assert_eq!(resized_img, expected_img);
}

#[test]
fn rotate_horizontal_test() {
    // Create a sample image
    let img = common_setup_simple();

    // Apply cropping operation
    let resized_img = FlipHorizontal::new(&img).apply();

    // Assert the result
    let expected_img = Images::new(
        2,
        2,
        3,
        vec![
            Pixels::new(3, 6, 9, 255),
            Pixels::new(0, 0, 0, 255),
            Pixels::new(9, 18, 27, 255),
            Pixels::new(6, 12, 18, 255),
        ],
    );
    assert_eq!(resized_img, expected_img);
}

#[test]
fn rotate_left_test() {
    // Create a sample image
    let img = common_setup_simple();

    // Apply cropping operation
    let resized_img = Flip90Left::new(&img).apply();

    // Assert the result
    let expected_img = Images::new(
        2,
        2,
        3,
        vec![
            Pixels::new(6, 12, 18, 255),
            Pixels::new(0, 0, 0, 255),
            Pixels::new(9, 18, 27, 255),
            Pixels::new(3, 6, 9, 255),
        ],
    );
    assert_eq!(resized_img, expected_img);
}

#[test]
fn rotate_right_test() {
    // Create a sample image
    let img = common_setup_simple();

    // Apply cropping operation
    let resized_img = Flip90Right::new(&img).apply();

    // Assert the result
    let expected_img = Images::new(
        2,
        2,
        3,
        vec![
            Pixels::new(0, 0, 0, 255),
            Pixels::new(6, 12, 18, 255),
            Pixels::new(3, 6, 9, 255),
            Pixels::new(9, 18, 27, 255),
        ],
    );
    assert_eq!(resized_img, expected_img);
}
