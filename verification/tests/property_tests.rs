use image_processor::crop::{Crop, CroppingOperations};
use image_processor::filtering_operations::FilteringOperations;
use image_processor::gray_scale::{GrayScale, GrayScaleAlgorithms};
use image_processor::image::{ImageError, Images};
use image_processor::morphological::{Dilation, Erosion, MorphologicalKernelChoices};
use image_processor::pixel::Pixels;
use image_processor::resize::{
    ResizeBilinearInterpolation, ResizeNearestNeighbour, ResizingOperations,
};
use image_processor::rotate::{
    Flip90Left, Flip90Right, FlipHorizontal, FlipVertical, RotatingOperations,
};
use image_processor::sharpen::{Sharpen, SharpeningKernelChoices};
use image_processor::blur::{Blur, SmoothingKernelChoices};
use image_processor::transformation_operations::TransformationOperations;

fn numbered_image(width: u32, height: u32) -> Images {
    let mut vec_pix: Vec<Pixels> = Vec::new();
    for idx in 0..(width * height) {
        let v = (idx % 200) as u8;
        vec_pix.push(Pixels::new(v, v + 1, v + 2, 255));
    }
    Images::new(width, height, 3, vec_pix)
}

#[test]
fn flip_horizontal_twice_is_identity_test() {
    let img = numbered_image(3, 2);
    let once = FlipHorizontal::new(&img).apply();
    let twice = FlipHorizontal::new(&once).apply();
    assert_eq!(twice, img);
}

#[test]
fn flip_vertical_twice_is_identity_test() {
    let img = numbered_image(3, 2);
    let once = FlipVertical::new(&img).apply();
    let twice = FlipVertical::new(&once).apply();
    assert_eq!(twice, img);
}

#[test]
fn rotate_right_then_left_mirrors_rows_test() {
    // The right rotation is a transpose, so right-then-left is not the
    // identity: it mirrors each row, exactly as FlipHorizontal does.
    let img = numbered_image(3, 3);
    let rotated = Flip90Left::new(&Flip90Right::new(&img).apply()).apply();
    let mirrored = FlipHorizontal::new(&img).apply();
    assert_eq!(rotated, mirrored);
}

#[test]
fn resize_to_own_dimensions_is_identity_test() {
    let img = numbered_image(4, 4);
    let nearest = ResizeNearestNeighbour::new(4, 4, &img).apply().unwrap();
    assert_eq!(nearest, img);

    let bilinear = ResizeBilinearInterpolation::new(4, 4, &img).apply().unwrap();
    assert_eq!(bilinear, img);
}

#[test]
fn convolution_output_dimensions_test() {
    let img = numbered_image(5, 4);
    let sharpened = Sharpen::new(SharpeningKernelChoices::Basic).apply(&img);
    assert_eq!(sharpened.get_width(), 3);
    assert_eq!(sharpened.get_height(), 2);
    assert_eq!(sharpened.get_image().len(), 6);
}

#[test]
fn convolution_degenerate_input_gives_empty_output_test() {
    let img = numbered_image(2, 2);
    let blurred = Blur::new(SmoothingKernelChoices::BoxBlur).apply(&img);
    assert_eq!(blurred.get_width(), 0);
    assert_eq!(blurred.get_height(), 0);
    assert_eq!(blurred.get_image().len(), 0);
}

#[test]
fn morphology_keeps_dimensions_and_ring_test() {
    let mut vec_pix: Vec<Pixels> = Vec::new();
    for idx in 0..9u8 {
        vec_pix.push(Pixels::new(10 * idx, 10 * idx, 10 * idx, 255));
    }
    let img = Images::new(3, 3, 3, vec_pix);

    // The cross element selects the neighbours at offsets up, left,
    // center, right and down: values 10, 30, 40, 50 and 70.
    let eroded = Erosion::new(&img, MorphologicalKernelChoices::CrossKernel).apply();
    assert_eq!(eroded.get_width(), 3);
    assert_eq!(eroded.get_height(), 3);
    let ring = Pixels::new(0, 0, 0, 255);
    let expected_eroded = Images::new(
        3,
        3,
        3,
        vec![
            ring, ring, ring,
            ring, Pixels::new(10, 10, 10, 255), ring,
            ring, ring, ring,
        ],
    );
    assert_eq!(eroded, expected_eroded);

    let dilated = Dilation::new(&img, MorphologicalKernelChoices::CrossKernel).apply();
    let expected_dilated = Images::new(
        3,
        3,
        3,
        vec![
            ring, ring, ring,
            ring, Pixels::new(70, 70, 70, 255), ring,
            ring, ring, ring,
        ],
    );
    assert_eq!(dilated, expected_dilated);
}

#[test]
fn grayscale_preserves_alpha_test() {
    let img = Images::new(1, 1, 3, vec![Pixels::new(30, 60, 90, 42)]);
    let gray = GrayScale::new(GrayScaleAlgorithms::Average).apply(&img);
    assert_eq!(gray, Images::new(1, 1, 3, vec![Pixels::new(60, 60, 60, 42)]));
}

#[test]
fn crop_rejects_bad_windows_test() {
    let img = numbered_image(4, 4);

    let past_the_edge = Crop::new((3, 3), 2, 2, &img).apply();
    assert_eq!(past_the_edge, Err(ImageError::InvalidDimensions));

    let empty_window = Crop::new((0, 0), 0, 2, &img).apply();
    assert_eq!(empty_window, Err(ImageError::InvalidDimensions));
}

#[test]
fn resize_rejects_empty_target_or_source_test() {
    let img = numbered_image(4, 4);
    assert_eq!(
        ResizeNearestNeighbour::new(0, 2, &img).apply(),
        Err(ImageError::InvalidDimensions)
    );
    assert_eq!(
        ResizeBilinearInterpolation::new(2, 0, &img).apply(),
        Err(ImageError::InvalidDimensions)
    );

    let empty = Images::new(0, 0, 3, Vec::new());
    assert_eq!(
        ResizeNearestNeighbour::new(2, 2, &empty).apply(),
        Err(ImageError::InvalidDimensions)
    );
}

#[test]
fn filtering_chain_test() {
    let img = Images::new(3, 3, 3, vec![Pixels::new(100, 100, 100, 255); 9]);
    let result = FilteringOperations::chain_operations(
        &img,
        vec![
            FilteringOperations::GrayScale(GrayScaleAlgorithms::Average),
            FilteringOperations::Smoothing(SmoothingKernelChoices::BoxBlur),
        ],
    );
    assert_eq!(result, Images::new(1, 1, 3, vec![Pixels::new(44, 44, 44, 255)]));
}

#[test]
fn transformation_chain_test() {
    let mut vec_pix: Vec<Pixels> = Vec::new();
    for idx in 0..4u8 {
        vec_pix.push(Pixels::new(3 * idx, 6 * idx, 9 * idx, 255));
    }
    let img = Images::new(2, 2, 3, vec_pix);

    let result = TransformationOperations::chain_operations(
        &img,
        vec![
            TransformationOperations::Rotate(RotatingOperations::RotateHorizontal),
            TransformationOperations::Crop(CroppingOperations::SimpleCrop((0, 0), 1, 1)),
        ],
    )
    .unwrap();
    assert_eq!(result, Images::new(1, 1, 3, vec![Pixels::new(3, 6, 9, 255)]));
}

#[test]
fn transformation_chain_fails_fast_test() {
    let img = numbered_image(3, 2);

    // A rotation needs a square buffer.
    let rotated = TransformationOperations::chain_operations(
        &img,
        vec![TransformationOperations::Rotate(RotatingOperations::Rotate90Left)],
    );
    assert_eq!(rotated, Err(ImageError::InvalidDimensions));

    // A zero resize target rejects the whole chain, later stages unseen.
    let resized = TransformationOperations::chain_operations(
        &img,
        vec![
            TransformationOperations::Resize(ResizingOperations::NearestNeighbours(0, 1)),
            TransformationOperations::Rotate(RotatingOperations::RotateHorizontal),
        ],
    );
    assert_eq!(resized, Err(ImageError::InvalidDimensions));
}
