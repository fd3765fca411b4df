use image_processor::image::Images;
use image_processor::pixel::Pixels;
use image_processor::statistics::compute_histogram;

#[test]
fn compute_histogram_test() {
    let img = Images::new(
        2,
        1,
        3,
        vec![Pixels::new(5, 5, 7, 255), Pixels::new(5, 9, 7, 255)],
    );

    let histograms = compute_histogram(&img);
    assert_eq!(histograms.len(), 3);

    let red = &histograms[0];
    let green = &histograms[1];
    let blue = &histograms[2];

    // Every intensity is present, absent ones counted zero.
    assert_eq!(red.len(), 256);
    assert_eq!(red[&5], 2);
    assert_eq!(red[&0], 0);
    assert_eq!(green[&5], 1);
    assert_eq!(green[&9], 1);
    assert_eq!(blue[&7], 2);
    assert_eq!(blue[&255], 0);
}
