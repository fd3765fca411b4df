use vstd::prelude::*;

use crate::crop::{crop_model, crop_ok, Crop, CroppingOperations};
use crate::image::{ImageError, ImageModel, Images};
use crate::resize::{
    bilinear_model, nearest_model, resize_ok, ResizeBilinearInterpolation, ResizeNearestNeighbour,
    ResizingOperations,
};
use crate::rotate::{
    flip_horizontal_model, flip_vertical_model, rotate_left_model, rotate_right_model, Flip90Left,
    Flip90Right, FlipHorizontal, FlipVertical, RotatingOperations,
};

verus! {

/// One tagged geometric stage with its parameters.
#[derive(Clone, Copy)]
pub enum TransformationOperations {
    Rotate(RotatingOperations),
    Resize(ResizingOperations),
    Crop(CroppingOperations),
}

/// Whether one geometric stage accepts `m` as its input: rotations need
/// a square buffer, resampling a non-empty source and target, and a crop
/// a non-empty window inside the source.
pub open spec fn transform_ok(m: ImageModel, op: TransformationOperations) -> bool {
    match op {
        TransformationOperations::Rotate(RotatingOperations::RotateVertical) => true,
        TransformationOperations::Rotate(RotatingOperations::RotateHorizontal) => true,
        TransformationOperations::Rotate(RotatingOperations::Rotate90Left) => m.width == m.height,
        TransformationOperations::Rotate(RotatingOperations::Rotate90Right) => m.width == m.height,
        TransformationOperations::Resize(ResizingOperations::NearestNeighbours(nw, nh)) => resize_ok(
            m,
            nw as int,
            nh as int,
        ),
        TransformationOperations::Resize(ResizingOperations::BilinearInterpolation(nw, nh)) => resize_ok(
            m,
            nw as int,
            nh as int,
        ),
        TransformationOperations::Crop(CroppingOperations::SimpleCrop(tl, nw, nh)) => crop_ok(
            m,
            tl.0 as int,
            tl.1 as int,
            nw as int,
            nh as int,
        ),
    }
}

/// The buffer one geometric stage produces from `m`.
pub open spec fn apply_transformation_op(m: ImageModel, op: TransformationOperations) -> ImageModel {
    match op {
        TransformationOperations::Rotate(RotatingOperations::RotateVertical) => flip_vertical_model(
            m,
        ),
        TransformationOperations::Rotate(RotatingOperations::RotateHorizontal) => flip_horizontal_model(
            m,
        ),
        TransformationOperations::Rotate(RotatingOperations::Rotate90Left) => rotate_left_model(m),
        TransformationOperations::Rotate(RotatingOperations::Rotate90Right) => rotate_right_model(
            m,
        ),
        TransformationOperations::Resize(ResizingOperations::NearestNeighbours(nw, nh)) => nearest_model(
            m,
            nw,
            nh,
        ),
        TransformationOperations::Resize(ResizingOperations::BilinearInterpolation(nw, nh)) => bilinear_model(
            m,
            nw,
            nh,
        ),
        TransformationOperations::Crop(CroppingOperations::SimpleCrop(tl, nw, nh)) => crop_model(
            m,
            tl.0,
            tl.1,
            nw,
            nh,
        ),
    }
}

/// The buffer after the first `n` geometric stages of `ops`, folded left
/// to right from `m`; the fold stops at the first stage that rejects its
/// input.
pub open spec fn chain_transformation(
    m: ImageModel,
    ops: Seq<TransformationOperations>,
    n: int,
) -> Option<ImageModel>
    decreases n,
{
    if n <= 0 {
        Some(m)
    } else {
        match chain_transformation(m, ops, n - 1) {
            Option::None => None,
            Option::Some(mm) => if transform_ok(mm, ops[n - 1]) {
                Some(apply_transformation_op(mm, ops[n - 1]))
            } else {
                None
            },
        }
    }
}

/// Once a stage has rejected its input, every longer prefix of the
/// chain is rejected too.
proof fn lemma_chain_transformation_none(
    m: ImageModel,
    ops: Seq<TransformationOperations>,
    i: int,
    n: int,
)
    requires
        0 <= i <= n,
        chain_transformation(m, ops, i) is None,
    ensures
        chain_transformation(m, ops, n) is None,
    decreases n - i,
{
    if i < n {
        lemma_chain_transformation_none(m, ops, i, n - 1);
    }
}

impl TransformationOperations {
    /// Apply the geometric stages in order, each stage consuming the
    /// previous stage's output.
    ///
    /// Succeeds exactly when every stage accepts its input; a stage with
    /// invalid parameters fails fast with InvalidDimensions, abandoning
    /// the remaining stages.
    pub fn chain_operations(image: &Images, operations: Vec<TransformationOperations>) -> (r:
        Result<Images, ImageError>)
        requires
            image.well_formed(),
        ensures
            match r {
                Ok(out) => {
                    &&& chain_transformation(image@, operations@, operations@.len() as int)
                        == Some(out@)
                    &&& out.well_formed()
                },
                Err(e) => {
                    &&& e == ImageError::InvalidDimensions
                    &&& chain_transformation(image@, operations@, operations@.len() as int)
                        is None
                },
            },
    {
        let mut new_image: Images = Images::new(
            image.get_width(),
            image.get_height(),
            image.get_channels(),
            image.get_image(),
        );
        proof {
            assert(new_image@ =~= image@);
        }
        let n = operations.len();
        let mut idx: usize = 0;
        while idx < n
            invariant
                n == operations@.len(),
                0 <= idx <= n,
                chain_transformation(image@, operations@, idx as int) == Some(new_image@),
                new_image.well_formed(),
            decreases n - idx,
        {
            let op = operations[idx];
            new_image = match op {
                TransformationOperations::Rotate(RotatingOperations::RotateVertical) => FlipVertical::new(
                    &new_image,
                ).apply(),
                TransformationOperations::Rotate(RotatingOperations::RotateHorizontal) => FlipHorizontal::new(
                    &new_image,
                ).apply(),
                TransformationOperations::Rotate(RotatingOperations::Rotate90Left) => {
                    if new_image.get_width() != new_image.get_height() {
                        proof {
                            lemma_chain_transformation_none(
                                image@,
                                operations@,
                                idx as int + 1,
                                n as int,
                            );
                        }
                        return Err(ImageError::InvalidDimensions);
                    }
                    Flip90Left::new(&new_image).apply()
                },
                TransformationOperations::Rotate(RotatingOperations::Rotate90Right) => {
                    if new_image.get_width() != new_image.get_height() {
                        proof {
                            lemma_chain_transformation_none(
                                image@,
                                operations@,
                                idx as int + 1,
                                n as int,
                            );
                        }
                        return Err(ImageError::InvalidDimensions);
                    }
                    Flip90Right::new(&new_image).apply()
                },
                TransformationOperations::Resize(ResizingOperations::NearestNeighbours(nw, nh)) => {
                    match ResizeNearestNeighbour::new(nw, nh, &new_image).apply() {
                        Ok(out) => out,
                        Err(e) => {
                            proof {
                                lemma_chain_transformation_none(
                                    image@,
                                    operations@,
                                    idx as int + 1,
                                    n as int,
                                );
                            }
                            return Err(e);
                        },
                    }
                },
                TransformationOperations::Resize(
                    ResizingOperations::BilinearInterpolation(nw, nh),
                ) => {
                    match ResizeBilinearInterpolation::new(nw, nh, &new_image).apply() {
                        Ok(out) => out,
                        Err(e) => {
                            proof {
                                lemma_chain_transformation_none(
                                    image@,
                                    operations@,
                                    idx as int + 1,
                                    n as int,
                                );
                            }
                            return Err(e);
                        },
                    }
                },
                TransformationOperations::Crop(CroppingOperations::SimpleCrop(tl, nw, nh)) => {
                    match Crop::new(tl, nw, nh, &new_image).apply() {
                        Ok(out) => out,
                        Err(e) => {
                            proof {
                                lemma_chain_transformation_none(
                                    image@,
                                    operations@,
                                    idx as int + 1,
                                    n as int,
                                );
                            }
                            return Err(e);
                        },
                    }
                },
            };
            idx = idx + 1;
        }
        Ok(new_image)
    }
}

} // verus!
