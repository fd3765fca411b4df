use vstd::prelude::*;

use crate::blur::{blur_model, Blur, SmoothingKernelChoices};
use crate::edge_detection::{edge_model, EdgeDetectingKernelChoices, EdgeDetection};
use crate::gray_scale::{gray_model, GrayScale, GrayScaleAlgorithms};
use crate::image::{ImageModel, Images};
use crate::morphological::{morph_model, Dilation, Erosion, MorphologicalOperations};
use crate::sharpen::{sharpen_model, Sharpen, SharpeningKernelChoices};

verus! {

/// One tagged filtering stage with its parameters.
#[derive(Clone, Copy)]
pub enum FilteringOperations {
    GrayScale(GrayScaleAlgorithms),
    Smoothing(SmoothingKernelChoices),
    Sharpening(SharpeningKernelChoices),
    EdgeDetecting(EdgeDetectingKernelChoices),
    Morphological(MorphologicalOperations),
}

/// The buffer one filtering stage produces from `m`.
pub open spec fn apply_filtering_op(m: ImageModel, op: FilteringOperations) -> ImageModel {
    match op {
        FilteringOperations::GrayScale(algo) => gray_model(m, algo),
        FilteringOperations::Smoothing(choice) => blur_model(m, choice),
        FilteringOperations::Sharpening(choice) => sharpen_model(m, choice),
        FilteringOperations::EdgeDetecting(choice) => edge_model(m, choice),
        FilteringOperations::Morphological(MorphologicalOperations::Erode(choice)) => morph_model(
            m,
            true,
            choice,
        ),
        FilteringOperations::Morphological(MorphologicalOperations::Dialate(choice)) => morph_model(
            m,
            false,
            choice,
        ),
    }
}

/// The buffer after the first `n` filtering stages of `ops`, folded left
/// to right from `m`.
pub open spec fn chain_filtering(m: ImageModel, ops: Seq<FilteringOperations>, n: int) -> ImageModel
    decreases n,
{
    if n <= 0 {
        m
    } else {
        apply_filtering_op(chain_filtering(m, ops, n - 1), ops[n - 1])
    }
}

impl FilteringOperations {
    /// Apply the filtering stages in order, each stage consuming the
    /// previous stage's output. Every filtering stage is total, so the
    /// whole chain is.
    pub fn chain_operations(image: &Images, operations: Vec<FilteringOperations>) -> (r: Images)
        requires
            image.well_formed(),
        ensures
            r@ == chain_filtering(image@, operations@, operations@.len() as int),
            r.well_formed(),
    {
        let mut new_image: Images = Images::new(
            image.get_width(),
            image.get_height(),
            image.get_channels(),
            image.get_image(),
        );
        proof {
            assert(new_image@ =~= image@);
        }
        let n = operations.len();
        let mut idx: usize = 0;
        while idx < n
            invariant
                n == operations@.len(),
                0 <= idx <= n,
                new_image@ == chain_filtering(image@, operations@, idx as int),
                new_image.well_formed(),
            decreases n - idx,
        {
            let op = operations[idx];
            new_image = match op {
                FilteringOperations::GrayScale(algo) => GrayScale::new(algo).apply(&new_image),
                FilteringOperations::Smoothing(choice) => Blur::new(choice).apply(&new_image),
                FilteringOperations::Sharpening(choice) => Sharpen::new(choice).apply(&new_image),
                FilteringOperations::EdgeDetecting(choice) => EdgeDetection::new(choice).apply(
                    &new_image,
                ),
                FilteringOperations::Morphological(MorphologicalOperations::Erode(choice)) => Erosion::new(
                    &new_image,
                    choice,
                ).apply(),
                FilteringOperations::Morphological(MorphologicalOperations::Dialate(choice)) => Dilation::new(
                    &new_image,
                    choice,
                ).apply(),
            };
            idx = idx + 1;
        }
        new_image
    }
}

} // verus!
