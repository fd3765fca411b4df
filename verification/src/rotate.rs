use vstd::prelude::*;

use crate::grid::{
    build_grid, grid_model, lemma_rm_bound, lemma_rm_index, lemma_split_index, PixelRule,
};
use crate::image::{ImageModel, Images};

verus! {

/// Selects one of the flip / rotate transformations.
#[derive(Clone, Copy)]
pub enum RotatingOperations {
    RotateVertical,
    RotateHorizontal,
    Rotate90Left,
    Rotate90Right,
}

/// The buffer FlipHorizontal produces: each row mirrored in place.
pub open spec fn flip_horizontal_model(m: ImageModel) -> ImageModel {
    grid_model(m, m.width, m.height, PixelRule::FlipH)
}

/// The buffer FlipVertical produces: the row order reversed and every
/// row mirrored — a half-turn of the image, not a pure vertical mirror.
pub open spec fn flip_vertical_model(m: ImageModel) -> ImageModel {
    grid_model(m, m.width, m.height, PixelRule::FlipV)
}

/// The buffer Flip90Left produces on a square input: output row r is
/// column r of the input read bottom to top.
pub open spec fn rotate_left_model(m: ImageModel) -> ImageModel {
    grid_model(m, m.width, m.height, PixelRule::RotateLeft)
}

/// The buffer Flip90Right produces on a square input: output row r is
/// column r of the input read top to bottom (a transpose).
pub open spec fn rotate_right_model(m: ImageModel) -> ImageModel {
    grid_model(m, m.width, m.height, PixelRule::RotateRight)
}

pub struct FlipHorizontal {
    pub image: Images,
}

impl FlipHorizontal {
    pub fn new(image: &Images) -> (r: FlipHorizontal)
        ensures
            r.image@ == image@,
    {
        FlipHorizontal {
            image: Images::new(
                image.get_width(),
                image.get_height(),
                image.get_channels(),
                image.get_image(),
            ),
        }
    }

    /// Mirror each row of the stored buffer.
    pub fn apply(&self) -> (r: Images)
        requires
            self.image.well_formed(),
        ensures
            r@ == flip_horizontal_model(self.image@),
            r.well_formed(),
    {
        let data = build_grid(&self.image, self.image.width, self.image.height, PixelRule::FlipH);
        let r = Images::new(self.image.width, self.image.height, self.image.channels, data);
        proof {
            assert(r@ =~= flip_horizontal_model(self.image@));
        }
        r
    }
}

pub struct FlipVertical {
    pub image: Images,
}

impl FlipVertical {
    pub fn new(image: &Images) -> (r: FlipVertical)
        ensures
            r.image@ == image@,
    {
        FlipVertical {
            image: Images::new(
                image.get_width(),
                image.get_height(),
                image.get_channels(),
                image.get_image(),
            ),
        }
    }

    /// Reverse the row order and mirror each row (turn the image by a
    /// half-turn).
    pub fn apply(&self) -> (r: Images)
        requires
            self.image.well_formed(),
        ensures
            r@ == flip_vertical_model(self.image@),
            r.well_formed(),
    {
        let data = build_grid(&self.image, self.image.width, self.image.height, PixelRule::FlipV);
        let r = Images::new(self.image.width, self.image.height, self.image.channels, data);
        proof {
            assert(r@ =~= flip_vertical_model(self.image@));
        }
        r
    }
}

pub struct Flip90Left {
    pub image: Images,
}

impl Flip90Left {
    pub fn new(image: &Images) -> (r: Flip90Left)
        ensures
            r.image@ == image@,
    {
        Flip90Left {
            image: Images::new(
                image.get_width(),
                image.get_height(),
                image.get_channels(),
                image.get_image(),
            ),
        }
    }

    /// Build each output row from the matching input column, reversed.
    /// Defined for square buffers, where the column traversal's stride
    /// (the height) walks true columns.
    pub fn apply(&self) -> (r: Images)
        requires
            self.image.well_formed(),
            self.image.width == self.image.height,
        ensures
            r@ == rotate_left_model(self.image@),
            r.well_formed(),
    {
        let data = build_grid(
            &self.image,
            self.image.width,
            self.image.height,
            PixelRule::RotateLeft,
        );
        let r = Images::new(self.image.width, self.image.height, self.image.channels, data);
        proof {
            assert(r@ =~= rotate_left_model(self.image@));
        }
        r
    }
}

pub struct Flip90Right {
    pub image: Images,
}

impl Flip90Right {
    pub fn new(image: &Images) -> (r: Flip90Right)
        ensures
            r.image@ == image@,
    {
        Flip90Right {
            image: Images::new(
                image.get_width(),
                image.get_height(),
                image.get_channels(),
                image.get_image(),
            ),
        }
    }

    /// Build each output row from the matching input column, top to
    /// bottom (a transpose). Defined for square buffers.
    pub fn apply(&self) -> (r: Images)
        requires
            self.image.well_formed(),
            self.image.width == self.image.height,
        ensures
            r@ == rotate_right_model(self.image@),
            r.well_formed(),
    {
        let data = build_grid(
            &self.image,
            self.image.width,
            self.image.height,
            PixelRule::RotateRight,
        );
        let r = Images::new(self.image.width, self.image.height, self.image.channels, data);
        proof {
            assert(r@ =~= rotate_right_model(self.image@));
        }
        r
    }
}

/// Mirroring each row twice restores the buffer exactly.
pub proof fn lemma_flip_horizontal_involutive(m: ImageModel)
    requires
        m.wf(),
    ensures
        flip_horizontal_model(flip_horizontal_model(m)) == m,
{
    let w = m.width;
    let h = m.height;
    let f1 = flip_horizontal_model(m);
    let f2 = flip_horizontal_model(f1);
    assert forall|i: int| 0 <= i < f2.data.len() implies f2.data[i] == m.data[i] by {
        lemma_split_index(i, w, h);
        let x = i % w;
        let y = i / w;
        let j = y * w + (w - 1 - x);
        lemma_rm_index(w - 1 - x, y, w);
        lemma_rm_bound(w - 1 - x, y, w, h);
        assert(f2.data[i] == f1.data[j]);
        assert(f1.data[j] == m.pix(x, y));
    }
    assert(f2.data =~= m.data);
    assert(f2 =~= m);
}

/// Reversing rows and mirroring them (a half-turn) twice restores the
/// buffer exactly.
pub proof fn lemma_flip_vertical_involutive(m: ImageModel)
    requires
        m.wf(),
    ensures
        flip_vertical_model(flip_vertical_model(m)) == m,
{
    let w = m.width;
    let h = m.height;
    let f1 = flip_vertical_model(m);
    let f2 = flip_vertical_model(f1);
    assert forall|i: int| 0 <= i < f2.data.len() implies f2.data[i] == m.data[i] by {
        lemma_split_index(i, w, h);
        let x = i % w;
        let y = i / w;
        let j = (h - 1 - y) * w + (w - 1 - x);
        lemma_rm_index(w - 1 - x, h - 1 - y, w);
        lemma_rm_bound(w - 1 - x, h - 1 - y, w, h);
        assert(f2.data[i] == f1.data[j]);
        assert(f1.data[j] == m.pix(x, y));
    }
    assert(f2.data =~= m.data);
    assert(f2 =~= m);
}

/// Rotating a square buffer right and then left does not restore it:
/// the right rotation is a transpose, so the pair composes to a mirror
/// of each row. This is the exact relation the two rotations satisfy.
pub proof fn lemma_rotate_right_then_left_mirrors_rows(m: ImageModel)
    requires
        m.wf(),
        m.width == m.height,
    ensures
        rotate_left_model(rotate_right_model(m)) == flip_horizontal_model(m),
{
    let w = m.width;
    let rr = rotate_right_model(m);
    let out = rotate_left_model(rr);
    let fh = flip_horizontal_model(m);
    assert forall|i: int| 0 <= i < out.data.len() implies out.data[i] == fh.data[i] by {
        lemma_split_index(i, w, w);
        let x = i % w;
        let y = i / w;
        let j = (w - 1 - x) * w + y;
        lemma_rm_index(y, w - 1 - x, w);
        lemma_rm_bound(y, w - 1 - x, w, w);
        assert(out.data[i] == rr.pix(y, w - 1 - x));
        assert(rr.data[j] == m.pix(w - 1 - x, y));
    }
    assert(out.data =~= fh.data);
    assert(out =~= fh);
}

impl crate::operations::Transformation for FlipHorizontal {
    open spec fn valid(&self) -> bool {
        self.image.well_formed()
    }

    /// The trait view of the horizontal flip; see the inherent `apply`.
    fn apply(&self) -> (r: Images)
        ensures
            r@ == flip_horizontal_model(self.image@),
    {
        FlipHorizontal::apply(self)
    }
}

impl crate::operations::Transformation for FlipVertical {
    open spec fn valid(&self) -> bool {
        self.image.well_formed()
    }

    /// The trait view of the half-turn flip; see the inherent `apply`.
    fn apply(&self) -> (r: Images)
        ensures
            r@ == flip_vertical_model(self.image@),
    {
        FlipVertical::apply(self)
    }
}

impl crate::operations::Transformation for Flip90Left {
    open spec fn valid(&self) -> bool {
        self.image.well_formed() && self.image.width == self.image.height
    }

    /// The trait view of the left rotation; see the inherent `apply`.
    fn apply(&self) -> (r: Images)
        ensures
            r@ == rotate_left_model(self.image@),
    {
        Flip90Left::apply(self)
    }
}

impl crate::operations::Transformation for Flip90Right {
    open spec fn valid(&self) -> bool {
        self.image.well_formed() && self.image.width == self.image.height
    }

    /// The trait view of the right rotation; see the inherent `apply`.
    fn apply(&self) -> (r: Images)
        ensures
            r@ == rotate_right_model(self.image@),
    {
        Flip90Right::apply(self)
    }
}

} // verus!
