use vstd::prelude::*;

use crate::pixel::Pixels;

verus! {

/// The ways an image operation can fail.
///
/// `OutOfBounds`: a coordinate lies outside the buffer's dimensions.
/// `InvalidDimensions`: a zero target size, or a window that exceeds the
/// source bounds.
/// `Degenerate`: the input is too small for the requested windowed filter.
#[derive(Debug, Clone, Copy, PartialEq, Eq, Structural)]
pub enum ImageError {
    OutOfBounds,
    InvalidDimensions,
    Degenerate,
}

/// Mathematical model of an image buffer: dimensions, channel count and
/// the pixel sequence in row-major order (index = y * width + x).
#[verifier::ext_equal]
pub ghost struct ImageModel {
    pub width: int,
    pub height: int,
    pub channels: int,
    pub data: Seq<Pixels>,
}

impl ImageModel {
    /// A fully assembled buffer holds exactly width * height pixels.
    pub open spec fn wf(self) -> bool {
        &&& 0 <= self.width
        &&& 0 <= self.height
        &&& self.data.len() == self.width * self.height
    }

    pub open spec fn in_bounds(self, x: int, y: int) -> bool {
        0 <= x < self.width && 0 <= y < self.height
    }

    /// The pixel at column `x`, row `y`.
    pub open spec fn pix(self, x: int, y: int) -> Pixels {
        self.data[y * self.width + x]
    }
}

/// A row-major pixel buffer with its metadata.
#[derive(Debug, Clone)]
pub struct Images {
    pub width: u32,
    pub height: u32,
    pub channels: u8,
    pub image_data: Vec<Pixels>,
}

impl View for Images {
    type V = ImageModel;

    open spec fn view(&self) -> ImageModel {
        ImageModel {
            width: self.width as int,
            height: self.height as int,
            channels: self.channels as int,
            data: self.image_data@,
        }
    }
}

impl Images {
    /// The buffer invariant: the pixel sequence covers the full grid.
    pub open spec fn well_formed(&self) -> bool {
        self@.wf()
    }

    pub fn get_width(&self) -> (r: u32)
        ensures
            r == self.width,
    {
        self.width
    }

    pub fn get_height(&self) -> (r: u32)
        ensures
            r == self.height,
    {
        self.height
    }

    pub fn get_channels(&self) -> (r: u8)
        ensures
            r == self.channels,
    {
        self.channels
    }

    /// A copy of the pixel sequence.
    pub fn get_image(&self) -> (r: Vec<Pixels>)
        ensures
            r@ == self.image_data@,
    {
        let r = self.image_data.clone();
        proof {
            assert forall|i: int| 0 <= i < self.image_data@.len() implies r@[i]
                == self.image_data@[i] by {
            }
            assert(r@ =~= self.image_data@);
        }
        r
    }

    pub fn new(width: u32, height: u32, channels: u8, image_data: Vec<Pixels>) -> (r: Images)
        ensures
            r.width == width,
            r.height == height,
            r.channels == channels,
            r.image_data@ == image_data@,
    {
        Images { width, height, channels, image_data }
    }

    /// Bounds-checked pixel lookup at column `x`, row `y`.
    ///
    /// Succeeds exactly when the coordinate lies inside the dimensions and
    /// the row-major index lies inside the stored sequence; on success the
    /// returned pixel is the one at that index.
    pub fn get_pixel_at(&self, x: u32, y: u32) -> (r: Result<Pixels, ImageError>)
        ensures
            match r {
                Ok(p) => self@.in_bounds(x as int, y as int) && y * self.width + x
                    < self.image_data@.len() && p == self@.pix(x as int, y as int),
                Err(e) => e == ImageError::OutOfBounds && (!self@.in_bounds(x as int, y as int)
                    || y * self.width + x >= self.image_data@.len()),
            },
    {
        if x >= self.width || y >= self.height {
            return Err(ImageError::OutOfBounds);
        }
        let location: u64 = row_major_index(x, y, self.width);
        if location >= self.image_data.len() as u64 {
            return Err(ImageError::OutOfBounds);
        }
        Ok(self.image_data[location as usize])
    }

    /// Insert `pixel` at the row-major position `x * width + y`, shifting
    /// the rest of the sequence; fails when that position lies past the
    /// end of the sequence.
    pub fn set_pixel_at(&mut self, x: u32, y: u32, pixel: Pixels) -> (r: Result<(), ImageError>)
        ensures
            final(self).width == old(self).width,
            final(self).height == old(self).height,
            final(self).channels == old(self).channels,
            match r {
                Ok(()) => {
                    &&& x * old(self).width + y <= old(self).image_data@.len()
                    &&& final(self).image_data@ == old(self).image_data@.insert(
                        x * old(self).width + y,
                        pixel,
                    )
                },
                Err(e) => {
                    &&& e == ImageError::OutOfBounds
                    &&& x * old(self).width + y > old(self).image_data@.len()
                    &&& final(self).image_data@ == old(self).image_data@
                },
            },
    {
        let location: u64 = row_major_index(y, x, self.width);
        if location > self.image_data.len() as u64 {
            return Err(ImageError::OutOfBounds);
        }
        self.image_data.insert(location as usize, pixel);
        Ok(())
    }

    /// Append one pixel while a filter assembles its output.
    pub fn add_pixel(&mut self, pix: Pixels)
        ensures
            final(self).width == old(self).width,
            final(self).height == old(self).height,
            final(self).channels == old(self).channels,
            final(self).image_data@ == old(self).image_data@.push(pix),
    {
        self.image_data.push(pix);
    }
}

/// The row-major index `y * w + x`, computed without overflow.
pub(crate) fn row_major_index(x: u32, y: u32, w: u32) -> (r: u64)
    ensures
        r == y * w + x,
{
    proof {
        assert((y as int) * (w as int) + (x as int) <= (u32::MAX as int) * (u32::MAX as int)
            + u32::MAX) by (nonlinear_arith)
            requires
                0 <= y <= u32::MAX,
                0 <= w <= u32::MAX,
                0 <= x <= u32::MAX,
        ;
    }
    y as u64 * w as u64 + x as u64
}

impl PartialEq for Images {
    /// Structural equality: equal metadata and equal pixel sequences.
    fn eq(&self, other: &Images) -> (r: bool) {
        if self.width != other.width || self.height != other.height || self.channels
            != other.channels {
            return false;
        }
        if self.image_data.len() != other.image_data.len() {
            proof {
                assert(self@ != other@);
            }
            return false;
        }
        let n = self.image_data.len();
        let mut i: usize = 0;
        while i < n
            invariant
                n == self.image_data@.len(),
                n == other.image_data@.len(),
                0 <= i <= n,
                forall|j: int| 0 <= j < i ==> self.image_data@[j] == other.image_data@[j],
            decreases n - i,
        {
            if self.image_data[i] != other.image_data[i] {
                proof {
                    assert(self.image_data@[i as int] != other.image_data@[i as int]);
                    assert(self@ != other@);
                }
                return false;
            }
            i = i + 1;
        }
        proof {
            assert(self.image_data@ =~= other.image_data@);
            assert(self@ =~= other@);
        }
        true
    }
}

impl vstd::std_specs::cmp::PartialEqSpecImpl for Images {
    open spec fn obeys_eq_spec() -> bool {
        true
    }

    open spec fn eq_spec(&self, other: &Images) -> bool {
        self@ == other@
    }
}

} // verus!
