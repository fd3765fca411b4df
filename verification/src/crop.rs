use vstd::prelude::*;

use crate::grid::{build_grid, grid_model, PixelRule};
use crate::image::{ImageError, ImageModel, Images};

verus! {

/// Selects a cropping operation with its parameters.
#[derive(Clone, Copy)]
pub enum CroppingOperations {
    SimpleCrop((u32, u32), u32, u32),
}

/// A crop window is valid when it is non-empty and lies entirely inside
/// the source bounds.
pub open spec fn crop_ok(m: ImageModel, tx: int, ty: int, nw: int, nh: int) -> bool {
    &&& 0 < nw
    &&& 0 < nh
    &&& tx + nw <= m.width
    &&& ty + nh <= m.height
}

/// The buffer Crop produces: output (x, y) is source (tx + x, ty + y).
pub open spec fn crop_model(m: ImageModel, tx: u32, ty: u32, nw: u32, nh: u32) -> ImageModel {
    grid_model(m, nw as int, nh as int, PixelRule::Crop(tx, ty))
}

pub struct Crop {
    pub top_left_point: (u32, u32),
    pub new_width: u32,
    pub new_height: u32,
    pub image: Images,
}

impl Crop {
    pub fn new(top_left_point: (u32, u32), new_width: u32, new_height: u32, image: &Images) -> (r:
        Crop)
        ensures
            r.top_left_point == top_left_point,
            r.new_width == new_width,
            r.new_height == new_height,
            r.image@ == image@,
    {
        Crop {
            top_left_point,
            new_width,
            new_height,
            image: Images::new(
                image.get_width(),
                image.get_height(),
                image.get_channels(),
                image.get_image(),
            ),
        }
    }

    /// Cut the requested window out of the stored buffer.
    ///
    /// Succeeds exactly when the window is non-empty and lies inside the
    /// source bounds; otherwise the window's dimensions are invalid.
    pub fn apply(&self) -> (r: Result<Images, ImageError>)
        requires
            self.image.well_formed(),
        ensures
            match r {
                Ok(out) => {
                    &&& crop_ok(
                        self.image@,
                        self.top_left_point.0 as int,
                        self.top_left_point.1 as int,
                        self.new_width as int,
                        self.new_height as int,
                    )
                    &&& out@ == crop_model(
                        self.image@,
                        self.top_left_point.0,
                        self.top_left_point.1,
                        self.new_width,
                        self.new_height,
                    )
                    &&& out.well_formed()
                },
                Err(e) => {
                    &&& e == ImageError::InvalidDimensions
                    &&& !crop_ok(
                        self.image@,
                        self.top_left_point.0 as int,
                        self.top_left_point.1 as int,
                        self.new_width as int,
                        self.new_height as int,
                    )
                },
            },
    {
        let (tx, ty) = self.top_left_point;
        if self.new_width == 0 || self.new_height == 0 {
            return Err(ImageError::InvalidDimensions);
        }
        if tx as u64 + self.new_width as u64 > self.image.width as u64 || ty as u64
            + self.new_height as u64 > self.image.height as u64 {
            return Err(ImageError::InvalidDimensions);
        }
        let data = build_grid(&self.image, self.new_width, self.new_height, PixelRule::Crop(tx, ty));
        let out = Images::new(self.new_width, self.new_height, self.image.channels, data);
        proof {
            assert(out@ =~= crop_model(
                self.image@,
                self.top_left_point.0,
                self.top_left_point.1,
                self.new_width,
                self.new_height,
            ));
        }
        Ok(out)
    }
}

} // verus!
