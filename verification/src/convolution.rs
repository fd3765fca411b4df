use vstd::prelude::*;

use crate::grid::read_at;
use crate::image::{ImageModel, Images};
use crate::pixel::{chan, clamp255, Pixels};

verus! {

/// Output width of a 3x3 windowed filter: the one-pixel border is
/// dropped, and inputs narrower than the window produce nothing.
pub open spec fn conv_out_w(m: ImageModel) -> int {
    if m.width >= 2 {
        m.width - 2
    } else {
        0
    }
}

/// Output height of a 3x3 windowed filter.
pub open spec fn conv_out_h(m: ImageModel) -> int {
    if m.height >= 2 {
        m.height - 2
    } else {
        0
    }
}

/// The full 3x3 weighted sum at window center (cx, cy) for channel `c`:
/// kernel position `dy * 3 + dx` weighs the neighbour at offset
/// (dx - 1, dy - 1).
pub open spec fn conv_sum(m: ImageModel, k: Seq<i32>, cx: int, cy: int, c: int) -> int {
    k[0] * chan(m.pix(cx - 1, cy - 1), c) + k[1] * chan(m.pix(cx, cy - 1), c) + k[2] * chan(
        m.pix(cx + 1, cy - 1),
        c,
    ) + k[3] * chan(m.pix(cx - 1, cy), c) + k[4] * chan(m.pix(cx, cy), c) + k[5] * chan(
        m.pix(cx + 1, cy),
        c,
    ) + k[6] * chan(m.pix(cx - 1, cy + 1), c) + k[7] * chan(m.pix(cx, cy + 1), c) + k[8] * chan(
        m.pix(cx + 1, cy + 1),
        c,
    )
}

/// The output pixel of an unnormalized 3x3 convolution: each color
/// channel is the raw signed sum clamped into the channel range, and the
/// alpha channel is forced fully opaque.
pub open spec fn conv_pixel(m: ImageModel, k: Seq<i32>, cx: int, cy: int) -> Pixels {
    Pixels {
        red: clamp255(conv_sum(m, k, cx, cy, 0)) as u8,
        green: clamp255(conv_sum(m, k, cx, cy, 1)) as u8,
        blue: clamp255(conv_sum(m, k, cx, cy, 2)) as u8,
        alpha: 255,
    }
}

/// One weighted sample of a signed kernel.
fn wmul_i32(k: i32, c: u8) -> (r: i64)
    requires
        -2 <= k <= 9,
    ensures
        r == k as int * c as int,
        -510 <= r <= 2295,
{
    proof {
        assert(-510 <= (k as int) * (c as int) <= 2295) by (nonlinear_arith)
            requires
                -2 <= k <= 9,
                0 <= c <= 255,
        ;
    }
    k as i64 * c as i64
}

/// Clamp a raw signed sum into the channel range.
fn clamp_i64(v: i64) -> (r: u8)
    ensures
        r as int == clamp255(v as int),
{
    if v < 0 {
        0
    } else if v > 255 {
        255
    } else {
        v as u8
    }
}

/// The convolved output pixel at window center (cx, cy) for a signed
/// 3x3 kernel whose weights lie within the preset range.
pub(crate) fn conv_pixel_at(img: &Images, cx: u32, cy: u32, k: &Vec<i32>) -> (p: Pixels)
    requires
        img.well_formed(),
        k@.len() == 9,
        forall|i: int| 0 <= i < 9 ==> -2 <= #[trigger] k@[i] <= 9,
        1 <= cx,
        cx + 1 < img.width,
        1 <= cy,
        cy + 1 < img.height,
    ensures
        p == conv_pixel(img@, k@, cx as int, cy as int),
{
    let p00 = read_at(img, cx - 1, cy - 1);
    let p10 = read_at(img, cx, cy - 1);
    let p20 = read_at(img, cx + 1, cy - 1);
    let p01 = read_at(img, cx - 1, cy);
    let p11 = read_at(img, cx, cy);
    let p21 = read_at(img, cx + 1, cy);
    let p02 = read_at(img, cx - 1, cy + 1);
    let p12 = read_at(img, cx, cy + 1);
    let p22 = read_at(img, cx + 1, cy + 1);
    let k0 = k[0];
    let k1 = k[1];
    let k2 = k[2];
    let k3 = k[3];
    let k4 = k[4];
    let k5 = k[5];
    let k6 = k[6];
    let k7 = k[7];
    let k8 = k[8];
    let sum_r: i64 = wmul_i32(k0, p00.red) + wmul_i32(k1, p10.red) + wmul_i32(k2, p20.red)
        + wmul_i32(k3, p01.red) + wmul_i32(k4, p11.red) + wmul_i32(k5, p21.red) + wmul_i32(
        k6,
        p02.red,
    ) + wmul_i32(k7, p12.red) + wmul_i32(k8, p22.red);
    let sum_g: i64 = wmul_i32(k0, p00.green) + wmul_i32(k1, p10.green) + wmul_i32(k2, p20.green)
        + wmul_i32(k3, p01.green) + wmul_i32(k4, p11.green) + wmul_i32(k5, p21.green) + wmul_i32(
        k6,
        p02.green,
    ) + wmul_i32(k7, p12.green) + wmul_i32(k8, p22.green);
    let sum_b: i64 = wmul_i32(k0, p00.blue) + wmul_i32(k1, p10.blue) + wmul_i32(k2, p20.blue)
        + wmul_i32(k3, p01.blue) + wmul_i32(k4, p11.blue) + wmul_i32(k5, p21.blue) + wmul_i32(
        k6,
        p02.blue,
    ) + wmul_i32(k7, p12.blue) + wmul_i32(k8, p22.blue);
    Pixels { red: clamp_i64(sum_r), green: clamp_i64(sum_g), blue: clamp_i64(sum_b), alpha: 255 }
}

} // verus!
