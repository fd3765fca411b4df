use vstd::prelude::*;

verus! {

/// One image pixel: four 8-bit channels (red, green, blue, alpha).
///
/// A pixel is an immutable value; the arithmetic below returns a fresh
/// pixel and saturates every channel into the representable range.
#[derive(Debug, Clone, Copy, PartialEq, Eq, Structural)]
pub struct Pixels {
    pub red: u8,
    pub green: u8,
    pub blue: u8,
    pub alpha: u8,
}

/// Channel `c` of pixel `p` as a mathematical integer:
/// 0 is red, 1 is green, 2 is blue, anything else is alpha.
pub open spec fn chan(p: Pixels, c: int) -> int {
    if c == 0 {
        p.red as int
    } else if c == 1 {
        p.green as int
    } else if c == 2 {
        p.blue as int
    } else {
        p.alpha as int
    }
}

/// Clamp `v` into the representable channel range 0..=255.
pub open spec fn clamp255(v: int) -> int {
    if v < 0 {
        0
    } else if v > 255 {
        255
    } else {
        v
    }
}

/// Channel addition, clamped to the channel range.
pub open spec fn sat_add(a: int, b: int) -> int {
    clamp255(a + b)
}

/// Channel subtraction, clamped to the channel range.
pub open spec fn sat_sub(a: int, b: int) -> int {
    clamp255(a - b)
}

/// Channel multiplication by a scalar, clamped to the channel range.
pub open spec fn sat_mul(a: int, k: int) -> int {
    clamp255(a * k)
}

impl Pixels {
    pub fn get_red(&self) -> (r: u8)
        ensures
            r == self.red,
    {
        self.red
    }

    pub fn get_green(&self) -> (r: u8)
        ensures
            r == self.green,
    {
        self.green
    }

    pub fn get_blue(&self) -> (r: u8)
        ensures
            r == self.blue,
    {
        self.blue
    }

    pub fn get_alpha(&self) -> (r: u8)
        ensures
            r == self.alpha,
    {
        self.alpha
    }

    pub fn new(red: u8, green: u8, blue: u8, alpha: u8) -> (r: Pixels)
        ensures
            r == (Pixels { red, green, blue, alpha }),
    {
        Pixels { red, green, blue, alpha }
    }

    /// Channel-wise saturating addition of two pixels.
    pub fn add(self, rhs: Pixels) -> (r: Pixels)
        ensures
            r.red == sat_add(self.red as int, rhs.red as int),
            r.green == sat_add(self.green as int, rhs.green as int),
            r.blue == sat_add(self.blue as int, rhs.blue as int),
            r.alpha == sat_add(self.alpha as int, rhs.alpha as int),
    {
        Pixels {
            red: sat_add_u8(self.red, rhs.red),
            green: sat_add_u8(self.green, rhs.green),
            blue: sat_add_u8(self.blue, rhs.blue),
            alpha: sat_add_u8(self.alpha, rhs.alpha),
        }
    }

    /// Channel-wise saturating subtraction of two pixels.
    pub fn sub(self, rhs: Pixels) -> (r: Pixels)
        ensures
            r.red == sat_sub(self.red as int, rhs.red as int),
            r.green == sat_sub(self.green as int, rhs.green as int),
            r.blue == sat_sub(self.blue as int, rhs.blue as int),
            r.alpha == sat_sub(self.alpha as int, rhs.alpha as int),
    {
        Pixels {
            red: sat_sub_u8(self.red, rhs.red),
            green: sat_sub_u8(self.green, rhs.green),
            blue: sat_sub_u8(self.blue, rhs.blue),
            alpha: sat_sub_u8(self.alpha, rhs.alpha),
        }
    }

    /// Channel-wise saturating multiplication by an integer scalar.
    pub fn mul(self, rhs: u32) -> (r: Pixels)
        ensures
            r.red == sat_mul(self.red as int, rhs as int),
            r.green == sat_mul(self.green as int, rhs as int),
            r.blue == sat_mul(self.blue as int, rhs as int),
            r.alpha == sat_mul(self.alpha as int, rhs as int),
    {
        Pixels {
            red: sat_mul_u8(self.red, rhs),
            green: sat_mul_u8(self.green, rhs),
            blue: sat_mul_u8(self.blue, rhs),
            alpha: sat_mul_u8(self.alpha, rhs),
        }
    }

    /// Channel-wise division by a non-zero scalar (rounds towards zero).
    pub fn div(self, rhs: u8) -> (r: Pixels)
        requires
            rhs != 0,
        ensures
            r.red == self.red as int / rhs as int,
            r.green == self.green as int / rhs as int,
            r.blue == self.blue as int / rhs as int,
            r.alpha == self.alpha as int / rhs as int,
    {
        Pixels {
            red: self.red / rhs,
            green: self.green / rhs,
            blue: self.blue / rhs,
            alpha: self.alpha / rhs,
        }
    }
}

impl Default for Pixels {
    /// The default pixel is fully transparent black with opaque alpha.
    fn default() -> (r: Pixels)
        ensures
            r == (Pixels { red: 0, green: 0, blue: 0, alpha: 255 }),
    {
        Pixels { red: 0, green: 0, blue: 0, alpha: 255 }
    }
}

fn sat_add_u8(a: u8, b: u8) -> (r: u8)
    ensures
        r == sat_add(a as int, b as int),
{
    let s: u16 = a as u16 + b as u16;
    if s > 255 {
        255
    } else {
        s as u8
    }
}

fn sat_sub_u8(a: u8, b: u8) -> (r: u8)
    ensures
        r == sat_sub(a as int, b as int),
{
    if a >= b {
        a - b
    } else {
        0
    }
}

fn sat_mul_u8(a: u8, k: u32) -> (r: u8)
    ensures
        r == sat_mul(a as int, k as int),
{
    proof {
        assert((a as int) * (k as int) <= 255 * (u32::MAX as int)) by (nonlinear_arith)
            requires
                0 <= a <= 255,
                0 <= k <= u32::MAX,
        ;
    }
    let p: u64 = a as u64 * k as u64;
    if p > 255 {
        255
    } else {
        p as u8
    }
}

/// Saturating channel arithmetic never leaves the representable range:
/// for any integer inputs, the result of a clamped addition, subtraction
/// or scalar multiplication lies within 0..=255.
pub proof fn lemma_pixel_arithmetic_in_range(a: int, b: int, k: int)
    ensures
        0 <= sat_add(a, b) <= 255,
        0 <= sat_sub(a, b) <= 255,
        0 <= sat_mul(a, k) <= 255,
{
}

} // verus!
