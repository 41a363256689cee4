//! Units and rectangles.

use vstd::arithmetic::div_mod::{
    lemma_fundamental_div_mod, lemma_fundamental_div_mod_converse, lemma_mod_bound,
};
use vstd::prelude::*;

verus! {

/// Nanopixels in one pixel.
pub const SUBPIXELS: i64 = 1_000_000_000;

/// Nanoseconds in one second.
pub const NANOS_PER_SEC: u64 = 1_000_000_000;

/// The whole pixel that holds coordinate `c` (in nanopixels), rounding
/// down, so that coordinates left of or above the origin fall in negative
/// pixels. Pixels are held within `u32::MAX` of the origin either way.
pub open spec fn pixel_of(c: int) -> int {
    let p = c / (SUBPIXELS as int);
    if p < -(u32::MAX as int) {
        -(u32::MAX as int)
    } else if p > u32::MAX {
        u32::MAX as int
    } else {
        p
    }
}

/// `a / b` rounded down, also for negative `a`.
pub fn floor_div(a: i128, b: i128) -> (r: i128)
    requires
        b > 0,
        a >= b - i128::MAX,
    ensures
        r == a / b,
{
    if a >= 0 {
        a / b
    } else {
        let n: i128 = -a + b - 1;
        let q: i128 = n / b;
        proof {
            lemma_fundamental_div_mod(n as int, b as int);
            lemma_mod_bound(n as int, b as int);
            let r = n % b;
            assert(a == (-q) * b + (b - 1 - r)) by (nonlinear_arith)
                requires
                    n == b * q + r,
                    n == -a + b - 1,
            ;
            lemma_fundamental_div_mod_converse(a as int, b as int, -q, b - 1 - r);
        }
        -q
    }
}

pub fn pixel(c: i128) -> (r: i64)
    ensures
        r == pixel_of(c as int),
{
    let s: i128 = SUBPIXELS as i128;
    if c < -(u32::MAX as i128) * s {
        proof {
            lemma_fundamental_div_mod(c as int, s as int);
            lemma_mod_bound(c as int, s as int);
        }
        -(u32::MAX as i64)
    } else {
        let p: i128 = floor_div(c, s);
        proof {
            lemma_fundamental_div_mod(c as int, s as int);
            lemma_mod_bound(c as int, s as int);
        }
        if p > u32::MAX as i128 {
            u32::MAX as i64
        } else {
            p as i64
        }
    }
}

/// The abstract value of a [`Rect`].
pub struct RectView {
    pub x: int,
    pub y: int,
    pub w: int,
    pub h: int,
}

/// An axis-aligned rectangle on the pixel grid, given by its top left corner
/// and its size.
#[derive(Clone, Copy, Debug, PartialEq, Eq, Structural)]
pub struct Rect {
    x: i128,
    y: i128,
    w: i128,
    h: i128,
}

impl View for Rect {
    type V = RectView;

    closed spec fn view(&self) -> RectView {
        RectView { x: self.x as int, y: self.y as int, w: self.w as int, h: self.h as int }
    }
}

impl Rect {
    /// A rectangle's edges can be computed without overflow.
    pub closed spec fn wf(&self) -> bool {
        &&& self.x + self.w <= i128::MAX
        &&& self.y + self.h <= i128::MAX
        &&& self.w > 0
        &&& self.h > 0
    }

    pub fn new(x: i128, y: i128, w: i128, h: i128) -> (r: Rect)
        requires
            w > 0,
            h > 0,
            x + w <= i128::MAX,
            y + h <= i128::MAX,
        ensures
            r.wf(),
            r@ == (RectView { x: x as int, y: y as int, w: w as int, h: h as int }),
    {
        Rect { x, y, w, h }
    }

    pub fn left(&self) -> (r: i128)
        ensures
            r == self@.x,
    {
        self.x
    }

    pub fn right(&self) -> (r: i128)
        requires
            self.wf(),
        ensures
            r == self@.x + self@.w,
    {
        self.x + self.w
    }

    pub fn top(&self) -> (r: i128)
        ensures
            r == self@.y,
    {
        self.y
    }

    pub fn bottom(&self) -> (r: i128)
        requires
            self.wf(),
        ensures
            r == self@.y + self@.h,
    {
        self.y + self.h
    }
}

} // verus!
