//! Window geometry: positions and sizes in physical pixels, sizes in
//! logical pixels, and the display scale factor that converts between them.

use vstd::prelude::*;

verus! {

use vstd::arithmetic::div_mod::lemma_div_is_ordered;
use vstd::arithmetic::mul::lemma_mul_nonnegative;
use vstd::arithmetic::mul::lemma_mul_upper_bound;

/// A window position in physical pixels, as the windowing system reports it.
/// The origin is the top-left corner of the window, decorations included.
#[derive(Clone, Copy, PartialEq, Eq, Structural, Debug)]
pub struct PhysicalPosition {
    pub x: i32,
    pub y: i32,
}

/// A window size in physical pixels, decorations included.
#[derive(Clone, Copy, PartialEq, Eq, Structural, Debug)]
pub struct PhysicalSize {
    pub width: u32,
    pub height: u32,
}

/// A window size in logical pixels, independent of the display's scale.
#[derive(Clone, Copy, PartialEq, Eq, Structural, Debug)]
pub struct LogicalSize {
    pub width: u32,
    pub height: u32,
}

/// One logical pixel is `SCALE_ONE` thousandths of itself in physical
/// pixels on an unscaled display.
pub const SCALE_ONE: u32 = 1000;

/// Largest admitted scale factor, in thousandths: a thousandfold scale.
pub const SCALE_MAX_MILLIS: u32 = 1_000_000;

/// A display scale factor held in thousandths, so `millis == 1500` scales
/// every logical dimension by one and a half. Scale factors are positive.
#[derive(Clone, Copy, PartialEq, Eq, Structural, Debug)]
pub struct ScaleFactor {
    pub millis: u32,
}

impl ScaleFactor {
    /// A scale factor is well formed when it is positive and at most
    /// `SCALE_MAX_MILLIS` thousandths.
    pub open spec fn wf(self) -> bool {
        1 <= self.millis <= SCALE_MAX_MILLIS
    }

    /// Builds a scale factor from thousandths, rejecting zero and
    /// anything beyond `SCALE_MAX_MILLIS`.
    pub fn new(millis: u32) -> (r: Option<ScaleFactor>)
        ensures
            r is Some <==> 1 <= millis <= SCALE_MAX_MILLIS,
            r matches Some(s) ==> s.millis == millis && s.wf(),
    {
        if 1 <= millis && millis <= SCALE_MAX_MILLIS {
            Some(ScaleFactor { millis })
        } else {
            None
        }
    }
}

/// One logical dimension scaled to physical pixels and rounded to the
/// nearest integer, halves rounding up.
pub open spec fn scale_dim(logical: int, millis: int) -> int {
    (logical * millis + 500) / 1000
}

impl LogicalSize {
    /// Scales both dimensions to physical pixels under the given scale
    /// factor, rounding each to the nearest integer.
    pub fn to_physical(&self, scale: &ScaleFactor) -> (r: PhysicalSize)
        requires
            scale.wf(),
            scale_dim(self.width as int, scale.millis as int) <= u32::MAX,
            scale_dim(self.height as int, scale.millis as int) <= u32::MAX,
        ensures
            r.width == scale_dim(self.width as int, scale.millis as int),
            r.height == scale_dim(self.height as int, scale.millis as int),
    {
        proof {
            lemma_mul_upper_bound(
                self.width as int,
                u32::MAX as int,
                scale.millis as int,
                u32::MAX as int,
            );
            lemma_mul_upper_bound(
                self.height as int,
                u32::MAX as int,
                scale.millis as int,
                u32::MAX as int,
            );
            lemma_mul_nonnegative(self.width as int, scale.millis as int);
            lemma_mul_nonnegative(self.height as int, scale.millis as int);
            lemma_div_is_ordered(0, self.width as int * scale.millis as int + 500, 1000);
            lemma_div_is_ordered(0, self.height as int * scale.millis as int + 500, 1000);
        }
        let width: u64 = ((self.width as u64) * (scale.millis as u64) + 500) / 1000;
        let height: u64 = ((self.height as u64) * (scale.millis as u64) + 500) / 1000;
        PhysicalSize { width: width as u32, height: height as u32 }
    }
}

/// The horizontal coordinate that keeps a window's top-right corner fixed
/// across a resize from `current_width` to `target_width`.
pub open spec fn anchored_x(x: int, current_width: int, target_width: int) -> int {
    x + current_width - target_width
}

/// Computes the position of a window resized from `current` to `target`
/// so that its top-right corner stays where it was: the new horizontal
/// coordinate is the old one plus the old width minus the new width, and
/// the vertical coordinate is unchanged. Returns `None` exactly when that
/// coordinate leaves the windowing system's coordinate range.
pub fn anchor_top_right(
    pos: &PhysicalPosition,
    current: &PhysicalSize,
    target: &PhysicalSize,
) -> (r: Option<PhysicalPosition>)
    ensures
        r is Some <==> i32::MIN
            <= anchored_x(pos.x as int, current.width as int, target.width as int)
            <= i32::MAX,
        r matches Some(p) ==> p.x
            == anchored_x(pos.x as int, current.width as int, target.width as int) && p.y
            == pos.y,
{
    let wide_x: i64 = pos.x as i64 + current.width as i64 - target.width as i64;
    if i32::MIN as i64 <= wide_x && wide_x <= i32::MAX as i64 {
        Some(PhysicalPosition { x: wide_x as i32, y: pos.y })
    } else {
        None
    }
}

} // verus!
