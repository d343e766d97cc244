//! The overlay has one size, given in logical units. When the display scale
//! changes, the system may resize the window; this module says when to set
//! the size back.

use crate::rational::Scale;
use vstd::prelude::*;

verus! {

/// The overlay's width, in logical units.
pub const TARGET_WIDTH_LOGICAL: u32 = 160;

/// The overlay's height, in logical units.
pub const TARGET_HEIGHT_LOGICAL: u32 = 60;

/// A size in physical pixels.
#[derive(Clone, Copy, Debug, PartialEq, Eq, Structural)]
pub struct PhysicalSize {
    pub width: u32,
    pub height: u32,
}

/// A size in logical units.
#[derive(Clone, Copy, Debug, PartialEq, Eq, Structural)]
pub struct LogicalSize {
    pub width: u32,
    pub height: u32,
}

/// The distance between `a` and `b`.
pub open spec fn distance(a: int, b: int) -> int {
    if a >= b {
        a - b
    } else {
        b - a
    }
}

/// Whether a physical length, taken back to logical units at the given
/// scale, is more than one tenth of a unit away from `target`.
///
/// The logical length is `physical * denom / numer`. Its distance from
/// `target` exceeds `1 / 10` exactly when ten times the distance between
/// `physical * denom` and `target * numer` exceeds `numer`.
pub open spec fn deviates(physical: int, scale: Scale, target: int) -> bool {
    10 * distance(physical * scale.denom, target * scale.numer) > scale.numer
}

/// The size to set, if the current one is off: the fixed logical size when
/// either side deviates from it, and nothing when both are within the
/// tolerance. Without a current size there is nothing to correct; without a
/// scale, one physical pixel counts as one logical unit.
pub open spec fn spec_enforce_logical_size(
    current: Option<PhysicalSize>,
    scale: Option<Scale>,
) -> Option<LogicalSize> {
    match current {
        None => None,
        Some(size) => {
            let s = match scale {
                Some(s) => s,
                None => Scale { numer: 1, denom: 1 },
            };
            if deviates(size.width as int, s, TARGET_WIDTH_LOGICAL as int) || deviates(
                size.height as int,
                s,
                TARGET_HEIGHT_LOGICAL as int,
            ) {
                Some(LogicalSize { width: TARGET_WIDTH_LOGICAL, height: TARGET_HEIGHT_LOGICAL })
            } else {
                None
            }
        },
    }
}

/// Whether `physical` pixels are more than a tenth of a logical unit away
/// from `target` units.
pub fn exceeds_tolerance(physical: u32, scale: Scale, target: u32) -> (b: bool)
    requires
        scale.wf(),
    ensures
        b == deviates(physical as int, scale, target as int),
{
    assert(0 <= physical * scale.denom <= 0xffff_ffff * 0xffff_ffff) by (nonlinear_arith)
        requires
            0 <= physical <= 0xffff_ffff,
            0 <= scale.denom <= 0xffff_ffff,
    ;
    assert(0 <= target * scale.numer <= 0xffff_ffff * 0xffff_ffff) by (nonlinear_arith)
        requires
            0 <= target <= 0xffff_ffff,
            0 <= scale.numer <= 0xffff_ffff,
    ;
    let have: u128 = (physical as u128) * (scale.denom as u128);
    let want: u128 = (target as u128) * (scale.numer as u128);
    let off: u128 = if have >= want {
        have - want
    } else {
        want - have
    };
    10 * off > scale.numer as u128
}

/// Decides whether the window has to be resized, and to what.
pub fn enforce_logical_size(current: Option<PhysicalSize>, scale: Option<Scale>) -> (r: Option<
    LogicalSize,
>)
    requires
        scale matches Some(s) ==> s.wf(),
    ensures
        r == spec_enforce_logical_size(current, scale),
        r is Some ==> r == Some(
            LogicalSize { width: TARGET_WIDTH_LOGICAL, height: TARGET_HEIGHT_LOGICAL },
        ),
{
    match current {
        None => None,
        Some(size) => {
            let s: Scale = match scale {
                Some(s) => s,
                None => Scale::identity(),
            };
            if exceeds_tolerance(size.width, s, TARGET_WIDTH_LOGICAL) || exceeds_tolerance(
                size.height,
                s,
                TARGET_HEIGHT_LOGICAL,
            ) {
                Some(LogicalSize { width: TARGET_WIDTH_LOGICAL, height: TARGET_HEIGHT_LOGICAL })
            } else {
                None
            }
        },
    }
}

/// A window whose physical size is exactly the target at the given scale is
/// left alone.
pub proof fn lemma_exact_size_is_kept(size: PhysicalSize, scale: Scale)
    requires
        scale.wf(),
        size.width * scale.denom == TARGET_WIDTH_LOGICAL * scale.numer,
        size.height * scale.denom == TARGET_HEIGHT_LOGICAL * scale.numer,
    ensures
        spec_enforce_logical_size(Some(size), Some(scale)) is None,
{
}

/// The tolerance is one tenth of a logical unit on either side: a resize is
/// asked for exactly when, for the width or for the height, ten times the
/// physical length, in units of `1 / denom` pixels, is more than `numer`
/// below or above ten times the target.
pub proof fn lemma_tolerance_is_a_tenth(size: PhysicalSize, scale: Scale)
    requires
        scale.wf(),
    ensures
        spec_enforce_logical_size(Some(size), Some(scale)) is Some <==> {
            ||| 10 * size.width * scale.denom < (10 * TARGET_WIDTH_LOGICAL - 1) * scale.numer
            ||| 10 * size.width * scale.denom > (10 * TARGET_WIDTH_LOGICAL + 1) * scale.numer
            ||| 10 * size.height * scale.denom < (10 * TARGET_HEIGHT_LOGICAL - 1) * scale.numer
            ||| 10 * size.height * scale.denom > (10 * TARGET_HEIGHT_LOGICAL + 1) * scale.numer
        },
{
    let n = scale.numer as int;
    let d = scale.denom as int;
    assert((10 * TARGET_WIDTH_LOGICAL - 1) * n == 10 * (TARGET_WIDTH_LOGICAL * n) - n)
        by (nonlinear_arith);
    assert((10 * TARGET_WIDTH_LOGICAL + 1) * n == 10 * (TARGET_WIDTH_LOGICAL * n) + n)
        by (nonlinear_arith);
    assert((10 * TARGET_HEIGHT_LOGICAL - 1) * n == 10 * (TARGET_HEIGHT_LOGICAL * n) - n)
        by (nonlinear_arith);
    assert((10 * TARGET_HEIGHT_LOGICAL + 1) * n == 10 * (TARGET_HEIGHT_LOGICAL * n) + n)
        by (nonlinear_arith);
    assert(10 * size.width * d == 10 * (size.width * d)) by (nonlinear_arith);
    assert(10 * size.height * d == 10 * (size.height * d)) by (nonlinear_arith);
}

} // verus!
