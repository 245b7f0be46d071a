//! Zoom arithmetic. The font scale is kept in thousandths of a point, so
//! that `16000` is a 16-point font; the displayed zoom is a whole percentage.

use vstd::prelude::*;

verus! {

/// Smallest font scale, in thousandths of a point.
pub const FONT_SCALE_MIN: u32 = 8000;

/// Largest font scale, in thousandths of a point.
pub const FONT_SCALE_MAX: u32 = 72000;

/// Font scale of a fresh session, in thousandths of a point.
pub const FONT_SCALE_DEFAULT: u32 = 16000;

/// Smallest displayed zoom percentage.
pub const ZOOM_PERCENT_MIN: u32 = 20;

/// Largest displayed zoom percentage.
pub const ZOOM_PERCENT_MAX: u32 = 450;

/// Displayed zoom percentage of a fresh session.
pub const ZOOM_PERCENT_DEFAULT: u32 = 100;

/// One step of zoom: in multiplies by 1.1, out by 0.9.
#[derive(Clone, Copy, Debug, PartialEq, Eq, Structural)]
pub enum ZoomStep {
    In,
    Out,
}

/// The zoom step for a scroll delta, given by how the delta compares with
/// zero: none for a zero delta.
pub open spec fn step_for_delta(delta: core::cmp::Ordering) -> Option<ZoomStep> {
    match delta {
        core::cmp::Ordering::Greater => Some(ZoomStep::In),
        core::cmp::Ordering::Less => Some(ZoomStep::Out),
        core::cmp::Ordering::Equal => None,
    }
}

/// The factor of a step, in tenths.
pub open spec fn factor_tenths(step: ZoomStep) -> int {
    match step {
        ZoomStep::In => 11,
        ZoomStep::Out => 9,
    }
}

pub open spec fn clamp(v: int, lo: int, hi: int) -> int {
    if v < lo {
        lo
    } else if v > hi {
        hi
    } else {
        v
    }
}

/// `v` times the step's factor, rounded to the nearest integer (halves up).
pub open spec fn scaled(v: int, step: ZoomStep) -> int {
    (v * factor_tenths(step) + 5) / 10
}

pub open spec fn next_font_scale(scale: int, step: ZoomStep) -> int {
    clamp(scaled(scale, step), FONT_SCALE_MIN as int, FONT_SCALE_MAX as int)
}

pub open spec fn next_zoom_percent(percent: int, step: ZoomStep) -> int {
    clamp(scaled(percent, step), ZOOM_PERCENT_MIN as int, ZOOM_PERCENT_MAX as int)
}

/// The zoom step for a scroll delta compared with zero.
pub fn step_for(delta: core::cmp::Ordering) -> (r: Option<ZoomStep>)
    ensures
        r == step_for_delta(delta),
{
    match delta {
        core::cmp::Ordering::Greater => Some(ZoomStep::In),
        core::cmp::Ordering::Less => Some(ZoomStep::Out),
        core::cmp::Ordering::Equal => None,
    }
}

fn clamp_u32(v: u32, lo: u32, hi: u32) -> (r: u32)
    requires
        lo <= hi,
    ensures
        r == clamp(v as int, lo as int, hi as int),
{
    if v < lo {
        lo
    } else if v > hi {
        hi
    } else {
        v
    }
}

fn scale_by(v: u32, step: ZoomStep) -> (r: u32)
    requires
        v <= FONT_SCALE_MAX,
    ensures
        r == scaled(v as int, step),
{
    match step {
        ZoomStep::In => (v * 11 + 5) / 10,
        ZoomStep::Out => (v * 9 + 5) / 10,
    }
}

/// The font scale after one step, kept within its bounds.
pub fn zoom_font_scale(scale: u32, step: ZoomStep) -> (r: u32)
    requires
        scale <= FONT_SCALE_MAX,
    ensures
        r == next_font_scale(scale as int, step),
        FONT_SCALE_MIN <= r <= FONT_SCALE_MAX,
{
    clamp_u32(scale_by(scale, step), FONT_SCALE_MIN, FONT_SCALE_MAX)
}

/// The displayed zoom percentage after one step, kept within its bounds.
pub fn zoom_percent(percent: u32, step: ZoomStep) -> (r: u32)
    requires
        percent <= ZOOM_PERCENT_MAX,
    ensures
        r == next_zoom_percent(percent as int, step),
        ZOOM_PERCENT_MIN <= r <= ZOOM_PERCENT_MAX,
{
    clamp_u32(scale_by(percent, step), ZOOM_PERCENT_MIN, ZOOM_PERCENT_MAX)
}

} // verus!
