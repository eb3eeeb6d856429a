//! The window geometry advisor: given the captured image's pixel
//! dimensions and the display metrics, it proposes a window size that
//! shows the image at natural size without shrinking the window below
//! its current size or growing it beyond the visible work area.
//!
//! Everything is computed in whole logical units (screen points). The
//! display scale factor is passed in hundredths, so a factor of two is
//! `200`. The advice is advisory only: the caller applies or ignores it.

use vstd::prelude::*;

verus! {

/// Logical padding kept around the image on every side.
pub const IMAGE_PADDING: u64 = 20;

/// Height allowance for the toolbar above the image: a 40-unit bar plus
/// a 1-unit border.
pub const TOOLBAR_HEIGHT: u64 = 41;

/// A dimension has to change by more than this many logical units
/// before the advisory fires.
pub const SIZE_EPSILON: u64 = 1;

/// What the advisor proposes: leave the window alone, or resize it to
/// the given logical size and re-center it.
#[derive(Debug, Clone, Copy, PartialEq, Eq, Structural)]
pub enum SizeAdvice {
    /// The window already fits the image well enough.
    NoChange,
    /// Resize to this logical size and re-center the window.
    Resize { width: u32, height: u32 },
}

/// `px` pixels converted to whole logical units at a scale factor of
/// `scale_centi` hundredths.
pub open spec fn logical_units(px: nat, scale_centi: nat) -> nat
    recommends
        scale_centi > 0,
{
    px * 100 / scale_centi
}

/// The window width that shows an image of `img_w_px` pixels at natural
/// size: the logical image width plus padding on both sides.
pub open spec fn desired_width(img_w_px: u32, scale_centi: u32) -> nat {
    logical_units(img_w_px as nat, scale_centi as nat) + 2 * (IMAGE_PADDING as nat)
}

/// The window height that shows an image of `img_h_px` pixels at natural
/// size: the logical image height plus padding and the toolbar allowance.
pub open spec fn desired_height(img_h_px: u32, scale_centi: u32) -> nat {
    logical_units(img_h_px as nat, scale_centi as nat) + 2 * (IMAGE_PADDING as nat) + (
    TOOLBAR_HEIGHT as nat)
}

/// `desired`, grown to at least `current` and then capped at `limit`.
pub open spec fn clamp_dim(desired: nat, current: u32, limit: u32) -> nat {
    let grown = if desired > current as nat {
        desired
    } else {
        current as nat
    };
    if grown > limit as nat {
        limit as nat
    } else {
        grown
    }
}

/// Whether `a` and `b` differ by more than `eps`.
pub open spec fn differs_more_than(a: nat, b: nat, eps: nat) -> bool {
    a > b + eps || b > a + eps
}

/// The advisor's full decision: clamp each desired dimension between
/// the current size and the work area, and fire only when the result
/// differs from the current size by more than the epsilon.
pub open spec fn spec_advice(
    img_w_px: u32,
    img_h_px: u32,
    scale_centi: u32,
    cur_w: u32,
    cur_h: u32,
    work_w: u32,
    work_h: u32,
) -> SizeAdvice {
    let nw = clamp_dim(desired_width(img_w_px, scale_centi), cur_w, work_w);
    let nh = clamp_dim(desired_height(img_h_px, scale_centi), cur_h, work_h);
    if differs_more_than(nw, cur_w as nat, SIZE_EPSILON as nat) || differs_more_than(
        nh,
        cur_h as nat,
        SIZE_EPSILON as nat,
    ) {
        SizeAdvice::Resize { width: nw as u32, height: nh as u32 }
    } else {
        SizeAdvice::NoChange
    }
}

/// Computes the window-size advice for a captured image.
///
/// `img_w_px` and `img_h_px` are the image's pixel dimensions,
/// `scale_centi` the display scale factor in hundredths (at least one),
/// and the remaining sizes are logical units: the window's current
/// inner size and the display's work area.
pub fn compute_target_size(
    img_w_px: u32,
    img_h_px: u32,
    scale_centi: u32,
    cur_w: u32,
    cur_h: u32,
    work_w: u32,
    work_h: u32,
) -> (r: SizeAdvice)
    requires
        scale_centi >= 1,
    ensures
        r == spec_advice(img_w_px, img_h_px, scale_centi, cur_w, cur_h, work_w, work_h),
{
    let dw: u64 = (img_w_px as u64) * 100 / (scale_centi as u64) + 2 * IMAGE_PADDING;
    let dh: u64 = (img_h_px as u64) * 100 / (scale_centi as u64) + 2 * IMAGE_PADDING
        + TOOLBAR_HEIGHT;
    let gw: u64 = if dw > cur_w as u64 {
        dw
    } else {
        cur_w as u64
    };
    let nw: u64 = if gw > work_w as u64 {
        work_w as u64
    } else {
        gw
    };
    let gh: u64 = if dh > cur_h as u64 {
        dh
    } else {
        cur_h as u64
    };
    let nh: u64 = if gh > work_h as u64 {
        work_h as u64
    } else {
        gh
    };
    if nw > cur_w as u64 + SIZE_EPSILON || cur_w as u64 > nw + SIZE_EPSILON || nh > cur_h as u64
        + SIZE_EPSILON || cur_h as u64 > nh + SIZE_EPSILON {
        SizeAdvice::Resize { width: nw as u32, height: nh as u32 }
    } else {
        SizeAdvice::NoChange
    }
}

/// The advisor never asks the window to shrink: when the size needed
/// for the image does not exceed the current size in either dimension,
/// and the current size already fits the work area, the advice is to
/// change nothing.
pub proof fn lemma_no_shrink_below_current(
    img_w_px: u32,
    img_h_px: u32,
    scale_centi: u32,
    cur_w: u32,
    cur_h: u32,
    work_w: u32,
    work_h: u32,
)
    requires
        desired_width(img_w_px, scale_centi) <= cur_w as nat,
        desired_height(img_h_px, scale_centi) <= cur_h as nat,
        cur_w <= work_w,
        cur_h <= work_h,
    ensures
        spec_advice(img_w_px, img_h_px, scale_centi, cur_w, cur_h, work_w, work_h)
            == SizeAdvice::NoChange,
{
}

/// Any resize the advisor proposes keeps each dimension between the
/// window's current size and the work area, provided the window
/// currently fits the work area.
pub proof fn lemma_resize_within_bounds(
    img_w_px: u32,
    img_h_px: u32,
    scale_centi: u32,
    cur_w: u32,
    cur_h: u32,
    work_w: u32,
    work_h: u32,
)
    requires
        cur_w <= work_w,
        cur_h <= work_h,
    ensures
        spec_advice(img_w_px, img_h_px, scale_centi, cur_w, cur_h, work_w, work_h) matches
            SizeAdvice::Resize { width, height } ==> cur_w <= width <= work_w && cur_h <= height
            <= work_h,
{
}

} // verus!
