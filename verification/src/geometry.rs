//! Render-pass geometry: the physical size of the drawing surface.
//!
//! The toolkit reports the widget's logical width and height and the
//! surface's integer scale factor; the GL painter wants the size in physical
//! pixels. A widget that is not yet laid out can report non-positive sizes,
//! so the product is clamped into the unsigned 32-bit range.

use vstd::prelude::*;

verus! {

/// A value clamped into the unsigned 32-bit range.
pub open spec fn spec_clamped_to_u32(v: int) -> u32 {
    if v < 0 {
        0u32
    } else if v > u32::MAX {
        u32::MAX
    } else {
        v as u32
    }
}

/// The scale factor to render with: the surface's, when the widget already
/// sits on one, and 1 before that.
pub fn effective_scale_factor(surface_scale: Option<i32>) -> (r: i32)
    ensures
        r == match surface_scale {
            Some(s) => s,
            None => 1,
        },
{
    match surface_scale {
        Some(s) => s,
        None => 1,
    }
}

/// The drawing surface's size in physical pixels: each logical dimension
/// times the scale factor, clamped into the unsigned 32-bit range.
pub fn native_size(width: i32, height: i32, scale_factor: i32) -> (r: (u32, u32))
    ensures
        r.0 == spec_clamped_to_u32(width * scale_factor),
        r.1 == spec_clamped_to_u32(height * scale_factor),
{
    proof {
        assert((width as int) * (scale_factor as int) <= 0x4000_0000_0000_0000 && (width as int)
            * (scale_factor as int) >= -0x4000_0000_0000_0000 && (height as int) * (
        scale_factor as int) <= 0x4000_0000_0000_0000 && (height as int) * (scale_factor as int)
            >= -0x4000_0000_0000_0000) by (nonlinear_arith)
            requires
                -0x8000_0000 <= width as int <= 0x7fff_ffff,
                -0x8000_0000 <= height as int <= 0x7fff_ffff,
                -0x8000_0000 <= scale_factor as int <= 0x7fff_ffff,
        ;
    }
    let w = (width as i64) * (scale_factor as i64);
    let h = (height as i64) * (scale_factor as i64);
    let pw: u32 = if w < 0 {
        0
    } else if w > u32::MAX as i64 {
        u32::MAX
    } else {
        w as u32
    };
    let ph: u32 = if h < 0 {
        0
    } else if h > u32::MAX as i64 {
        u32::MAX
    } else {
        h as u32
    };
    (pw, ph)
}

} // verus!
