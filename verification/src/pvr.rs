//! The PowerVR display block: the framebuffer pixel formats.

use vstd::prelude::*;

verus! {

/// The pixel format of the framebuffer (FB_R_CTRL.fb_depth).
#[allow(non_camel_case_types)]
#[derive(Clone, Copy, PartialEq, Eq, Structural, Debug)]
pub enum FBDepth {
    /// 16 bits: 0RRRRRGGGGGBBBBB.
    FBDE_0555,
    /// 16 bits: RRRRRGGGGGGBBBBB.
    FBDE_565,
    /// 24 bits, packed.
    FBDE_888,
    /// 32 bits, with a high byte that is not shown.
    FBDE_C888,
}

/// The format with field value `v` (0 to 3).
pub open spec fn fb_depth_of(v: u32) -> FBDepth {
    if v % 4 == 0 { FBDepth::FBDE_0555 } else if v % 4 == 1 { FBDepth::FBDE_565 }
    else if v % 4 == 2 { FBDepth::FBDE_888 } else { FBDepth::FBDE_C888 }
}

impl FBDepth {
    /// The field value of the format.
    pub fn bits(self) -> (v: u32)
        ensures
            v < 4,
            fb_depth_of(v) == self,
    {
        match self {
            FBDepth::FBDE_0555 => 0,
            FBDepth::FBDE_565 => 1,
            FBDepth::FBDE_888 => 2,
            FBDepth::FBDE_C888 => 3,
        }
    }

    /// The format that a value of FB_R_CTRL selects (bits 2 and 3).
    pub fn from_fb_r_ctrl(ctrl: u32) -> (d: FBDepth)
        ensures
            d == fb_depth_of(ctrl / 4),
    {
        let v = (ctrl / 4) % 4;
        if v == 0 { FBDepth::FBDE_0555 } else if v == 1 { FBDepth::FBDE_565 }
        else if v == 2 { FBDepth::FBDE_888 } else { FBDepth::FBDE_C888 }
    }

    /// The bytes one pixel takes.
    pub fn bytes_per_pixel(self) -> (n: u32)
        ensures
            n == (match self { FBDepth::FBDE_0555 => 2u32, FBDepth::FBDE_565 => 2, FBDepth::FBDE_888 => 3, FBDepth::FBDE_C888 => 4 }),
    {
        match self {
            FBDepth::FBDE_0555 => 2,
            FBDepth::FBDE_565 => 2,
            FBDepth::FBDE_888 => 3,
            FBDepth::FBDE_C888 => 4,
        }
    }
}

} // verus!
