//! Marker types for user-class controls.

use vstd::prelude::*;

use crate::controls::ExtControlTrait;

verus! {

/// Base of the user control class.
pub const V4L2_CID_BASE: u32 = 0x0098_0900;

/// The `BRIGHTNESS` control: picture brightness, a 32-bit scalar.
pub const V4L2_CID_BRIGHTNESS: u32 = V4L2_CID_BASE + 0;

/// The `CONTRAST` control: picture contrast, a 32-bit scalar.
pub const V4L2_CID_CONTRAST: u32 = V4L2_CID_BASE + 1;

/// The `BRIGHTNESS` control identity.
pub struct Brightness;

impl ExtControlTrait for Brightness {
    type PAYLOAD = i32;

    open spec fn spec_id() -> u32 {
        V4L2_CID_BRIGHTNESS
    }

    fn id() -> u32 {
        V4L2_CID_BRIGHTNESS
    }
}

/// The `CONTRAST` control identity.
pub struct Contrast;

impl ExtControlTrait for Contrast {
    type PAYLOAD = i32;

    open spec fn spec_id() -> u32 {
        V4L2_CID_CONTRAST
    }

    fn id() -> u32 {
        V4L2_CID_CONTRAST
    }
}

} // verus!
