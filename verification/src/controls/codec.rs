//! Marker types for codec controls, and the FWHT flag set.

use vstd::prelude::*;

use crate::controls::ExtControlTrait;
use crate::raw::CtrlFwhtParams;
use crate::raw::CtrlH264DecodeParams;
use crate::raw::CtrlH264Pps;
use crate::raw::CtrlH264PredWeights;
use crate::raw::CtrlH264ScalingMatrix;
use crate::raw::CtrlH264SliceParams;
use crate::raw::CtrlH264Sps;
use crate::raw::CtrlVp8Frame;

verus! {

/// Base of the codec control class.
pub const V4L2_CID_CODEC_BASE: u32 = 0x0099_0900;

/// The `MPEG_VIDEO_DEC_PTS` control: presentation timestamp of the frame
/// about to be decoded, a 64-bit scalar.
pub const V4L2_CID_MPEG_VIDEO_DEC_PTS: u32 = V4L2_CID_CODEC_BASE + 223;

/// Base of the stateless codec control class.
pub const V4L2_CID_CODEC_STATELESS_BASE: u32 = 0x00a4_0900;

/// The `STATELESS_H264_SPS` control.
pub const V4L2_CID_STATELESS_H264_SPS: u32 = V4L2_CID_CODEC_STATELESS_BASE + 2;

/// The `STATELESS_H264_PPS` control.
pub const V4L2_CID_STATELESS_H264_PPS: u32 = V4L2_CID_CODEC_STATELESS_BASE + 3;

/// The `STATELESS_H264_SCALING_MATRIX` control.
pub const V4L2_CID_STATELESS_H264_SCALING_MATRIX: u32 = V4L2_CID_CODEC_STATELESS_BASE + 4;

/// The `STATELESS_H264_PRED_WEIGHTS` control.
pub const V4L2_CID_STATELESS_H264_PRED_WEIGHTS: u32 = V4L2_CID_CODEC_STATELESS_BASE + 5;

/// The `STATELESS_H264_SLICE_PARAMS` control.
pub const V4L2_CID_STATELESS_H264_SLICE_PARAMS: u32 = V4L2_CID_CODEC_STATELESS_BASE + 6;

/// The `STATELESS_H264_DECODE_PARAMS` control.
pub const V4L2_CID_STATELESS_H264_DECODE_PARAMS: u32 = V4L2_CID_CODEC_STATELESS_BASE + 7;

/// The `STATELESS_FWHT_PARAMS` control.
pub const V4L2_CID_STATELESS_FWHT_PARAMS: u32 = V4L2_CID_CODEC_STATELESS_BASE + 100;

/// The `STATELESS_VP8_FRAME` control.
pub const V4L2_CID_STATELESS_VP8_FRAME: u32 = V4L2_CID_CODEC_STATELESS_BASE + 200;

/// FWHT parameter flag: the frame is interlaced.
pub const FWHT_FL_IS_INTERLACED: u32 = 0x0000_0001;

/// FWHT parameter flag: the bottom field comes first.
pub const FWHT_FL_IS_BOTTOM_FIRST: u32 = 0x0000_0002;

/// FWHT parameter flag: the fields are transmitted alternately.
pub const FWHT_FL_IS_ALTERNATE: u32 = 0x0000_0004;

/// FWHT parameter flag: this is the bottom field.
pub const FWHT_FL_IS_BOTTOM_FIELD: u32 = 0x0000_0008;

/// FWHT parameter flag: the luma plane is uncompressed.
pub const FWHT_FL_LUMA_IS_UNCOMPRESSED: u32 = 0x0000_0010;

/// FWHT parameter flag: the Cb plane is uncompressed.
pub const FWHT_FL_CB_IS_UNCOMPRESSED: u32 = 0x0000_0020;

/// FWHT parameter flag: the Cr plane is uncompressed.
pub const FWHT_FL_CR_IS_UNCOMPRESSED: u32 = 0x0000_0040;

/// FWHT parameter flag: the alpha plane is uncompressed.
pub const FWHT_FL_ALPHA_IS_UNCOMPRESSED: u32 = 0x0000_0080;

/// FWHT parameter flag: this is an intra frame.
pub const FWHT_FL_I_FRAME: u32 = 0x0000_0100;

/// FWHT parameter mask: number of components, minus one.
pub const FWHT_FL_COMPONENTS_NUM_MSK: u32 = 0x0007_0000;

/// FWHT parameter mask: pixel encoding.
pub const FWHT_FL_PIXENC_MSK: u32 = 0x0018_0000;

/// Every FWHT parameter flag bit that is defined.
pub const FWHT_FL_ALL: u32 = 0x001f_01ff;

/// A set of FWHT parameter flags: a 32-bit field in which only the defined
/// bits may be set.
#[derive(Clone, Copy, Debug, PartialEq, Eq, Structural)]
pub struct FwhtFlags {
    pub bits: u32,
}

/// What [`FwhtFlags::from_bits`] returns: the bits as a flag set, or `None`
/// when a bit outside the defined set is present.
pub open spec fn spec_fwht_flags_from_bits(bits: u32) -> Option<FwhtFlags> {
    if bits & !FWHT_FL_ALL == 0 {
        Some(FwhtFlags { bits })
    } else {
        None
    }
}

impl FwhtFlags {
    /// Interprets `bits` as a flag set, rejecting undefined bits.
    pub fn from_bits(bits: u32) -> (r: Option<FwhtFlags>)
        ensures
            r == spec_fwht_flags_from_bits(bits),
    {
        if bits & !FWHT_FL_ALL == 0 {
            Some(FwhtFlags { bits })
        } else {
            None
        }
    }

    /// The raw bit field.
    pub fn bits(&self) -> (r: u32)
        ensures
            r == self.bits,
    {
        self.bits
    }

    /// True when every bit of `other` is also set in `self`.
    pub fn contains(&self, other: FwhtFlags) -> (r: bool)
        ensures
            r == (self.bits & other.bits == other.bits),
    {
        self.bits & other.bits == other.bits
    }
}

/// The `MPEG_VIDEO_DEC_PTS` control identity.
pub struct MpegVideoDecPts;

impl ExtControlTrait for MpegVideoDecPts {
    type PAYLOAD = i64;

    open spec fn spec_id() -> u32 {
        V4L2_CID_MPEG_VIDEO_DEC_PTS
    }

    fn id() -> u32 {
        V4L2_CID_MPEG_VIDEO_DEC_PTS
    }
}

/// The `STATELESS_FWHT_PARAMS` control identity.
pub struct FwhtParams;

impl ExtControlTrait for FwhtParams {
    type PAYLOAD = CtrlFwhtParams;

    open spec fn spec_id() -> u32 {
        V4L2_CID_STATELESS_FWHT_PARAMS
    }

    fn id() -> u32 {
        V4L2_CID_STATELESS_FWHT_PARAMS
    }
}

/// The `STATELESS_H264_SPS` control identity.
pub struct H264Sps;

impl ExtControlTrait for H264Sps {
    type PAYLOAD = CtrlH264Sps;

    open spec fn spec_id() -> u32 {
        V4L2_CID_STATELESS_H264_SPS
    }

    fn id() -> u32 {
        V4L2_CID_STATELESS_H264_SPS
    }
}

/// The `STATELESS_H264_PPS` control identity.
pub struct H264Pps;

impl ExtControlTrait for H264Pps {
    type PAYLOAD = CtrlH264Pps;

    open spec fn spec_id() -> u32 {
        V4L2_CID_STATELESS_H264_PPS
    }

    fn id() -> u32 {
        V4L2_CID_STATELESS_H264_PPS
    }
}

/// The `STATELESS_H264_SCALING_MATRIX` control identity.
pub struct H264ScalingMatrix;

impl ExtControlTrait for H264ScalingMatrix {
    type PAYLOAD = CtrlH264ScalingMatrix;

    open spec fn spec_id() -> u32 {
        V4L2_CID_STATELESS_H264_SCALING_MATRIX
    }

    fn id() -> u32 {
        V4L2_CID_STATELESS_H264_SCALING_MATRIX
    }
}

/// The `STATELESS_H264_PRED_WEIGHTS` control identity.
pub struct H264PredWeights;

impl ExtControlTrait for H264PredWeights {
    type PAYLOAD = CtrlH264PredWeights;

    open spec fn spec_id() -> u32 {
        V4L2_CID_STATELESS_H264_PRED_WEIGHTS
    }

    fn id() -> u32 {
        V4L2_CID_STATELESS_H264_PRED_WEIGHTS
    }
}

/// The `STATELESS_H264_SLICE_PARAMS` control identity.
pub struct H264SliceParams;

impl ExtControlTrait for H264SliceParams {
    type PAYLOAD = CtrlH264SliceParams;

    open spec fn spec_id() -> u32 {
        V4L2_CID_STATELESS_H264_SLICE_PARAMS
    }

    fn id() -> u32 {
        V4L2_CID_STATELESS_H264_SLICE_PARAMS
    }
}

/// The `STATELESS_H264_DECODE_PARAMS` control identity.
pub struct H264DecodeParams;

impl ExtControlTrait for H264DecodeParams {
    type PAYLOAD = CtrlH264DecodeParams;

    open spec fn spec_id() -> u32 {
        V4L2_CID_STATELESS_H264_DECODE_PARAMS
    }

    fn id() -> u32 {
        V4L2_CID_STATELESS_H264_DECODE_PARAMS
    }
}

/// The `STATELESS_VP8_FRAME` control identity.
pub struct Vp8Frame;

impl ExtControlTrait for Vp8Frame {
    type PAYLOAD = CtrlVp8Frame;

    open spec fn spec_id() -> u32 {
        V4L2_CID_STATELESS_VP8_FRAME
    }

    fn id() -> u32 {
        V4L2_CID_STATELESS_VP8_FRAME
    }
}

} // verus!
