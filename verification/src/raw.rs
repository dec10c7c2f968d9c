//! The raw extended-control descriptor and the parameter structs that
//! pointer-kind controls carry.
//!
//! The kernel describes an extended control with a fixed-layout record: a
//! numeric identifier, a payload size in bytes, and a payload that is either
//! an inline 32-bit value, an inline 64-bit value, or a pointer to one of a
//! fixed set of parameter structs. The interface demands that `size` is 0
//! when the payload is an inline scalar, and the exact byte size of the
//! pointed-to struct when the payload is a pointer.
//!
//! Here the payload is a closed sum type, [`ControlPayload`], whose
//! pointer-kind variants own their heap allocation through `Box`: the
//! allocation is made when the variant is built, released exactly once when
//! the value is dropped, and never aliased, with no identifier dispatch
//! needed at destruction time. The byte-size constants record the layout
//! size of each parameter struct as the kernel interface declares it.

use vstd::prelude::*;

verus! {

/// Byte size of [`CtrlFwhtParams`].
pub const CTRL_FWHT_PARAMS_SIZE: u32 = 40;

/// Byte size of [`CtrlH264Sps`].
pub const CTRL_H264_SPS_SIZE: u32 = 1048;

/// Byte size of [`CtrlH264Pps`].
pub const CTRL_H264_PPS_SIZE: u32 = 12;

/// Byte size of [`CtrlH264ScalingMatrix`].
pub const CTRL_H264_SCALING_MATRIX_SIZE: u32 = 480;

/// Byte size of [`CtrlH264PredWeights`].
pub const CTRL_H264_PRED_WEIGHTS_SIZE: u32 = 772;

/// Byte size of [`CtrlH264SliceParams`].
pub const CTRL_H264_SLICE_PARAMS_SIZE: u32 = 152;

/// Byte size of [`CtrlH264DecodeParams`].
pub const CTRL_H264_DECODE_PARAMS_SIZE: u32 = 560;

/// Byte size of [`CtrlVp8Frame`].
pub const CTRL_VP8_FRAME_SIZE: u32 = 1232;

/// Parameters of a FWHT stateless-decode request.
#[derive(Clone, Copy, Debug, PartialEq, Eq)]
pub struct CtrlFwhtParams {
    pub backward_ref_ts: u64,
    pub version: u32,
    pub width: u32,
    pub height: u32,
    pub flags: u32,
    pub colorspace: u32,
    pub xfer_func: u32,
    pub ycbcr_enc: u32,
    pub quantization: u32,
}

/// An H.264 sequence parameter set.
#[derive(Clone, Copy, Debug, PartialEq, Eq)]
pub struct CtrlH264Sps {
    pub profile_idc: u8,
    pub constraint_set_flags: u8,
    pub level_idc: u8,
    pub seq_parameter_set_id: u8,
    pub chroma_format_idc: u8,
    pub bit_depth_luma_minus8: u8,
    pub bit_depth_chroma_minus8: u8,
    pub log2_max_frame_num_minus4: u8,
    pub pic_order_cnt_type: u8,
    pub log2_max_pic_order_cnt_lsb_minus4: u8,
    pub max_num_ref_frames: u8,
    pub num_ref_frames_in_pic_order_cnt_cycle: u8,
    pub offset_for_ref_frame: [i32; 255],
    pub offset_for_non_ref_pic: i32,
    pub offset_for_top_to_bottom_field: i32,
    pub pic_width_in_mbs_minus1: u16,
    pub pic_height_in_map_units_minus1: u16,
    pub flags: u32,
}

/// An H.264 picture parameter set.
#[derive(Clone, Copy, Debug, PartialEq, Eq)]
pub struct CtrlH264Pps {
    pub pic_parameter_set_id: u8,
    pub seq_parameter_set_id: u8,
    pub num_slice_groups_minus1: u8,
    pub num_ref_idx_l0_default_active_minus1: u8,
    pub num_ref_idx_l1_default_active_minus1: u8,
    pub weighted_bipred_idc: u8,
    pub pic_init_qp_minus26: i8,
    pub pic_init_qs_minus26: i8,
    pub chroma_qp_index_offset: i8,
    pub second_chroma_qp_index_offset: i8,
    pub flags: u16,
}

/// H.264 scaling matrices.
#[derive(Clone, Copy, Debug, PartialEq, Eq)]
pub struct CtrlH264ScalingMatrix {
    pub scaling_list_4x4: [[u8; 16]; 6],
    pub scaling_list_8x8: [[u8; 64]; 6],
}

/// Per-list H.264 prediction weight factors.
#[derive(Clone, Copy, Debug, PartialEq, Eq)]
pub struct H264WeightFactors {
    pub luma_weight: [i16; 32],
    pub luma_offset: [i16; 32],
    pub chroma_weight: [[i16; 2]; 32],
    pub chroma_offset: [[i16; 2]; 32],
}

/// H.264 prediction weight table.
#[derive(Clone, Copy, Debug, PartialEq, Eq)]
pub struct CtrlH264PredWeights {
    pub luma_log2_weight_denom: u16,
    pub chroma_log2_weight_denom: u16,
    pub weight_factors: [H264WeightFactors; 2],
}

/// One entry of an H.264 reference picture list.
#[derive(Clone, Copy, Debug, PartialEq, Eq)]
pub struct H264Reference {
    pub fields: u8,
    pub index: u8,
}

/// Parameters of one H.264 slice.
#[derive(Clone, Copy, Debug, PartialEq, Eq)]
pub struct CtrlH264SliceParams {
    pub header_bit_size: u32,
    pub first_mb_in_slice: u32,
    pub slice_type: u8,
    pub colour_plane_id: u8,
    pub redundant_pic_cnt: u8,
    pub cabac_init_idc: u8,
    pub slice_qp_delta: i8,
    pub slice_qs_delta: i8,
    pub disable_deblocking_filter_idc: u8,
    pub slice_alpha_c0_offset_div2: i8,
    pub slice_beta_offset_div2: i8,
    pub num_ref_idx_l0_active_minus1: u8,
    pub num_ref_idx_l1_active_minus1: u8,
    pub reserved: u8,
    pub ref_pic_list0: [H264Reference; 32],
    pub ref_pic_list1: [H264Reference; 32],
    pub flags: u32,
}

/// One entry of the H.264 decoded picture buffer.
#[derive(Clone, Copy, Debug, PartialEq, Eq)]
pub struct H264DpbEntry {
    pub reference_ts: u64,
    pub pic_num: u32,
    pub frame_num: u16,
    pub fields: u8,
    pub reserved: [u8; 5],
    pub top_field_order_cnt: i32,
    pub bottom_field_order_cnt: i32,
    pub flags: u32,
}

/// Parameters of an H.264 stateless-decode request.
#[derive(Clone, Copy, Debug, PartialEq, Eq)]
pub struct CtrlH264DecodeParams {
    pub dpb: [H264DpbEntry; 16],
    pub nal_ref_idc: u16,
    pub frame_num: u16,
    pub top_field_order_cnt: i32,
    pub bottom_field_order_cnt: i32,
    pub idr_pic_id: u16,
    pub pic_order_cnt_lsb: u16,
    pub delta_pic_order_cnt_bottom: i32,
    pub delta_pic_order_cnt0: i32,
    pub delta_pic_order_cnt1: i32,
    pub dec_ref_pic_marking_bit_size: u32,
    pub pic_order_cnt_bit_size: u32,
    pub slice_group_change_cycle: u32,
    pub reserved: u32,
    pub flags: u32,
}

/// VP8 segment-based adjustments.
#[derive(Clone, Copy, Debug, PartialEq, Eq)]
pub struct Vp8Segment {
    pub quant_update: [i8; 4],
    pub lf_update: [i8; 4],
    pub segment_probs: [u8; 3],
    pub padding: u8,
    pub flags: u32,
}

/// VP8 loop-filter parameters.
#[derive(Clone, Copy, Debug, PartialEq, Eq)]
pub struct Vp8LoopFilter {
    pub ref_frm_delta: [i8; 4],
    pub mb_mode_delta: [i8; 4],
    pub sharpness_level: u8,
    pub level: u8,
    pub padding: u16,
    pub flags: u32,
}

/// VP8 quantization indices.
#[derive(Clone, Copy, Debug, PartialEq, Eq)]
pub struct Vp8Quantization {
    pub y_ac_qi: u8,
    pub y_dc_delta: i8,
    pub y2_dc_delta: i8,
    pub y2_ac_delta: i8,
    pub uv_dc_delta: i8,
    pub uv_ac_delta: i8,
    pub padding: u16,
}

/// VP8 entropy-coder probabilities.
#[derive(Clone, Copy, Debug, PartialEq, Eq)]
pub struct Vp8Entropy {
    pub coeff_probs: [[[[u8; 11]; 3]; 8]; 4],
    pub y_mode_probs: [u8; 4],
    pub uv_mode_probs: [u8; 3],
    pub mv_probs: [[u8; 19]; 2],
    pub padding: [u8; 3],
}

/// VP8 boolean-coder state.
#[derive(Clone, Copy, Debug, PartialEq, Eq)]
pub struct Vp8CoderState {
    pub range: u8,
    pub value: u8,
    pub bit_count: u8,
    pub padding: u8,
}

/// Parameters of a VP8 stateless-decode request.
#[derive(Clone, Copy, Debug, PartialEq, Eq)]
pub struct CtrlVp8Frame {
    pub segment: Vp8Segment,
    pub lf: Vp8LoopFilter,
    pub quant: Vp8Quantization,
    pub entropy: Vp8Entropy,
    pub coder_state: Vp8CoderState,
    pub width: u16,
    pub height: u16,
    pub horizontal_scale: u8,
    pub vertical_scale: u8,
    pub version: u8,
    pub prob_skip_false: u8,
    pub prob_intra: u8,
    pub prob_last: u8,
    pub prob_gf: u8,
    pub num_dct_parts: u8,
    pub first_part_size: u32,
    pub first_part_header_bits: u32,
    pub dct_part_sizes: [u32; 8],
    pub last_frame_ts: u64,
    pub golden_frame_ts: u64,
    pub alt_frame_ts: u64,
    pub flags: u64,
}

/// Payload of a raw extended-control descriptor.
///
/// The kernel interface represents this as an untagged union whose active
/// member is selected by the control's identifier; here it is a closed sum
/// type, and each pointer-kind variant owns its parameter struct's heap
/// allocation.
pub enum ControlPayload {
    Value(i32),
    Value64(i64),
    FwhtParams(Box<CtrlFwhtParams>),
    H264Sps(Box<CtrlH264Sps>),
    H264Pps(Box<CtrlH264Pps>),
    H264ScalingMatrix(Box<CtrlH264ScalingMatrix>),
    H264PredWeights(Box<CtrlH264PredWeights>),
    H264SliceParams(Box<CtrlH264SliceParams>),
    H264DecodeParams(Box<CtrlH264DecodeParams>),
    Vp8Frame(Box<CtrlVp8Frame>),
}

/// The `size` field that the kernel interface demands for a payload: 0 for
/// inline scalars, the parameter struct's byte size for pointer kinds.
pub open spec fn payload_size_of(p: ControlPayload) -> u32 {
    match p {
        ControlPayload::Value(_) => 0,
        ControlPayload::Value64(_) => 0,
        ControlPayload::FwhtParams(_) => CTRL_FWHT_PARAMS_SIZE,
        ControlPayload::H264Sps(_) => CTRL_H264_SPS_SIZE,
        ControlPayload::H264Pps(_) => CTRL_H264_PPS_SIZE,
        ControlPayload::H264ScalingMatrix(_) => CTRL_H264_SCALING_MATRIX_SIZE,
        ControlPayload::H264PredWeights(_) => CTRL_H264_PRED_WEIGHTS_SIZE,
        ControlPayload::H264SliceParams(_) => CTRL_H264_SLICE_PARAMS_SIZE,
        ControlPayload::H264DecodeParams(_) => CTRL_H264_DECODE_PARAMS_SIZE,
        ControlPayload::Vp8Frame(_) => CTRL_VP8_FRAME_SIZE,
    }
}

/// The raw extended-control descriptor handed to the ioctl interface.
pub struct V4l2ExtControl {
    pub id: u32,
    pub size: u32,
    pub payload: ControlPayload,
}

impl V4l2ExtControl {
    /// The size invariant the kernel interface demands of every descriptor.
    pub open spec fn wf(self) -> bool {
        self.size == payload_size_of(self.payload)
    }
}

} // verus!
