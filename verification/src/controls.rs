//! Safe definitions around V4L2 extended controls.
//!
//! Extended controls are represented using the [`SafeExtControl`] type, which
//! wraps one raw descriptor. It takes a generic parameter defining the actual
//! control to use, which limits its API to the methods safe to use for that
//! control's payload kind.
//!
//! A single [`SafeExtControl`] can be handed to an ioctl caller on its own, as
//! a one-descriptor group. Setting more than one control at the same time
//! requires a type implementing [`AsV4l2ControlSlice`], which presents a
//! contiguous sequence of raw descriptors: a [`ControlPair`] of two wrappers,
//! or a pre-existing `Vec` of raw descriptors.
//!
//! Sub-modules contain the marker types for each control, organized by
//! control class. Due to the large number of controls they are not all
//! defined, so please add those you need if they are missing.

pub mod codec;
pub mod user;

use vstd::prelude::*;
use core::marker::PhantomData;
use vstd::pervasive::unreached;

use crate::controls::codec::FwhtFlags;
use crate::controls::codec::spec_fwht_flags_from_bits;
use crate::raw::ControlPayload;
use crate::raw::CtrlFwhtParams;
use crate::raw::CtrlH264DecodeParams;
use crate::raw::CtrlH264Pps;
use crate::raw::CtrlH264PredWeights;
use crate::raw::CtrlH264ScalingMatrix;
use crate::raw::CtrlH264SliceParams;
use crate::raw::CtrlH264Sps;
use crate::raw::CtrlVp8Frame;
use crate::raw::V4l2ExtControl;
use crate::raw::payload_size_of;
use crate::raw::CTRL_FWHT_PARAMS_SIZE;
use crate::raw::CTRL_H264_DECODE_PARAMS_SIZE;
use crate::raw::CTRL_H264_PPS_SIZE;
use crate::raw::CTRL_H264_PRED_WEIGHTS_SIZE;
use crate::raw::CTRL_H264_SCALING_MATRIX_SIZE;
use crate::raw::CTRL_H264_SLICE_PARAMS_SIZE;
use crate::raw::CTRL_H264_SPS_SIZE;
use crate::raw::CTRL_VP8_FRAME_SIZE;

verus! {

/// A payload type that a control identity may be bound to.
///
/// Each implementation records which [`ControlPayload`] variant carries a
/// value of this type, and the `size` field that the raw descriptor must
/// carry for it: 0 for inline scalars, the parameter struct's byte size for
/// pointer kinds.
pub trait ControlPayloadKind {
    /// True when `p` is the payload variant that carries `Self`.
    spec fn carries(p: ControlPayload) -> bool;

    /// The value of the descriptor's `size` field for this payload kind.
    spec fn payload_size() -> u32;

    /// The declared `size` agrees with the size the kernel interface demands
    /// of every payload this kind carries.
    proof fn size_matches(p: ControlPayload)
        requires
            Self::carries(p),
        ensures
            Self::payload_size() == payload_size_of(p),
    ;
}

impl ControlPayloadKind for i32 {
    open spec fn carries(p: ControlPayload) -> bool {
        p is Value
    }

    open spec fn payload_size() -> u32 {
        0
    }

    proof fn size_matches(p: ControlPayload) {
    }
}

impl ControlPayloadKind for i64 {
    open spec fn carries(p: ControlPayload) -> bool {
        p is Value64
    }

    open spec fn payload_size() -> u32 {
        0
    }

    proof fn size_matches(p: ControlPayload) {
    }
}

impl ControlPayloadKind for CtrlFwhtParams {
    open spec fn carries(p: ControlPayload) -> bool {
        p is FwhtParams
    }

    open spec fn payload_size() -> u32 {
        CTRL_FWHT_PARAMS_SIZE
    }

    proof fn size_matches(p: ControlPayload) {
    }
}

impl ControlPayloadKind for CtrlH264Sps {
    open spec fn carries(p: ControlPayload) -> bool {
        p is H264Sps
    }

    open spec fn payload_size() -> u32 {
        CTRL_H264_SPS_SIZE
    }

    proof fn size_matches(p: ControlPayload) {
    }
}

impl ControlPayloadKind for CtrlH264Pps {
    open spec fn carries(p: ControlPayload) -> bool {
        p is H264Pps
    }

    open spec fn payload_size() -> u32 {
        CTRL_H264_PPS_SIZE
    }

    proof fn size_matches(p: ControlPayload) {
    }
}

impl ControlPayloadKind for CtrlH264ScalingMatrix {
    open spec fn carries(p: ControlPayload) -> bool {
        p is H264ScalingMatrix
    }

    open spec fn payload_size() -> u32 {
        CTRL_H264_SCALING_MATRIX_SIZE
    }

    proof fn size_matches(p: ControlPayload) {
    }
}

impl ControlPayloadKind for CtrlH264PredWeights {
    open spec fn carries(p: ControlPayload) -> bool {
        p is H264PredWeights
    }

    open spec fn payload_size() -> u32 {
        CTRL_H264_PRED_WEIGHTS_SIZE
    }

    proof fn size_matches(p: ControlPayload) {
    }
}

impl ControlPayloadKind for CtrlH264SliceParams {
    open spec fn carries(p: ControlPayload) -> bool {
        p is H264SliceParams
    }

    open spec fn payload_size() -> u32 {
        CTRL_H264_SLICE_PARAMS_SIZE
    }

    proof fn size_matches(p: ControlPayload) {
    }
}

impl ControlPayloadKind for CtrlH264DecodeParams {
    open spec fn carries(p: ControlPayload) -> bool {
        p is H264DecodeParams
    }

    open spec fn payload_size() -> u32 {
        CTRL_H264_DECODE_PARAMS_SIZE
    }

    proof fn size_matches(p: ControlPayload) {
    }
}

impl ControlPayloadKind for CtrlVp8Frame {
    open spec fn carries(p: ControlPayload) -> bool {
        p is Vp8Frame
    }

    open spec fn payload_size() -> u32 {
        CTRL_VP8_FRAME_SIZE
    }

    proof fn size_matches(p: ControlPayload) {
    }
}

/// Trait implemented by marker types representing a given control, in order
/// to define its properties and set of available methods.
pub trait ExtControlTrait {
    /// Type of the value of this control.
    type PAYLOAD: ControlPayloadKind;

    /// The control's numeric identifier, one of the `V4L2_CID_*` values.
    spec fn spec_id() -> u32;

    /// Returns the control's numeric identifier.
    fn id() -> (r: u32)
        ensures
            r == Self::spec_id(),
    ;
}

/// Trait implemented by types that present one or more raw descriptors as a
/// contiguous sequence, to be read and written element by element over one
/// batched ioctl call.
///
/// The group never owns the descriptors' payload allocations: it is a
/// borrowed view, and after the call the originating wrappers still own, and
/// must be used to read, the updated values. Writing a descriptor through
/// [`AsV4l2ControlSlice::control_at_mut`] is the ioctl caller's privilege;
/// a wrapper's typed accessors become available again once its descriptor is
/// shown to satisfy [`SafeExtControl::wf`].
pub trait AsV4l2ControlSlice {
    /// The raw descriptors of the group, in order.
    spec fn slice_view(&self) -> Seq<V4l2ExtControl>;

    /// Returns the number of descriptors in the group.
    fn slice_len(&self) -> (n: usize)
        ensures
            n == self.slice_view().len(),
    ;

    /// Returns the `i`-th raw descriptor of the group.
    fn control_at(&self, i: usize) -> (c: &V4l2ExtControl)
        requires
            i < self.slice_view().len(),
        ensures
            *c == self.slice_view()[i as int],
    ;

    /// Returns mutable access to the `i`-th raw descriptor of the group;
    /// the other descriptors are untouched.
    fn control_at_mut(&mut self, i: usize) -> (c: &mut V4l2ExtControl)
        requires
            i < old(self).slice_view().len(),
        ensures
            *c == old(self).slice_view()[i as int],
            final(self).slice_view() =~= old(self).slice_view().update(
                i as int,
                *final(c),
            ),
    ;
}

/// A pre-existing sequence of raw descriptors presents itself as-is.
impl AsV4l2ControlSlice for Vec<V4l2ExtControl> {
    open spec fn slice_view(&self) -> Seq<V4l2ExtControl> {
        self@
    }

    fn slice_len(&self) -> usize {
        self.len()
    }

    fn control_at(&self, i: usize) -> &V4l2ExtControl {
        &self[i]
    }

    fn control_at_mut(&mut self, i: usize) -> &mut V4l2ExtControl {
        &mut self[i]
    }
}

/// Memory-safe extended control.
///
/// This type owns one raw descriptor, with the following invariants, stated
/// by [`SafeExtControl::wf`] and kept by every operation:
///
/// * `id` always equals the identifier bound to `T`,
/// * `size` is always correct (0 for scalar kinds, the parameter struct's
///   byte size for pointer kinds),
/// * the payload is always the variant bound to `T`, so for pointer kinds it
///   always owns an allocation of the bound parameter struct.
///
/// In addition, the value of the control can only be accessed through
/// methods that return the correct type. The owned allocation of a
/// pointer-kind control is released exactly once, when the wrapper is
/// dropped.
#[verifier::reject_recursive_types(T)]
pub struct SafeExtControl<T: ExtControlTrait>(V4l2ExtControl, PhantomData<T>);

impl<T: ExtControlTrait> View for SafeExtControl<T> {
    type V = V4l2ExtControl;

    closed spec fn view(&self) -> V4l2ExtControl {
        self.0
    }
}

impl<T: ExtControlTrait> SafeExtControl<T> {
    /// The descriptor invariants bound to the control identity `T`.
    pub open spec fn wf(&self) -> bool {
        &&& self@.id == T::spec_id()
        &&& self@.size == <T::PAYLOAD as ControlPayloadKind>::payload_size()
        &&& <T::PAYLOAD as ControlPayloadKind>::carries(self@.payload)
    }

    /// Returns the control's numeric identifier.
    pub fn id(&self) -> (r: u32)
        requires
            self.wf(),
        ensures
            r == T::spec_id(),
    {
        self.0.id
    }
}

impl<T: ExtControlTrait<PAYLOAD = i32>> SafeExtControl<T> {
    /// The control's 32-bit value, as seen in contracts.
    pub open spec fn spec_value(&self) -> i32 {
        self@.payload->Value_0
    }

    /// Create a new control from its value.
    pub fn from_value(value: i32) -> (r: Self)
        ensures
            r.wf(),
            r.spec_value() == value,
    {
        SafeExtControl(
            V4l2ExtControl { id: T::id(), size: 0, payload: ControlPayload::Value(value) },
            PhantomData,
        )
    }

    /// Returns the value of the control.
    pub fn value(&self) -> (r: i32)
        requires
            self.wf(),
        ensures
            r == self.spec_value(),
    {
        match &self.0.payload {
            ControlPayload::Value(v) => *v,
            _ => unreached(),
        }
    }

    /// Updates the value of the control.
    pub fn set_value(&mut self, value: i32)
        requires
            old(self).wf(),
        ensures
            final(self).wf(),
            final(self).spec_value() == value,
            final(self)@.id == old(self)@.id,
            final(self)@.size == old(self)@.size,
    {
        self.0.payload = ControlPayload::Value(value);
    }
}

impl<T: ExtControlTrait<PAYLOAD = i64>> SafeExtControl<T> {
    /// The control's 64-bit value, as seen in contracts.
    pub open spec fn spec_value64(&self) -> i64 {
        self@.payload->Value64_0
    }

    /// Create a new control from its value.
    pub fn from_value64(value64: i64) -> (r: Self)
        ensures
            r.wf(),
            r.spec_value64() == value64,
    {
        SafeExtControl(
            V4l2ExtControl { id: T::id(), size: 0, payload: ControlPayload::Value64(value64) },
            PhantomData,
        )
    }

    /// Returns the value of the control.
    pub fn value64(&self) -> (r: i64)
        requires
            self.wf(),
        ensures
            r == self.spec_value64(),
    {
        match &self.0.payload {
            ControlPayload::Value64(v) => *v,
            _ => unreached(),
        }
    }

    /// Updates the value of the control.
    pub fn set_value64(&mut self, value: i64)
        requires
            old(self).wf(),
        ensures
            final(self).wf(),
            final(self).spec_value64() == value,
            final(self)@.id == old(self)@.id,
            final(self)@.size == old(self)@.size,
    {
        self.0.payload = ControlPayload::Value64(value);
    }
}

impl<T: ExtControlTrait<PAYLOAD = CtrlFwhtParams>> SafeExtControl<T> {
    /// The control's owned parameter struct, as seen in contracts.
    pub open spec fn spec_fwht_params(&self) -> CtrlFwhtParams {
        *self@.payload->FwhtParams_0
    }

    /// Create a new control owning `params`, moved onto the heap.
    pub fn from_fwht_params(params: CtrlFwhtParams) -> (r: Self)
        ensures
            r.wf(),
            r.spec_fwht_params() == params,
    {
        SafeExtControl(
            V4l2ExtControl {
                id: T::id(),
                size: CTRL_FWHT_PARAMS_SIZE,
                payload: ControlPayload::FwhtParams(Box::new(params)),
            },
            PhantomData,
        )
    }

    /// Returns a view of the control's parameter struct.
    pub fn fwht_params(&self) -> (r: &CtrlFwhtParams)
        requires
            self.wf(),
        ensures
            *r == self.spec_fwht_params(),
    {
        match &self.0.payload {
            ControlPayload::FwhtParams(b) => &**b,
            _ => unreached(),
        }
    }

    /// Returns a mutable view of the control's parameter struct. Mutation
    /// through it changes neither `id` nor `size`, and does not reallocate.
    pub fn fwht_params_mut(&mut self) -> (r: &mut CtrlFwhtParams)
        requires
            old(self).wf(),
        ensures
            *r == old(self).spec_fwht_params(),
            final(self).wf(),
            final(self).spec_fwht_params() == *final(r),
            final(self)@.id == old(self)@.id,
            final(self)@.size == old(self)@.size,
    {
        match &mut self.0.payload {
            ControlPayload::FwhtParams(b) => &mut **b,
            _ => unreached(),
        }
    }

    /// Returns the FWHT flags of the control's parameter struct, or `None`
    /// when a bit outside the defined set is present.
    pub fn flags(&self) -> (r: Option<FwhtFlags>)
        requires
            self.wf(),
        ensures
            r == spec_fwht_flags_from_bits(self.spec_fwht_params().flags),
    {
        FwhtFlags::from_bits(self.fwht_params().flags)
    }
}

impl<T: ExtControlTrait<PAYLOAD = CtrlH264Sps>> SafeExtControl<T> {
    /// The control's owned parameter struct, as seen in contracts.
    pub open spec fn spec_h264_sps(&self) -> CtrlH264Sps {
        *self@.payload->H264Sps_0
    }

    /// Create a new control owning `params`, moved onto the heap.
    pub fn from_h264_sps(params: CtrlH264Sps) -> (r: Self)
        ensures
            r.wf(),
            r.spec_h264_sps() == params,
    {
        SafeExtControl(
            V4l2ExtControl {
                id: T::id(),
                size: CTRL_H264_SPS_SIZE,
                payload: ControlPayload::H264Sps(Box::new(params)),
            },
            PhantomData,
        )
    }

    /// Returns a view of the control's parameter struct.
    pub fn h264_sps(&self) -> (r: &CtrlH264Sps)
        requires
            self.wf(),
        ensures
            *r == self.spec_h264_sps(),
    {
        match &self.0.payload {
            ControlPayload::H264Sps(b) => &**b,
            _ => unreached(),
        }
    }

    /// Returns a mutable view of the control's parameter struct. Mutation
    /// through it changes neither `id` nor `size`, and does not reallocate.
    pub fn h264_sps_mut(&mut self) -> (r: &mut CtrlH264Sps)
        requires
            old(self).wf(),
        ensures
            *r == old(self).spec_h264_sps(),
            final(self).wf(),
            final(self).spec_h264_sps() == *final(r),
            final(self)@.id == old(self)@.id,
            final(self)@.size == old(self)@.size,
    {
        match &mut self.0.payload {
            ControlPayload::H264Sps(b) => &mut **b,
            _ => unreached(),
        }
    }
}

impl<T: ExtControlTrait<PAYLOAD = CtrlH264Pps>> SafeExtControl<T> {
    /// The control's owned parameter struct, as seen in contracts.
    pub open spec fn spec_h264_pps(&self) -> CtrlH264Pps {
        *self@.payload->H264Pps_0
    }

    /// Create a new control owning `params`, moved onto the heap.
    pub fn from_h264_pps(params: CtrlH264Pps) -> (r: Self)
        ensures
            r.wf(),
            r.spec_h264_pps() == params,
    {
        SafeExtControl(
            V4l2ExtControl {
                id: T::id(),
                size: CTRL_H264_PPS_SIZE,
                payload: ControlPayload::H264Pps(Box::new(params)),
            },
            PhantomData,
        )
    }

    /// Returns a view of the control's parameter struct.
    pub fn h264_pps(&self) -> (r: &CtrlH264Pps)
        requires
            self.wf(),
        ensures
            *r == self.spec_h264_pps(),
    {
        match &self.0.payload {
            ControlPayload::H264Pps(b) => &**b,
            _ => unreached(),
        }
    }

    /// Returns a mutable view of the control's parameter struct. Mutation
    /// through it changes neither `id` nor `size`, and does not reallocate.
    pub fn h264_pps_mut(&mut self) -> (r: &mut CtrlH264Pps)
        requires
            old(self).wf(),
        ensures
            *r == old(self).spec_h264_pps(),
            final(self).wf(),
            final(self).spec_h264_pps() == *final(r),
            final(self)@.id == old(self)@.id,
            final(self)@.size == old(self)@.size,
    {
        match &mut self.0.payload {
            ControlPayload::H264Pps(b) => &mut **b,
            _ => unreached(),
        }
    }
}

impl<T: ExtControlTrait<PAYLOAD = CtrlH264ScalingMatrix>> SafeExtControl<T> {
    /// The control's owned parameter struct, as seen in contracts.
    pub open spec fn spec_h264_scaling_matrix(&self) -> CtrlH264ScalingMatrix {
        *self@.payload->H264ScalingMatrix_0
    }

    /// Create a new control owning `params`, moved onto the heap.
    pub fn from_h264_scaling_matrix(params: CtrlH264ScalingMatrix) -> (r: Self)
        ensures
            r.wf(),
            r.spec_h264_scaling_matrix() == params,
    {
        SafeExtControl(
            V4l2ExtControl {
                id: T::id(),
                size: CTRL_H264_SCALING_MATRIX_SIZE,
                payload: ControlPayload::H264ScalingMatrix(Box::new(params)),
            },
            PhantomData,
        )
    }

    /// Returns a view of the control's parameter struct.
    pub fn h264_scaling_matrix(&self) -> (r: &CtrlH264ScalingMatrix)
        requires
            self.wf(),
        ensures
            *r == self.spec_h264_scaling_matrix(),
    {
        match &self.0.payload {
            ControlPayload::H264ScalingMatrix(b) => &**b,
            _ => unreached(),
        }
    }

    /// Returns a mutable view of the control's parameter struct. Mutation
    /// through it changes neither `id` nor `size`, and does not reallocate.
    pub fn h264_scaling_matrix_mut(&mut self) -> (r: &mut CtrlH264ScalingMatrix)
        requires
            old(self).wf(),
        ensures
            *r == old(self).spec_h264_scaling_matrix(),
            final(self).wf(),
            final(self).spec_h264_scaling_matrix() == *final(r),
            final(self)@.id == old(self)@.id,
            final(self)@.size == old(self)@.size,
    {
        match &mut self.0.payload {
            ControlPayload::H264ScalingMatrix(b) => &mut **b,
            _ => unreached(),
        }
    }
}

impl<T: ExtControlTrait<PAYLOAD = CtrlH264PredWeights>> SafeExtControl<T> {
    /// The control's owned parameter struct, as seen in contracts.
    pub open spec fn spec_h264_pred_weights(&self) -> CtrlH264PredWeights {
        *self@.payload->H264PredWeights_0
    }

    /// Create a new control owning `params`, moved onto the heap.
    pub fn from_h264_pred_weights(params: CtrlH264PredWeights) -> (r: Self)
        ensures
            r.wf(),
            r.spec_h264_pred_weights() == params,
    {
        SafeExtControl(
            V4l2ExtControl {
                id: T::id(),
                size: CTRL_H264_PRED_WEIGHTS_SIZE,
                payload: ControlPayload::H264PredWeights(Box::new(params)),
            },
            PhantomData,
        )
    }

    /// Returns a view of the control's parameter struct.
    pub fn h264_pred_weights(&self) -> (r: &CtrlH264PredWeights)
        requires
            self.wf(),
        ensures
            *r == self.spec_h264_pred_weights(),
    {
        match &self.0.payload {
            ControlPayload::H264PredWeights(b) => &**b,
            _ => unreached(),
        }
    }

    /// Returns a mutable view of the control's parameter struct. Mutation
    /// through it changes neither `id` nor `size`, and does not reallocate.
    pub fn h264_pred_weights_mut(&mut self) -> (r: &mut CtrlH264PredWeights)
        requires
            old(self).wf(),
        ensures
            *r == old(self).spec_h264_pred_weights(),
            final(self).wf(),
            final(self).spec_h264_pred_weights() == *final(r),
            final(self)@.id == old(self)@.id,
            final(self)@.size == old(self)@.size,
    {
        match &mut self.0.payload {
            ControlPayload::H264PredWeights(b) => &mut **b,
            _ => unreached(),
        }
    }
}

impl<T: ExtControlTrait<PAYLOAD = CtrlH264SliceParams>> SafeExtControl<T> {
    /// The control's owned parameter struct, as seen in contracts.
    pub open spec fn spec_h264_slice_params(&self) -> CtrlH264SliceParams {
        *self@.payload->H264SliceParams_0
    }

    /// Create a new control owning `params`, moved onto the heap.
    pub fn from_h264_slice_params(params: CtrlH264SliceParams) -> (r: Self)
        ensures
            r.wf(),
            r.spec_h264_slice_params() == params,
    {
        SafeExtControl(
            V4l2ExtControl {
                id: T::id(),
                size: CTRL_H264_SLICE_PARAMS_SIZE,
                payload: ControlPayload::H264SliceParams(Box::new(params)),
            },
            PhantomData,
        )
    }

    /// Returns a view of the control's parameter struct.
    pub fn h264_slice_params(&self) -> (r: &CtrlH264SliceParams)
        requires
            self.wf(),
        ensures
            *r == self.spec_h264_slice_params(),
    {
        match &self.0.payload {
            ControlPayload::H264SliceParams(b) => &**b,
            _ => unreached(),
        }
    }

    /// Returns a mutable view of the control's parameter struct. Mutation
    /// through it changes neither `id` nor `size`, and does not reallocate.
    pub fn h264_slice_params_mut(&mut self) -> (r: &mut CtrlH264SliceParams)
        requires
            old(self).wf(),
        ensures
            *r == old(self).spec_h264_slice_params(),
            final(self).wf(),
            final(self).spec_h264_slice_params() == *final(r),
            final(self)@.id == old(self)@.id,
            final(self)@.size == old(self)@.size,
    {
        match &mut self.0.payload {
            ControlPayload::H264SliceParams(b) => &mut **b,
            _ => unreached(),
        }
    }
}

impl<T: ExtControlTrait<PAYLOAD = CtrlH264DecodeParams>> SafeExtControl<T> {
    /// The control's owned parameter struct, as seen in contracts.
    pub open spec fn spec_h264_decode_params(&self) -> CtrlH264DecodeParams {
        *self@.payload->H264DecodeParams_0
    }

    /// Create a new control owning `params`, moved onto the heap.
    pub fn from_h264_decode_params(params: CtrlH264DecodeParams) -> (r: Self)
        ensures
            r.wf(),
            r.spec_h264_decode_params() == params,
    {
        SafeExtControl(
            V4l2ExtControl {
                id: T::id(),
                size: CTRL_H264_DECODE_PARAMS_SIZE,
                payload: ControlPayload::H264DecodeParams(Box::new(params)),
            },
            PhantomData,
        )
    }

    /// Returns a view of the control's parameter struct.
    pub fn h264_decode_params(&self) -> (r: &CtrlH264DecodeParams)
        requires
            self.wf(),
        ensures
            *r == self.spec_h264_decode_params(),
    {
        match &self.0.payload {
            ControlPayload::H264DecodeParams(b) => &**b,
            _ => unreached(),
        }
    }

    /// Returns a mutable view of the control's parameter struct. Mutation
    /// through it changes neither `id` nor `size`, and does not reallocate.
    pub fn h264_decode_params_mut(&mut self) -> (r: &mut CtrlH264DecodeParams)
        requires
            old(self).wf(),
        ensures
            *r == old(self).spec_h264_decode_params(),
            final(self).wf(),
            final(self).spec_h264_decode_params() == *final(r),
            final(self)@.id == old(self)@.id,
            final(self)@.size == old(self)@.size,
    {
        match &mut self.0.payload {
            ControlPayload::H264DecodeParams(b) => &mut **b,
            _ => unreached(),
        }
    }
}

impl<T: ExtControlTrait<PAYLOAD = CtrlVp8Frame>> SafeExtControl<T> {
    /// The control's owned parameter struct, as seen in contracts.
    pub open spec fn spec_vp8_frame(&self) -> CtrlVp8Frame {
        *self@.payload->Vp8Frame_0
    }

    /// Create a new control owning `params`, moved onto the heap.
    pub fn from_vp8_frame(params: CtrlVp8Frame) -> (r: Self)
        ensures
            r.wf(),
            r.spec_vp8_frame() == params,
    {
        SafeExtControl(
            V4l2ExtControl {
                id: T::id(),
                size: CTRL_VP8_FRAME_SIZE,
                payload: ControlPayload::Vp8Frame(Box::new(params)),
            },
            PhantomData,
        )
    }

    /// Returns a view of the control's parameter struct.
    pub fn vp8_frame(&self) -> (r: &CtrlVp8Frame)
        requires
            self.wf(),
        ensures
            *r == self.spec_vp8_frame(),
    {
        match &self.0.payload {
            ControlPayload::Vp8Frame(b) => &**b,
            _ => unreached(),
        }
    }

    /// Returns a mutable view of the control's parameter struct. Mutation
    /// through it changes neither `id` nor `size`, and does not reallocate.
    pub fn vp8_frame_mut(&mut self) -> (r: &mut CtrlVp8Frame)
        requires
            old(self).wf(),
        ensures
            *r == old(self).spec_vp8_frame(),
            final(self).wf(),
            final(self).spec_vp8_frame() == *final(r),
            final(self)@.id == old(self)@.id,
            final(self)@.size == old(self)@.size,
    {
        match &mut self.0.payload {
            ControlPayload::Vp8Frame(b) => &mut **b,
            _ => unreached(),
        }
    }
}

/// A single wrapper presents itself as a one-descriptor group.
impl<T: ExtControlTrait> AsV4l2ControlSlice for SafeExtControl<T> {
    open spec fn slice_view(&self) -> Seq<V4l2ExtControl> {
        seq![self@]
    }

    fn slice_len(&self) -> usize {
        1
    }

    fn control_at(&self, i: usize) -> &V4l2ExtControl {
        &self.0
    }

    fn control_at_mut(&mut self, i: usize) -> &mut V4l2ExtControl {
        &mut self.0
    }
}

/// Two wrappers, laid out one after the other, presented as a two-descriptor
/// group. Ownership of the payload allocations stays with the wrappers.
#[verifier::reject_recursive_types(A)]
#[verifier::reject_recursive_types(B)]
pub struct ControlPair<A: ExtControlTrait, B: ExtControlTrait> {
    pub first: SafeExtControl<A>,
    pub second: SafeExtControl<B>,
}

impl<A: ExtControlTrait, B: ExtControlTrait> ControlPair<A, B> {
    /// Both wrappers of the pair satisfy their descriptor invariants.
    pub open spec fn wf(&self) -> bool {
        self.first.wf() && self.second.wf()
    }
}

impl<A: ExtControlTrait, B: ExtControlTrait> AsV4l2ControlSlice for ControlPair<A, B> {
    open spec fn slice_view(&self) -> Seq<V4l2ExtControl> {
        seq![self.first@, self.second@]
    }

    fn slice_len(&self) -> usize {
        2
    }

    fn control_at(&self, i: usize) -> &V4l2ExtControl {
        if i == 0 {
            &self.first.0
        } else {
            &self.second.0
        }
    }

    fn control_at_mut(&mut self, i: usize) -> &mut V4l2ExtControl {
        if i == 0 {
            &mut self.first.0
        } else {
            &mut self.second.0
        }
    }
}

/// A sequence of wrappers of one control, laid out one after the other,
/// presents itself as a group of the same length. Ownership of the payload
/// allocations stays with the wrappers.
impl<T: ExtControlTrait> AsV4l2ControlSlice for Vec<SafeExtControl<T>> {
    open spec fn slice_view(&self) -> Seq<V4l2ExtControl> {
        self@.map_values(|c: SafeExtControl<T>| c@)
    }

    fn slice_len(&self) -> usize {
        self.len()
    }

    fn control_at(&self, i: usize) -> &V4l2ExtControl {
        &self[i].0
    }

    fn control_at_mut(&mut self, i: usize) -> &mut V4l2ExtControl {
        &mut self[i].0
    }
}

/// Law: grouping any number of wrappers of one control yields a sequence of
/// the same length whose i-th element is the i-th wrapper's descriptor,
/// carrying the identifier bound to the control identity.
pub proof fn lemma_wrapper_vec_group<T: ExtControlTrait>(g: &Vec<SafeExtControl<T>>)
    requires
        forall|i: int| 0 <= i < g@.len() ==> (#[trigger] g@[i]).wf(),
    ensures
        g.slice_view().len() == g@.len(),
        forall|i: int| 0 <= i < g@.len() ==> #[trigger] g.slice_view()[i] == g@[i]@,
        forall|i: int| 0 <= i < g@.len() ==> (#[trigger] g.slice_view()[i]).id == T::spec_id(),
{
}

/// Law: a well-formed wrapper's descriptor always carries the identifier
/// statically bound to its control identity and the `size` of its payload
/// kind, and in particular meets the size invariant the kernel interface
/// demands of every descriptor.
pub proof fn lemma_wf_descriptor<T: ExtControlTrait>(c: &SafeExtControl<T>)
    requires
        c.wf(),
    ensures
        c@.id == T::spec_id(),
        c@.size == <T::PAYLOAD as ControlPayloadKind>::payload_size(),
        c@.wf(),
{
    <T::PAYLOAD as ControlPayloadKind>::size_matches(c@.payload);
}

/// Law: a single well-formed wrapper, presented as a group, yields exactly
/// one descriptor: its own, carrying its bound identifier.
pub proof fn lemma_single_group<T: ExtControlTrait>(c: &SafeExtControl<T>)
    requires
        c.wf(),
    ensures
        c.slice_view().len() == 1,
        c.slice_view()[0] == c@,
        c.slice_view()[0].id == T::spec_id(),
{
}

/// Law: a well-formed pair, presented as a group, yields exactly two
/// descriptors, the first wrapper's then the second's, each carrying its own
/// bound identifier.
pub proof fn lemma_pair_group<A: ExtControlTrait, B: ExtControlTrait>(g: &ControlPair<A, B>)
    requires
        g.wf(),
    ensures
        g.slice_view().len() == 2,
        g.slice_view()[0] == g.first@,
        g.slice_view()[1] == g.second@,
        g.slice_view()[0].id == A::spec_id(),
        g.slice_view()[1].id == B::spec_id(),
{
}

/// Law: reading a 32-bit scalar control immediately after constructing it
/// from `value` yields exactly `value`, and its descriptor's `size` is 0.
pub proof fn lemma_scalar_round_trip<T: ExtControlTrait<PAYLOAD = i32>>(
    value: i32,
    c: SafeExtControl<T>,
)
    requires
        call_ensures(SafeExtControl::<T>::from_value, (value,), c),
    ensures
        c@.size == 0,
        forall|r: i32| call_ensures(SafeExtControl::<T>::value, (&c,), r) ==> r == value,
{
}

/// Law: reading a 64-bit scalar control immediately after constructing it
/// from `value` yields exactly `value`, and its descriptor's `size` is 0.
pub proof fn lemma_scalar64_round_trip<T: ExtControlTrait<PAYLOAD = i64>>(
    value: i64,
    c: SafeExtControl<T>,
)
    requires
        call_ensures(SafeExtControl::<T>::from_value64, (value,), c),
    ensures
        c@.size == 0,
        forall|r: i64| call_ensures(SafeExtControl::<T>::value64, (&c,), r) ==> r == value,
{
}

/// Law: reading a pointer-kind control's parameter struct immediately after
/// constructing the control from `params` yields a struct equal to `params`,
/// and the descriptor's `size` is the struct type's byte size.
pub proof fn lemma_struct_round_trip<T: ExtControlTrait<PAYLOAD = CtrlFwhtParams>>(
    params: CtrlFwhtParams,
    c: SafeExtControl<T>,
)
    requires
        call_ensures(SafeExtControl::<T>::from_fwht_params, (params,), c),
    ensures
        c@.size == CTRL_FWHT_PARAMS_SIZE,
        forall|r: &CtrlFwhtParams|
            call_ensures(SafeExtControl::<T>::fwht_params, (&c,), r) ==> *r == params,
{
}

/// Law: a write made through the mutable parameter accessor is what the
/// immutable accessor reads back. The mutable accessor leaves the wrapper
/// holding exactly the struct its caller wrote; whenever a wrapper holds
/// `p`, every read of its parameter struct returns exactly `p`.
pub proof fn lemma_read_after_write<T: ExtControlTrait<PAYLOAD = CtrlFwhtParams>>(
    c: SafeExtControl<T>,
    p: CtrlFwhtParams,
)
    requires
        c.wf(),
        c.spec_fwht_params() == p,
    ensures
        forall|r: &CtrlFwhtParams|
            call_ensures(SafeExtControl::<T>::fwht_params, (&c,), r) ==> *r == p,
{
}

} // verus!
