use v4l2r::controls::codec::FwhtFlags;
use v4l2r::controls::codec::FwhtParams;
use v4l2r::controls::codec::H264Pps;
use v4l2r::controls::codec::H264ScalingMatrix;
use v4l2r::controls::codec::MpegVideoDecPts;
use v4l2r::controls::codec::FWHT_FL_ALL;
use v4l2r::controls::codec::FWHT_FL_IS_INTERLACED;
use v4l2r::controls::codec::FWHT_FL_I_FRAME;
use v4l2r::controls::codec::V4L2_CID_MPEG_VIDEO_DEC_PTS;
use v4l2r::controls::codec::V4L2_CID_STATELESS_FWHT_PARAMS;
use v4l2r::controls::codec::V4L2_CID_STATELESS_H264_PPS;
use v4l2r::controls::codec::V4L2_CID_STATELESS_H264_SCALING_MATRIX;
use v4l2r::controls::user::Brightness;
use v4l2r::controls::user::Contrast;
use v4l2r::controls::user::V4L2_CID_BRIGHTNESS;
use v4l2r::controls::user::V4L2_CID_CONTRAST;
use v4l2r::controls::AsV4l2ControlSlice;
use v4l2r::controls::ControlPair;
use v4l2r::controls::SafeExtControl;
use v4l2r::raw::ControlPayload;
use v4l2r::raw::CtrlFwhtParams;
use v4l2r::raw::CtrlH264Pps;
use v4l2r::raw::CtrlH264ScalingMatrix;
use v4l2r::raw::V4l2ExtControl;
use v4l2r::raw::CTRL_FWHT_PARAMS_SIZE;
use v4l2r::raw::CTRL_H264_PPS_SIZE;
use v4l2r::raw::CTRL_H264_SCALING_MATRIX_SIZE;

fn fwht_params_with_flags(flags: u32) -> CtrlFwhtParams {
    CtrlFwhtParams {
        backward_ref_ts: 0,
        version: 3,
        width: 640,
        height: 480,
        flags,
        colorspace: 0,
        xfer_func: 0,
        ycbcr_enc: 0,
        quantization: 0,
    }
}

#[test]
fn scalar32_value_after_construction() {
    let control = SafeExtControl::<Brightness>::from_value(128);
    assert_eq!(control.value(), 128);
    assert_eq!(control.control_at(0).size, 0);
}

#[test]
fn scalar64_value_after_construction() {
    let control = SafeExtControl::<MpegVideoDecPts>::from_value64(1 << 40);
    assert_eq!(control.value64(), 1 << 40);
    assert_eq!(control.control_at(0).size, 0);
}

#[test]
fn struct_get_after_construction() {
    let params = fwht_params_with_flags(FWHT_FL_I_FRAME);
    let control = SafeExtControl::<FwhtParams>::from_fwht_params(params);
    assert_eq!(*control.fwht_params(), params);
    assert_eq!(control.control_at(0).size, CTRL_FWHT_PARAMS_SIZE);
}

#[test]
fn id_stable_across_mutations() {
    let mut control = SafeExtControl::<Brightness>::from_value(1);
    assert_eq!(control.id(), V4L2_CID_BRIGHTNESS);
    control.set_value(2);
    control.set_value(-7);
    assert_eq!(control.id(), V4L2_CID_BRIGHTNESS);

    let mut control64 = SafeExtControl::<MpegVideoDecPts>::from_value64(5);
    assert_eq!(control64.id(), V4L2_CID_MPEG_VIDEO_DEC_PTS);
    control64.set_value64(-5);
    assert_eq!(control64.id(), V4L2_CID_MPEG_VIDEO_DEC_PTS);

    let control_ptr = SafeExtControl::<FwhtParams>::from_fwht_params(fwht_params_with_flags(0));
    assert_eq!(control_ptr.id(), V4L2_CID_STATELESS_FWHT_PARAMS);
}

#[test]
fn mutable_accessor_read_after_write() {
    let mut control = SafeExtControl::<FwhtParams>::from_fwht_params(fwht_params_with_flags(0));
    control.fwht_params_mut().width = 1920;
    control.fwht_params_mut().height = 1080;
    assert_eq!(control.fwht_params().width, 1920);
    assert_eq!(control.fwht_params().height, 1080);
}

#[test]
fn group_sequence_ids_in_order() {
    let brightness = SafeExtControl::<Brightness>::from_value(10);
    let contrast = SafeExtControl::<Contrast>::from_value(20);
    let mut pair = ControlPair { first: brightness, second: contrast };
    assert_eq!(pair.slice_len(), 2);
    assert_eq!(pair.control_at(0).id, V4L2_CID_BRIGHTNESS);
    assert_eq!(pair.control_at(1).id, V4L2_CID_CONTRAST);
    assert_eq!(pair.control_at_mut(1).id, V4L2_CID_CONTRAST);
}

#[test]
fn single_wrapper_is_one_element_group() {
    let control = SafeExtControl::<Contrast>::from_value(33);
    assert_eq!(control.slice_len(), 1);
    assert_eq!(control.control_at(0).id, V4L2_CID_CONTRAST);
}

#[test]
fn vec_of_descriptors_is_a_group() {
    let mut group: Vec<V4l2ExtControl> = vec![
        V4l2ExtControl { id: V4L2_CID_BRIGHTNESS, size: 0, payload: ControlPayload::Value(1) },
        V4l2ExtControl { id: V4L2_CID_CONTRAST, size: 0, payload: ControlPayload::Value(2) },
    ];
    assert_eq!(group.slice_len(), 2);
    assert_eq!(group.control_at(0).id, V4L2_CID_BRIGHTNESS);
    assert_eq!(group.control_at(1).id, V4L2_CID_CONTRAST);
    group.control_at_mut(0).payload = ControlPayload::Value(9);
    match group.control_at(0).payload {
        ControlPayload::Value(v) => assert_eq!(v, 9),
        _ => panic!("payload kind changed"),
    }
}

#[test]
fn h264_pps_control() {
    let pps = CtrlH264Pps {
        pic_parameter_set_id: 1,
        seq_parameter_set_id: 0,
        num_slice_groups_minus1: 0,
        num_ref_idx_l0_default_active_minus1: 2,
        num_ref_idx_l1_default_active_minus1: 0,
        weighted_bipred_idc: 0,
        pic_init_qp_minus26: -3,
        pic_init_qs_minus26: 0,
        chroma_qp_index_offset: 1,
        second_chroma_qp_index_offset: 1,
        flags: 0x0004,
    };
    let mut control = SafeExtControl::<H264Pps>::from_h264_pps(pps);
    assert_eq!(control.id(), V4L2_CID_STATELESS_H264_PPS);
    assert_eq!(control.control_at(0).size, CTRL_H264_PPS_SIZE);
    assert_eq!(*control.h264_pps(), pps);
    control.h264_pps_mut().pic_init_qp_minus26 = 5;
    assert_eq!(control.h264_pps().pic_init_qp_minus26, 5);
}

#[test]
fn h264_scaling_matrix_control() {
    let matrix = CtrlH264ScalingMatrix {
        scaling_list_4x4: [[16u8; 16]; 6],
        scaling_list_8x8: [[16u8; 64]; 6],
    };
    let mut control = SafeExtControl::<H264ScalingMatrix>::from_h264_scaling_matrix(matrix);
    assert_eq!(control.id(), V4L2_CID_STATELESS_H264_SCALING_MATRIX);
    assert_eq!(control.control_at(0).size, CTRL_H264_SCALING_MATRIX_SIZE);
    control.h264_scaling_matrix_mut().scaling_list_4x4[0][0] = 7;
    assert_eq!(control.h264_scaling_matrix().scaling_list_4x4[0][0], 7);
    assert_eq!(control.h264_scaling_matrix().scaling_list_8x8[5][63], 16);
}

#[test]
fn vec_of_wrappers_is_a_group() {
    let mut group: Vec<SafeExtControl<Brightness>> = vec![
        SafeExtControl::<Brightness>::from_value(1),
        SafeExtControl::<Brightness>::from_value(2),
        SafeExtControl::<Brightness>::from_value(3),
    ];
    assert_eq!(group.slice_len(), 3);
    for i in 0..3 {
        assert_eq!(group.control_at(i).id, V4L2_CID_BRIGHTNESS);
    }
    group.control_at_mut(2).payload = ControlPayload::Value(30);
    assert_eq!(group[2].value(), 30);
}

#[test]
fn destroying_scalar_wrapper() {
    // A scalar wrapper owns no heap payload; dropping it only releases its
    // own storage.
    let control = SafeExtControl::<Brightness>::from_value(3);
    assert_eq!(control.value(), 3);
    drop(control);
}

#[test]
fn destroying_pointer_wrapper() {
    // A pointer-kind wrapper owns exactly one heap allocation, released
    // exactly once when the wrapper is dropped.
    let control = SafeExtControl::<FwhtParams>::from_fwht_params(fwht_params_with_flags(0));
    assert_eq!(control.fwht_params().version, 3);
    drop(control);
}

#[test]
fn scalar_end_to_end() {
    let mut control = SafeExtControl::<Brightness>::from_value(128);
    assert_eq!(control.control_at(0).size, 0);
    assert_eq!(control.value(), 128);
    control.set_value(64);
    assert_eq!(control.value(), 64);
    assert_eq!(control.control_at(0).size, 0);
}

#[test]
fn pointer_end_to_end() {
    let mut control = SafeExtControl::<FwhtParams>::from_fwht_params(fwht_params_with_flags(0b101));
    assert_eq!(control.control_at(0).size, CTRL_FWHT_PARAMS_SIZE);
    assert_eq!(control.fwht_params().flags, 0b101);
    control.fwht_params_mut().flags = 0b010;
    assert_eq!(control.fwht_params().flags, 0b010);
    assert_eq!(control.control_at(0).size, CTRL_FWHT_PARAMS_SIZE);
}

#[test]
fn mixed_group_end_to_end() {
    let brightness = SafeExtControl::<Brightness>::from_value(100);
    let fwht = SafeExtControl::<FwhtParams>::from_fwht_params(fwht_params_with_flags(0));
    let pair = ControlPair { first: brightness, second: fwht };
    assert_eq!(pair.slice_len(), 2);
    assert_eq!(pair.control_at(0).id, V4L2_CID_BRIGHTNESS);
    assert_eq!(pair.control_at(1).id, V4L2_CID_STATELESS_FWHT_PARAMS);
    assert_eq!(pair.control_at(1).size, CTRL_FWHT_PARAMS_SIZE);
}

#[test]
fn group_write_is_seen_by_the_wrapper() {
    // What an ioctl call does: write a descriptor through the group view,
    // then read the result back through the owning wrapper.
    let mut control = SafeExtControl::<Brightness>::from_value(128);
    control.control_at_mut(0).payload = ControlPayload::Value(42);
    assert_eq!(control.value(), 42);
    assert_eq!(control.id(), V4L2_CID_BRIGHTNESS);
}

#[test]
fn fwht_flags_from_bits_accepts_defined_bits() {
    let flags = FwhtFlags::from_bits(FWHT_FL_IS_INTERLACED | FWHT_FL_I_FRAME).unwrap();
    assert_eq!(flags.bits(), 0x101);
    assert!(flags.contains(FwhtFlags::from_bits(FWHT_FL_I_FRAME).unwrap()));
    assert!(!flags.contains(FwhtFlags::from_bits(FWHT_FL_ALL).unwrap()));
}

#[test]
fn fwht_flags_from_bits_rejects_undefined_bits() {
    assert_eq!(FwhtFlags::from_bits(0x0020_0000), None);
    assert_eq!(FwhtFlags::from_bits(u32::MAX), None);
}

#[test]
fn flags_accessor_reads_the_parameter_struct() {
    let control = SafeExtControl::<FwhtParams>::from_fwht_params(
        fwht_params_with_flags(FWHT_FL_IS_INTERLACED),
    );
    assert_eq!(control.flags(), Some(FwhtFlags::from_bits(FWHT_FL_IS_INTERLACED).unwrap()));

    let bad = SafeExtControl::<FwhtParams>::from_fwht_params(fwht_params_with_flags(u32::MAX));
    assert_eq!(bad.flags(), None);
}
