//! Tests of the splitter's windowing behaviour and of the SPS mapper's
//! formulas on exact field values.

use video_inspect::ChromaSubsamplingModes;
use video_inspect::H264InspectionState;
use video_inspect::CropOffsets;
use video_inspect::NalSplitter;
use video_inspect::SpsFields;
use video_inspect::encoding_details_from_h264_sps;

const SAMPLE: &[u8] = &[
    0x00, 0x00, 0x00, 0x01, 0x67, 0x64, 0x00, 0x0A, 0xAC, 0x72, 0x84, 0x44, 0x26, 0x84, 0x00,
    0x00, 0x03, 0x00, 0x04, 0x00, 0x00, 0x03, 0x00, 0xCA, 0x3C, 0x48, 0x96, 0x11, 0x80, 0x00,
    0x00, 0x00, 0x01, 0x65, 0x88, 0x84, 0x21, 0x43, 0x02, 0x4C, 0x82, 0x54, 0x2B, 0x8F, 0x2C,
    0x8C, 0x54, 0x4A, 0x92, 0x00, 0x00, 0x01, 0x61, 0x88, 0x84, 0x21,
];

fn split_windows(data: &[u8], window: usize) -> (Vec<Vec<u8>>, Option<Vec<u8>>) {
    let mut splitter = NalSplitter::new();
    let mut rest = data;
    while !rest.is_empty() {
        let take = window.min(rest.len());
        splitter.push(&rest[..take]);
        rest = &rest[take..];
    }
    splitter.into_parts()
}

#[test]
fn window_size_does_not_change_the_units() {
    let whole = split_windows(SAMPLE, SAMPLE.len());
    for window in [1, 2, 3, 5, 7, 16, 256] {
        assert_eq!(split_windows(SAMPLE, window), whole);
    }
}

#[test]
fn splitter_finds_unit_boundaries() {
    let (units, trailing) = split_windows(SAMPLE, SAMPLE.len());
    assert_eq!(units.len(), 2);
    assert_eq!(units[0][0], 0x67);
    assert_eq!(units[0].len(), 25);
    assert_eq!(units[1][0], 0x65);
    // Within a unit, `00 00 03` is payload, not framing; the zeros of the
    // next start code are not part of the unit.
    assert_eq!(&units[0][10..15], &[0x00, 0x00, 0x03, 0x00, 0x04]);
    assert_eq!(trailing, Some(vec![0x61, 0x88, 0x84, 0x21]));
}

#[test]
fn splitter_strips_trailing_zeros_of_a_terminated_unit() {
    // A run of three or more zeros ends the unit; the zeros are framing, not
    // payload, and further zeros are absorbed into the next start code.
    let data = &[
        0x00, 0x00, 0x00, 0x01, 0x41, 0x9A, 0x00, 0x00, 0x00, 0x00, 0x01, 0x42,
    ];
    let (units, trailing) = split_windows(data, data.len());
    assert_eq!(units, vec![vec![0x41, 0x9A]]);
    assert_eq!(trailing, Some(vec![0x42]));
}

#[test]
fn splitter_recovers_after_corrupt_gap_bytes() {
    // A stray byte after a zero run is discarded; scanning resumes at the
    // next start code.
    let data = &[
        0x00, 0x00, 0x00, 0x01, 0x41, 0x9A, 0x00, 0x00, 0x00, 0x2A, 0x00, 0x00, 0x01, 0x42, 0x9B,
        0x00, 0x00, 0x01,
    ];
    let (units, trailing) = split_windows(data, data.len());
    assert_eq!(units, vec![vec![0x41, 0x9A], vec![0x42, 0x9B]]);
    assert_eq!(trailing, Some(vec![]));
}

#[test]
fn splitter_keeps_zero_pairs_inside_a_unit() {
    // `00 00` followed by a byte other than a start-code byte stays in the
    // unit, as an emulation-prevention sequence does.
    let data = &[
        0x00, 0x00, 0x01, 0x41, 0x00, 0x00, 0x03, 0x9A, 0x00, 0x01, 0x9B, 0x00, 0x00, 0x01,
    ];
    let (units, _) = split_windows(data, data.len());
    assert_eq!(units, vec![vec![0x41, 0x00, 0x00, 0x03, 0x9A, 0x00, 0x01, 0x9B]]);
}

#[test]
fn accumulator_decodes_only_complete_sps_units() {
    let sps_unit: Vec<u8> = vec![
        0x67, 0x64, 0x00, 0x0A, 0xAC, 0x72, 0x84, 0x44, 0x26, 0x84, 0x00, 0x00, 0x03, 0x00, 0x04,
        0x00, 0x00, 0x03, 0x00, 0xCA, 0x3C, 0x48, 0x96, 0x11, 0x80,
    ];

    let mut state = H264InspectionState::new();
    state.nal(&sps_unit, false);
    assert!(state.coding_details_from_sps.is_none());

    state.nal(&sps_unit, true);
    let details = state
        .coding_details_from_sps
        .as_ref()
        .expect("no SPS outcome stored")
        .as_ref()
        .expect("SPS decode failed");
    assert_eq!(details.coded_dimensions, [64, 64]);
    assert!(!state.idr_frame_found);
    assert_eq!(state.num_frames_detected, 0);

    state.nal(&vec![0x65, 0x88], true);
    assert!(state.idr_frame_found);
    assert_eq!(state.num_frames_detected, 1);

    // An empty unit and an inert unit change nothing.
    state.nal(&vec![], true);
    state.nal(&vec![0x68, 0xE8], true);
    assert_eq!(state.num_frames_detected, 1);
}

fn base_fields() -> SpsFields {
    SpsFields {
        profile_idc: 0x64,
        constraint_flags: 0x00,
        level_idc: 0x0A,
        chroma_format_idc: 1,
        bit_depth_luma_minus8: 0,
        pic_width_in_mbs_minus1: 3,
        pic_height_in_map_units_minus1: 3,
        frame_mbs_only: true,
        crop: None,
    }
}

#[test]
fn mapper_uncropped_dimensions() {
    let details = encoding_details_from_h264_sps(&base_fields()).expect("mapping failed");
    assert_eq!(details.codec_string, "avc1.64000A");
    assert_eq!(details.coded_dimensions, [64, 64]);
    assert_eq!(details.bit_depth, Some(8));
    assert_eq!(details.chroma_subsampling, Some(ChromaSubsamplingModes::Yuv420));
}

#[test]
fn mapper_codec_string_hex_digits() {
    let fields = SpsFields {
        profile_idc: 0xBA,
        constraint_flags: 0xC0,
        level_idc: 0x1F,
        ..base_fields()
    };
    let details = encoding_details_from_h264_sps(&fields).expect("mapping failed");
    assert_eq!(details.codec_string, "avc1.BAC01F");
}

#[test]
fn mapper_cropping_units_per_chroma_mode() {
    let crop = Some(CropOffsets { left: 1, right: 1, top: 1, bottom: 1 });

    // 4:2:0, frame-only: two pixels per cropping unit on both axes.
    let fields = SpsFields { crop, ..base_fields() };
    let details = encoding_details_from_h264_sps(&fields).expect("mapping failed");
    assert_eq!(details.coded_dimensions, [60, 60]);

    // 4:2:2: two horizontally, one vertically.
    let fields = SpsFields { chroma_format_idc: 2, crop, ..base_fields() };
    let details = encoding_details_from_h264_sps(&fields).expect("mapping failed");
    assert_eq!(details.coded_dimensions, [60, 62]);
    assert_eq!(details.chroma_subsampling, Some(ChromaSubsamplingModes::Yuv422));

    // 4:4:4: one pixel per cropping unit on both axes.
    let fields = SpsFields { chroma_format_idc: 3, crop, ..base_fields() };
    let details = encoding_details_from_h264_sps(&fields).expect("mapping failed");
    assert_eq!(details.coded_dimensions, [62, 62]);
    assert_eq!(details.chroma_subsampling, Some(ChromaSubsamplingModes::Yuv444));

    // Monochrome: like 4:4:4 for cropping units.
    let fields = SpsFields { chroma_format_idc: 0, crop, ..base_fields() };
    let details = encoding_details_from_h264_sps(&fields).expect("mapping failed");
    assert_eq!(details.coded_dimensions, [62, 62]);
    assert_eq!(details.chroma_subsampling, Some(ChromaSubsamplingModes::Monochrome));

    // Field coding doubles the vertical grid and the vertical cropping unit.
    let fields = SpsFields { frame_mbs_only: false, crop, ..base_fields() };
    let details = encoding_details_from_h264_sps(&fields).expect("mapping failed");
    assert_eq!(details.coded_dimensions, [60, 120]);
}

#[test]
fn mapper_bit_depth_offset() {
    let fields = SpsFields { bit_depth_luma_minus8: 2, ..base_fields() };
    let details = encoding_details_from_h264_sps(&fields).expect("mapping failed");
    assert_eq!(details.bit_depth, Some(10));
}

#[test]
fn mapper_rejects_reserved_chroma() {
    let fields = SpsFields { chroma_format_idc: 4, ..base_fields() };
    assert_eq!(
        encoding_details_from_h264_sps(&fields),
        Err("SPS has a reserved chroma_format_idc value".to_owned())
    );
}

#[test]
fn mapper_rejects_excessive_cropping() {
    let fields = SpsFields {
        crop: Some(CropOffsets { left: 16, right: 17, top: 0, bottom: 0 }),
        ..base_fields()
    };
    assert_eq!(
        encoding_details_from_h264_sps(&fields),
        Err("SPS frame cropping exceeds the coded size".to_owned())
    );
}

#[test]
fn mapper_rejects_oversized_dimensions() {
    let fields = SpsFields { pic_width_in_mbs_minus1: 4100, ..base_fields() };
    assert_eq!(
        encoding_details_from_h264_sps(&fields),
        Err("SPS coded dimensions out of range".to_owned())
    );
}
