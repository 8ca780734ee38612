//! Sequence parameter set handling: decoding the SPS bit-fields and the pure
//! mapping from those fields to externally meaningful encoding details.
//!
//! The Exp-Golomb bit-field decode itself is done by the `h264_reader` crate
//! behind one trusted wrapper; everything computed from the decoded fields —
//! the codec identifier string, the cropped coded dimensions, bit depth and
//! chroma layout — is verified here against [`details_of_sps_fields`].

use vstd::prelude::*;
use vstd::string::StringExecFns;

use h264_reader::nal::Nal;
use h264_reader::nal::RefNal;

verus! {

/// Chroma subsampling layout of a stream, as advertised by its SPS.
#[derive(Clone, Copy, Debug, PartialEq, Eq, Structural)]
pub enum ChromaSubsamplingModes {
    Monochrome,
    Yuv420,
    Yuv422,
    Yuv444,
}

/// The decoded SPS bit-fields this crate reads, as plain values.
///
/// `chroma_format_idc` is kept raw so that a reserved value can be rejected
/// by the mapper rather than silently defaulted. `crop` is present exactly
/// when the SPS carried a frame-cropping rectangle.
#[derive(Clone, Copy, Debug, PartialEq, Eq)]
pub struct SpsFields {
    pub profile_idc: u8,
    pub constraint_flags: u8,
    pub level_idc: u8,
    pub chroma_format_idc: u32,
    pub bit_depth_luma_minus8: u8,
    pub pic_width_in_mbs_minus1: u32,
    pub pic_height_in_map_units_minus1: u32,
    pub frame_mbs_only: bool,
    pub crop: Option<CropOffsets>,
}

/// Frame-cropping offsets of an SPS, in cropping units per edge.
#[derive(Clone, Copy, Debug, PartialEq, Eq)]
pub struct CropOffsets {
    pub left: u32,
    pub right: u32,
    pub top: u32,
    pub bottom: u32,
}

/// Encoding parameters recovered from a decoded SPS.
#[derive(Clone, Debug, PartialEq, Eq)]
pub struct VideoEncodingDetails {
    /// Codec identifier: `avc1.` followed by profile, constraint-flags and
    /// level bytes as six upper-case hex digits.
    pub codec_string: String,
    /// Coded width and height in pixels, after frame cropping.
    pub coded_dimensions: [u16; 2],
    /// Luma bit depth.
    pub bit_depth: Option<u8>,
    /// Chroma subsampling layout.
    pub chroma_subsampling: Option<ChromaSubsamplingModes>,
}

/// Mathematical value of a [`VideoEncodingDetails`].
pub struct EncodingDetailsView {
    pub codec_string: Seq<char>,
    pub coded_width: u16,
    pub coded_height: u16,
    pub bit_depth: Option<u8>,
    pub chroma_subsampling: Option<ChromaSubsamplingModes>,
}

impl View for VideoEncodingDetails {
    type V = EncodingDetailsView;

    open spec fn view(&self) -> EncodingDetailsView {
        EncodingDetailsView {
            codec_string: self.codec_string@,
            coded_width: self.coded_dimensions@[0],
            coded_height: self.coded_dimensions@[1],
            bit_depth: self.bit_depth,
            chroma_subsampling: self.chroma_subsampling,
        }
    }
}

/// What `h264_reader` decodes a complete SPS NAL unit (header byte included,
/// emulation-prevention bytes still in place) into: either the bit-fields of
/// [`SpsFields`], or a failure message. The result is a function of the unit
/// bytes alone.
pub uninterp spec fn sps_decode(nal: Seq<u8>) -> Result<SpsFields, Seq<char>>;

/// A decode result with its error message taken as a character sequence.
pub open spec fn decode_result_view(r: Result<SpsFields, String>) -> Result<SpsFields, Seq<char>> {
    match r {
        Ok(f) => Ok(f),
        Err(m) => Err(m@),
    }
}

/// A mapping result with its error message taken as a character sequence.
pub open spec fn details_result_view(r: Result<VideoEncodingDetails, String>) -> Result<
    EncodingDetailsView,
    Seq<char>,
> {
    match r {
        Ok(d) => Ok(d@),
        Err(m) => Err(m@),
    }
}

/// Relies on `h264_reader::nal::sps::SeqParameterSet::from_bits`, reading the
/// unit through `RefNal::new` and `Nal::rbsp_bits`: decodes the SPS
/// bit-fields from the unit bytes, rejecting leftover undecoded bits, and
/// depends on those bytes alone. The failure message wraps the decoder's
/// error the way this crate reports it.
#[verifier::external_body]
pub(crate) fn decode_sps_fields(nal: &Vec<u8>) -> (r: Result<SpsFields, String>)
    requires
        nal@.len() >= 1,
    ensures
        decode_result_view(r) == sps_decode(nal@),
{
    let bits = RefNal::new(nal.as_slice(), &[], true).rbsp_bits();
    match h264_reader::nal::sps::SeqParameterSet::from_bits(bits) {
        Ok(s) => Ok(SpsFields {
            profile_idc: s.profile_idc.into(), constraint_flags: s.constraint_flags.into(),
            level_idc: s.level_idc, chroma_format_idc: s.chroma_info.chroma_format.to_u32(),
            bit_depth_luma_minus8: s.chroma_info.bit_depth_luma_minus8,
            pic_width_in_mbs_minus1: s.pic_width_in_mbs_minus1,
            pic_height_in_map_units_minus1: s.pic_height_in_map_units_minus1,
            frame_mbs_only: matches!(s.frame_mbs_flags, h264_reader::nal::sps::FrameMbsFlags::Frames),
            crop: s.frame_cropping.map(|c| CropOffsets { left: c.left_offset, right: c.right_offset, top: c.top_offset, bottom: c.bottom_offset }),
        }),
        Err(e) => Err(format!("Failed reading SPS: {e:?}")),
    }
}

/// Hex digit for a value below 16, upper case.
pub open spec fn hex_digit(n: u8) -> char
    recommends
        n < 16,
{
    if n == 0 {
        '0'
    } else if n == 1 {
        '1'
    } else if n == 2 {
        '2'
    } else if n == 3 {
        '3'
    } else if n == 4 {
        '4'
    } else if n == 5 {
        '5'
    } else if n == 6 {
        '6'
    } else if n == 7 {
        '7'
    } else if n == 8 {
        '8'
    } else if n == 9 {
        '9'
    } else if n == 10 {
        'A'
    } else if n == 11 {
        'B'
    } else if n == 12 {
        'C'
    } else if n == 13 {
        'D'
    } else if n == 14 {
        'E'
    } else {
        'F'
    }
}

/// Two upper-case hex digits of a byte.
pub open spec fn hex_byte(n: u8) -> Seq<char> {
    seq![hex_digit(n / 16), hex_digit(n % 16)]
}

/// The codec identifier string for an H.264 stream: `avc1.` followed by the
/// profile indicator, the constraint-flags byte and the level indicator, six
/// upper-case hex digits in that order.
pub open spec fn avc1_codec_string(profile: u8, constraint: u8, level: u8) -> Seq<char> {
    ("avc1.")@ + hex_byte(profile) + hex_byte(constraint) + hex_byte(level)
}

/// Chroma layout for a non-reserved chroma format indicator.
pub open spec fn chroma_mode_of_idc(idc: u32) -> ChromaSubsamplingModes
    recommends
        idc <= 3,
{
    if idc == 0 {
        ChromaSubsamplingModes::Monochrome
    } else if idc == 1 {
        ChromaSubsamplingModes::Yuv420
    } else if idc == 2 {
        ChromaSubsamplingModes::Yuv422
    } else {
        ChromaSubsamplingModes::Yuv444
    }
}

/// What the SPS mapper returns on each decoded field combination.
///
/// The coded size starts from the macroblock grid — sixteen pixels per
/// macroblock, map units doubled when field coding is allowed — and each
/// cropping offset is scaled by the cropping unit of its edge: two pixels
/// horizontally for 4:2:0 and 4:2:2, one otherwise; two vertically for 4:2:0,
/// one otherwise, times the frame/field factor. A reserved chroma indicator,
/// an out-of-range bit depth, cropping
/// that exceeds the coded size, or dimensions beyond sixteen bits are
/// failures, never silent defaults.
pub open spec fn details_of_sps_fields(f: SpsFields) -> Result<EncodingDetailsView, Seq<char>> {
    if f.chroma_format_idc > 3 {
        Err(("SPS has a reserved chroma_format_idc value")@)
    } else if f.bit_depth_luma_minus8 > 6 {
        Err(("SPS bit depth out of range")@)
    } else {
        let step_x: int = if f.chroma_format_idc == 1 || f.chroma_format_idc == 2 {
            2
        } else {
            1
        };
        let mul: int = if f.frame_mbs_only {
            1
        } else {
            2
        };
        let step_y: int = if f.chroma_format_idc == 1 {
            mul * 2
        } else {
            mul
        };
        let full_w: int = (f.pic_width_in_mbs_minus1 + 1) * 16;
        let full_h: int = (f.pic_height_in_map_units_minus1 + 1) * 16 * mul;
        let crop_w: int = match f.crop {
            Some(c) => (c.left + c.right) * step_x,
            None => 0,
        };
        let crop_h: int = match f.crop {
            Some(c) => (c.top + c.bottom) * step_y,
            None => 0,
        };
        if full_w < crop_w || full_h < crop_h {
            Err(("SPS frame cropping exceeds the coded size")@)
        } else if full_w - crop_w > u16::MAX || full_h - crop_h > u16::MAX {
            Err(("SPS coded dimensions out of range")@)
        } else {
            Ok(
                EncodingDetailsView {
                    codec_string: avc1_codec_string(
                        f.profile_idc,
                        f.constraint_flags,
                        f.level_idc,
                    ),
                    coded_width: (full_w - crop_w) as u16,
                    coded_height: (full_h - crop_h) as u16,
                    bit_depth: Some((f.bit_depth_luma_minus8 + 8) as u8),
                    chroma_subsampling: Some(chroma_mode_of_idc(f.chroma_format_idc)),
                },
            )
        }
    }
}

/// The stored outcome for one complete SPS unit: decode its bit-fields, then
/// map them to encoding details; the first failure wins.
pub open spec fn sps_outcome(unit: Seq<u8>) -> Result<EncodingDetailsView, Seq<char>> {
    match sps_decode(unit) {
        Ok(f) => details_of_sps_fields(f),
        Err(m) => Err(m),
    }
}

/// One-character string for a value below 16, upper-case hex.
fn hex_digit_str(n: u8) -> (s: &'static str)
    requires
        n < 16,
    ensures
        s@ == seq![hex_digit(n)],
{
    proof {
        reveal_strlit("0");
        reveal_strlit("1");
        reveal_strlit("2");
        reveal_strlit("3");
        reveal_strlit("4");
        reveal_strlit("5");
        reveal_strlit("6");
        reveal_strlit("7");
        reveal_strlit("8");
        reveal_strlit("9");
        reveal_strlit("A");
        reveal_strlit("B");
        reveal_strlit("C");
        reveal_strlit("D");
        reveal_strlit("E");
        reveal_strlit("F");
    }
    match n {
        0 => "0",
        1 => "1",
        2 => "2",
        3 => "3",
        4 => "4",
        5 => "5",
        6 => "6",
        7 => "7",
        8 => "8",
        9 => "9",
        10 => "A",
        11 => "B",
        12 => "C",
        13 => "D",
        14 => "E",
        _ => "F",
    }
}

/// Append the two hex digits of a byte.
fn push_hex_byte(s: &mut String, n: u8)
    ensures
        final(s)@ == old(s)@ + hex_byte(n),
{
    s.append(hex_digit_str(n / 16));
    s.append(hex_digit_str(n % 16));
    proof {
        assert(old(s)@ + seq![hex_digit(n / 16)] + seq![hex_digit(n % 16)] =~= old(s)@ + hex_byte(
            n,
        ));
    }
}

/// Build the codec identifier string.
fn avc1_codec_string_exec(profile: u8, constraint: u8, level: u8) -> (s: String)
    ensures
        s@ == avc1_codec_string(profile, constraint, level),
{
    let mut s = String::from_str("avc1.");
    push_hex_byte(&mut s, profile);
    push_hex_byte(&mut s, constraint);
    push_hex_byte(&mut s, level);
    proof {
        assert(("avc1.")@ + hex_byte(profile) + hex_byte(constraint) + hex_byte(level)
            =~= avc1_codec_string(profile, constraint, level));
    }
    s
}

/// Translate decoded SPS bit-fields into encoding details, or a descriptive
/// failure for every field combination the mapper cannot interpret; exactly
/// [`details_of_sps_fields`].
pub fn encoding_details_from_h264_sps(f: &SpsFields) -> (r: Result<VideoEncodingDetails, String>)
    ensures
        details_result_view(r) == details_of_sps_fields(*f),
{
    if f.chroma_format_idc > 3 {
        return Err(String::from_str("SPS has a reserved chroma_format_idc value"));
    }
    if f.bit_depth_luma_minus8 > 6 {
        return Err(String::from_str("SPS bit depth out of range"));
    }
    let step_x: u64 = if f.chroma_format_idc == 1 || f.chroma_format_idc == 2 {
        2
    } else {
        1
    };
    let mul: u64 = if f.frame_mbs_only {
        1
    } else {
        2
    };
    let step_y: u64 = if f.chroma_format_idc == 1 {
        mul * 2
    } else {
        mul
    };
    let full_w: u64 = (f.pic_width_in_mbs_minus1 as u64 + 1) * 16;
    let full_h: u64 = (f.pic_height_in_map_units_minus1 as u64 + 1) * 16 * mul;
    let (crop_w, crop_h): (u64, u64) = match f.crop {
        Some(c) => (
            (c.left as u64 + c.right as u64) * step_x,
            (c.top as u64 + c.bottom as u64) * step_y,
        ),
        None => (0, 0),
    };
    if full_w < crop_w || full_h < crop_h {
        return Err(String::from_str("SPS frame cropping exceeds the coded size"));
    }
    let w: u64 = full_w - crop_w;
    let h: u64 = full_h - crop_h;
    if w > 65535 || h > 65535 {
        return Err(String::from_str("SPS coded dimensions out of range"));
    }
    let details = VideoEncodingDetails {
        codec_string: avc1_codec_string_exec(f.profile_idc, f.constraint_flags, f.level_idc),
        coded_dimensions: [w as u16, h as u16],
        bit_depth: Some(f.bit_depth_luma_minus8 + 8),
        chroma_subsampling: Some(
            if f.chroma_format_idc == 0 {
                ChromaSubsamplingModes::Monochrome
            } else if f.chroma_format_idc == 1 {
                ChromaSubsamplingModes::Yuv420
            } else if f.chroma_format_idc == 2 {
                ChromaSubsamplingModes::Yuv422
            } else {
                ChromaSubsamplingModes::Yuv444
            },
        ),
    };
    Ok(details)
}

} // verus!
