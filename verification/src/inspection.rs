//! Chunk inspection: classify each NAL unit of a sample chunk, accumulate
//! what was seen, and assemble the verdict.
//!
//! A chunk is the start of a group of pictures exactly when it carries both a
//! successfully decoded sequence parameter set and at least one IDR slice; a
//! sequence parameter set that is present but cannot be interpreted is a hard
//! error for the whole inspection, never silently downgraded.

use vstd::prelude::*;
use vstd::slice::slice_subrange;

use crate::annexb::NalSplitter;
use crate::annexb::lemma_scan_bytes_append;
use crate::annexb::lemma_scan_bytes_cost;
use crate::annexb::scan_bytes;
use crate::annexb::scan_init;
use crate::sps::EncodingDetailsView;
use crate::sps::VideoEncodingDetails;
use crate::sps::decode_sps_fields;
use crate::sps::details_result_view;
use crate::sps::encoding_details_from_h264_sps;
use crate::sps::sps_outcome;

verus! {

/// Codec of a sample chunk, as reported by the demuxer.
#[derive(Clone, Copy, Debug, PartialEq, Eq, Structural)]
pub enum VideoCodec {
    H264,
    H265,
    AV1,
    VP8,
    VP9,
}

/// Declared so that the NAL-header failure of `h264_reader` can be carried in
/// [`VideoChunkInspectionError`], as callers of this crate expect; no field of
/// it is ever read here.
#[verifier::external_type_specification]
#[verifier::external_body]
pub struct ExNalHeaderError(h264_reader::nal::NalHeaderError);

/// Failure reason for [`inspect_video_chunk`].
#[derive(Debug)]
pub enum VideoChunkInspectionError {
    /// Inspection is not implemented for this codec.
    UnsupportedCodec(VideoCodec),
    /// A NAL header failed to parse. Defined as a possible failure, but the
    /// current per-unit policy skips such units silently instead of raising
    /// it.
    NalHeaderError(h264_reader::nal::NalHeaderError),
    /// A group of pictures was detected but its sequence parameter set could
    /// not be interpreted.
    FailedToExtractEncodingDetails(String),
}

/// Mathematical value of a [`VideoChunkInspectionError`]: the header-failure
/// payload carries no information of its own.
pub enum InspectionErrorView {
    UnsupportedCodec(VideoCodec),
    NalHeaderError,
    FailedToExtractEncodingDetails(Seq<char>),
}

impl View for VideoChunkInspectionError {
    type V = InspectionErrorView;

    open spec fn view(&self) -> InspectionErrorView {
        match self {
            VideoChunkInspectionError::UnsupportedCodec(c) => InspectionErrorView::UnsupportedCodec(
                *c,
            ),
            VideoChunkInspectionError::NalHeaderError(_) => InspectionErrorView::NalHeaderError,
            VideoChunkInspectionError::FailedToExtractEncodingDetails(m) => {
                InspectionErrorView::FailedToExtractEncodingDetails(m@)
            },
        }
    }
}

impl PartialEq for VideoChunkInspectionError {
    /// Two header-failure values always compare equal: the payload has only
    /// one variant.
    fn eq(&self, other: &Self) -> (r: bool) {
        match (self, other) {
            (
                VideoChunkInspectionError::UnsupportedCodec(a),
                VideoChunkInspectionError::UnsupportedCodec(b),
            ) => *a == *b,
            (
                VideoChunkInspectionError::NalHeaderError(_),
                VideoChunkInspectionError::NalHeaderError(_),
            ) => true,
            (
                VideoChunkInspectionError::FailedToExtractEncodingDetails(a),
                VideoChunkInspectionError::FailedToExtractEncodingDetails(b),
            ) => *a == *b,
            _ => false,
        }
    }
}

impl vstd::std_specs::cmp::PartialEqSpecImpl for VideoChunkInspectionError {
    open spec fn obeys_eq_spec() -> bool {
        true
    }

    open spec fn eq_spec(&self, other: &Self) -> bool {
        match (self, other) {
            (
                VideoChunkInspectionError::UnsupportedCodec(a),
                VideoChunkInspectionError::UnsupportedCodec(b),
            ) => a == b,
            (
                VideoChunkInspectionError::NalHeaderError(_),
                VideoChunkInspectionError::NalHeaderError(_),
            ) => true,
            (
                VideoChunkInspectionError::FailedToExtractEncodingDetails(a),
                VideoChunkInspectionError::FailedToExtractEncodingDetails(b),
            ) => a@ == b@,
            _ => false,
        }
    }
}

impl Eq for VideoChunkInspectionError {

}

/// Result of a successful GOP detection: whether the chunk starts a group of
/// pictures, and the encoding details extracted when it does.
#[derive(Debug, PartialEq, Eq)]
pub enum GopStartDetection {
    /// The chunk starts a group of pictures; the details come from its last
    /// sequence parameter set.
    StartOfGop(VideoEncodingDetails),
    /// The chunk does not start a group of pictures.
    NotStartOfGop,
}

impl Default for GopStartDetection {
    /// Absent any evidence, a chunk is taken not to start a group of
    /// pictures.
    fn default() -> (r: Self)
        ensures
            r is NotStartOfGop,
    {
        GopStartDetection::NotStartOfGop
    }
}

/// Mathematical value of a [`GopStartDetection`].
pub enum GopDetectionView {
    StartOfGop(EncodingDetailsView),
    NotStartOfGop,
}

impl View for GopStartDetection {
    type V = GopDetectionView;

    open spec fn view(&self) -> GopDetectionView {
        match self {
            GopStartDetection::StartOfGop(d) => GopDetectionView::StartOfGop(d@),
            GopStartDetection::NotStartOfGop => GopDetectionView::NotStartOfGop,
        }
    }
}

/// Result of a successful inspection of a video chunk.
#[derive(Debug, PartialEq, Eq)]
pub struct VideoChunkInspection {
    /// Whether this chunk is the start of a group of pictures.
    pub gop_detection: GopStartDetection,
    /// The number of slice frames found in this chunk, when detection ran.
    pub num_frames_detected: Option<usize>,
}

impl Default for VideoChunkInspection {
    /// No verdict and no frame count.
    fn default() -> (r: Self)
        ensures
            r.gop_detection is NotStartOfGop,
            r.num_frames_detected is None,
    {
        VideoChunkInspection {
            gop_detection: GopStartDetection::NotStartOfGop,
            num_frames_detected: None,
        }
    }
}

/// Mathematical value of a [`VideoChunkInspection`].
pub struct InspectionView {
    pub gop_detection: GopDetectionView,
    pub num_frames_detected: Option<nat>,
}

impl View for VideoChunkInspection {
    type V = InspectionView;

    open spec fn view(&self) -> InspectionView {
        InspectionView {
            gop_detection: self.gop_detection@,
            num_frames_detected: match self.num_frames_detected {
                Some(n) => Some(n as nat),
                None => None,
            },
        }
    }
}

/// Whether a unit has a parseable header: at least one byte, with the
/// forbidden bit clear.
pub open spec fn header_valid(u: Seq<u8>) -> bool {
    u.len() >= 1 && u[0] & 0x80 == 0
}

/// The type tag of a unit, from the low five bits of its header byte.
pub open spec fn nal_unit_type(u: Seq<u8>) -> u8
    recommends
        u.len() >= 1,
{
    u[0] & 0x1f
}

/// A sequence parameter set unit.
pub open spec fn is_sps_unit(u: Seq<u8>) -> bool {
    header_valid(u) && nal_unit_type(u) == 7
}

/// An IDR slice unit.
pub open spec fn is_idr_unit(u: Seq<u8>) -> bool {
    header_valid(u) && nal_unit_type(u) == 5
}

/// A slice unit that counts as one frame: IDR or non-IDR.
pub open spec fn is_frame_unit(u: Seq<u8>) -> bool {
    header_valid(u) && (nal_unit_type(u) == 1 || nal_unit_type(u) == 5)
}

/// Mathematical state of the accumulator: the retained outcome of the last
/// complete sequence parameter set, whether an IDR slice was seen, and the
/// frame count.
pub struct AccModel {
    pub sps: Option<Result<EncodingDetailsView, Seq<char>>>,
    pub idr: bool,
    pub frames: nat,
}

/// Accumulator state before any unit has been seen.
pub open spec fn acc_init() -> AccModel {
    AccModel { sps: None, idr: false, frames: 0 }
}

/// One accumulator step on a unit.
///
/// A complete sequence parameter set stores its outcome, unconditionally
/// replacing any earlier one; an incomplete one is never decoded. An IDR
/// slice raises the flag and counts a frame, a non-IDR slice counts a frame,
/// and every other unit — a unit of another type, an empty unit, or one whose
/// header fails to parse — changes nothing.
pub open spec fn acc_unit(a: AccModel, u: Seq<u8>, complete: bool) -> AccModel {
    if is_sps_unit(u) {
        if complete {
            AccModel { sps: Some(sps_outcome(u)), ..a }
        } else {
            a
        }
    } else if is_idr_unit(u) {
        AccModel { idr: true, frames: a.frames + 1, ..a }
    } else if is_frame_unit(u) {
        AccModel { frames: a.frames + 1, ..a }
    } else {
        a
    }
}

/// The accumulator folded over complete units in stream order.
pub open spec fn acc_fold(a: AccModel, us: Seq<Seq<u8>>) -> AccModel
    decreases us.len(),
{
    if us.len() == 0 {
        a
    } else {
        acc_fold(acc_unit(a, us.first(), true), us.drop_first())
    }
}

/// Everything the H.264 scan of a chunk accumulates: the fold over all
/// finished units, then one incomplete step on the unit still open at the end
/// of the chunk, if any.
pub open spec fn h264_acc(s: Seq<u8>) -> AccModel {
    let m = scan_bytes(scan_init(), s);
    let a = acc_fold(acc_init(), m.units);
    if m.phase.in_unit() {
        acc_unit(a, m.cur, false)
    } else {
        a
    }
}

/// The verdict on an H.264 chunk.
///
/// A stored sequence-parameter-set failure is a hard error, overriding any
/// IDR finding; a stored success together with an IDR slice is the start of a
/// group of pictures; anything else — no sequence parameter set at all, or
/// one without an IDR slice — is not. The frame count is always reported.
pub open spec fn inspect_h264_spec(s: Seq<u8>) -> Result<InspectionView, InspectionErrorView> {
    let a = h264_acc(s);
    match a.sps {
        Some(Err(m)) => Err(InspectionErrorView::FailedToExtractEncodingDetails(m)),
        Some(Ok(d)) => Ok(
            InspectionView {
                gop_detection: if a.idr {
                    GopDetectionView::StartOfGop(d)
                } else {
                    GopDetectionView::NotStartOfGop
                },
                num_frames_detected: Some(a.frames),
            },
        ),
        None => Ok(
            InspectionView {
                gop_detection: GopDetectionView::NotStartOfGop,
                num_frames_detected: Some(a.frames),
            },
        ),
    }
}

/// An inspection result with both sides taken at their mathematical value.
pub open spec fn inspection_result_view(
    r: Result<VideoChunkInspection, VideoChunkInspectionError>,
) -> Result<InspectionView, InspectionErrorView> {
    match r {
        Ok(v) => Ok(v@),
        Err(e) => Err(e@),
    }
}

/// Running accumulator state of one H.264 chunk scan.
pub struct H264InspectionState {
    /// Outcome of the last complete sequence parameter set, if any.
    pub coding_details_from_sps: Option<Result<VideoEncodingDetails, String>>,
    /// Whether an IDR slice was seen.
    pub idr_frame_found: bool,
    /// Number of slice frames seen.
    pub num_frames_detected: usize,
}

impl View for H264InspectionState {
    type V = AccModel;

    open spec fn view(&self) -> AccModel {
        AccModel {
            sps: match &self.coding_details_from_sps {
                Some(r) => Some(details_result_view(*r)),
                None => None,
            },
            idr: self.idr_frame_found,
            frames: self.num_frames_detected as nat,
        }
    }
}

impl Default for H264InspectionState {
    /// A fresh accumulator.
    fn default() -> (r: Self)
        ensures
            r@ == acc_init(),
    {
        H264InspectionState::new()
    }
}

impl H264InspectionState {
    /// A fresh accumulator.
    pub fn new() -> (r: Self)
        ensures
            r@ == acc_init(),
    {
        H264InspectionState {
            coding_details_from_sps: None,
            idr_frame_found: false,
            num_frames_detected: 0,
        }
    }

    /// Feed one unit to the accumulator: exactly [`acc_unit`].
    ///
    /// `complete` says whether the unit's payload is whole; a sequence
    /// parameter set is decoded only then.
    pub fn nal(&mut self, unit: &Vec<u8>, complete: bool)
        requires
            is_frame_unit(unit@) ==> old(self).num_frames_detected < usize::MAX,
        ensures
            final(self)@ == acc_unit(old(self)@, unit@, complete),
    {
        if unit.len() == 0 {
            return ;
        }
        let header = unit[0];
        if header & 0x80 != 0 {
            // A header that fails to parse: skip the unit silently.
            return ;
        }
        let unit_ty = header & 0x1f;
        if unit_ty == 7 {
            if complete {
                // The whole sequence parameter set is buffered: decode it and
                // keep the outcome, replacing any earlier one.
                let outcome = match decode_sps_fields(unit) {
                    Ok(fields) => encoding_details_from_h264_sps(&fields),
                    Err(m) => Err(m),
                };
                self.coding_details_from_sps = Some(outcome);
            }
            // An incomplete sequence parameter set is never decoded.
        } else if unit_ty == 5 {
            self.idr_frame_found = true;
            self.num_frames_detected = self.num_frames_detected + 1;
        } else if unit_ty == 1 {
            self.num_frames_detected = self.num_frames_detected + 1;
        }
    }
}

/// Upper bound on the window handed to the splitter in one step; a tuning
/// constant that bounds working memory and, by the splitter's contract,
/// cannot change what is detected.
pub const MAX_CHUNK_SIZE: usize = 256;

/// Inspect one Annex-B formatted H.264 sample chunk: exactly
/// [`inspect_h264_spec`] on the chunk's bytes.
pub fn inspect_h264_annexb_sample(sample_data: &[u8]) -> (r: Result<
    VideoChunkInspection,
    VideoChunkInspectionError,
>)
    ensures
        inspection_result_view(r) == inspect_h264_spec(sample_data@),
{
    let ghost whole = sample_data@;
    let mut splitter = NalSplitter::new();
    let mut offset: usize = 0;
    while offset < sample_data.len()
        invariant
            offset <= sample_data.len(),
            whole == sample_data@,
            splitter@ == scan_bytes(scan_init(), whole.take(offset as int)),
        decreases sample_data.len() - offset,
    {
        // Feed the splitter window by window rather than all at once.
        let window_len: usize = if sample_data.len() - offset < MAX_CHUNK_SIZE {
            sample_data.len() - offset
        } else {
            MAX_CHUNK_SIZE
        };
        let end = offset + window_len;
        let window = slice_subrange(sample_data, offset, end);
        splitter.push(window);
        proof {
            lemma_scan_bytes_append(
                scan_init(),
                whole.take(offset as int),
                whole.subrange(offset as int, end as int),
            );
            assert(whole.take(offset as int) + whole.subrange(offset as int, end as int)
                =~= whole.take(end as int));
        }
        offset = end;
    }
    proof {
        assert(whole.take(whole.len() as int) =~= whole);
        lemma_scan_bytes_cost(scan_init(), whole);
    }
    let ghost m = scan_bytes(scan_init(), whole);
    let (units, trailing) = splitter.into_parts();
    let ghost uv = m.units;

    let mut state = H264InspectionState::new();
    let mut i: usize = 0;
    while i < units.len()
        invariant
            i <= units.len(),
            uv == Seq::new(units@.len(), |j: int| units@[j]@),
            state@ == acc_fold(acc_init(), uv.take(i as int)),
            state.num_frames_detected <= i,
        decreases units.len() - i,
    {
        let unit = &units[i];
        state.nal(unit, true);
        proof {
            lemma_acc_fold_snoc(acc_init(), uv.take(i as int), uv[i as int]);
            assert(uv.take(i as int).push(uv[i as int]) =~= uv.take(i + 1 as int));
        }
        i = i + 1;
    }
    proof {
        assert(uv.take(uv.len() as int) =~= uv);
    }
    match &trailing {
        Some(t) => {
            proof {
                // The cost bound keeps the frame count clear of overflow even
                // for this extra unit.
                assert(3 * m.units.len() <= whole.len());
            }
            state.nal(t, false);
        },
        None => {},
    }
    assert(state@ == h264_acc(whole));

    let H264InspectionState { coding_details_from_sps, idr_frame_found, num_frames_detected } =
        state;
    match coding_details_from_sps {
        Some(Ok(coding_details)) => {
            if idr_frame_found {
                Ok(
                    VideoChunkInspection {
                        gop_detection: GopStartDetection::StartOfGop(coding_details),
                        num_frames_detected: Some(num_frames_detected),
                    },
                )
            } else {
                // A sequence parameter set without any IDR slice: the chunk
                // cannot start a group of pictures.
                Ok(
                    VideoChunkInspection {
                        gop_detection: GopStartDetection::NotStartOfGop,
                        num_frames_detected: Some(num_frames_detected),
                    },
                )
            }
        },
        Some(Err(error_str)) => {
            Err(VideoChunkInspectionError::FailedToExtractEncodingDetails(error_str))
        },
        None => Ok(
            VideoChunkInspection {
                gop_detection: GopStartDetection::NotStartOfGop,
                num_frames_detected: Some(num_frames_detected),
            },
        ),
    }
}

/// Folding one more unit at the end applies one accumulator step.
pub proof fn lemma_acc_fold_snoc(a: AccModel, us: Seq<Seq<u8>>, u: Seq<u8>)
    ensures
        acc_fold(a, us.push(u)) == acc_unit(acc_fold(a, us), u, true),
    decreases us.len(),
{
    if us.len() == 0 {
        assert(us.push(u).first() == u);
        assert(us.push(u).drop_first() =~= Seq::<Seq<u8>>::empty());
        assert(acc_fold(acc_unit(a, u, true), Seq::<Seq<u8>>::empty()) == acc_unit(a, u, true));
    } else {
        assert(us.push(u).first() == us.first());
        assert(us.push(u).drop_first() =~= us.drop_first().push(u));
        lemma_acc_fold_snoc(acc_unit(a, us.first(), true), us.drop_first(), u);
    }
}

/// Classify one sample chunk before decode: for H.264, the verdict of
/// [`inspect_h264_spec`]; for every other codec an explicit unsupported-codec
/// failure, so that "not implemented" is never conflated with "checked, and
/// it is not a GOP start".
pub fn inspect_video_chunk(sample_data: &[u8], codec: VideoCodec) -> (r: Result<
    VideoChunkInspection,
    VideoChunkInspectionError,
>)
    ensures
        codec is H264 ==> inspection_result_view(r) == inspect_h264_spec(sample_data@),
        !(codec is H264) ==> r == Err::<VideoChunkInspection, VideoChunkInspectionError>(
            VideoChunkInspectionError::UnsupportedCodec(codec),
        ),
{
    match codec {
        VideoCodec::H264 => inspect_h264_annexb_sample(sample_data),
        VideoCodec::H265 => Err(VideoChunkInspectionError::UnsupportedCodec(codec)),
        VideoCodec::AV1 => Err(VideoChunkInspectionError::UnsupportedCodec(codec)),
        VideoCodec::VP8 => Err(VideoChunkInspectionError::UnsupportedCodec(codec)),
        VideoCodec::VP9 => Err(VideoChunkInspectionError::UnsupportedCodec(codec)),
    }
}

} // verus!
