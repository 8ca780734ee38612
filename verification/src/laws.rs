//! Crate-level laws: what the inspection verdict promises, proved from the
//! contracts of the scanner, the accumulator and the assembler.

use vstd::prelude::*;

use crate::annexb::ScanPhase;
use crate::annexb::lemma_scan_bytes_snoc;
use crate::annexb::scan_bytes;
use crate::annexb::scan_init;
use crate::inspection::AccModel;
use crate::inspection::GopDetectionView;
use crate::inspection::InspectionErrorView;
use crate::inspection::InspectionView;
use crate::inspection::acc_fold;
use crate::inspection::acc_init;
use crate::inspection::acc_unit;
use crate::inspection::h264_acc;
use crate::inspection::inspect_h264_spec;
use crate::inspection::is_frame_unit;
use crate::inspection::is_idr_unit;
use crate::inspection::is_sps_unit;
use crate::inspection::lemma_acc_fold_snoc;
use crate::sps::EncodingDetailsView;
use crate::sps::sps_outcome;

verus! {

/// The finished units of a chunk, in byte order.
pub open spec fn chunk_units(s: Seq<u8>) -> Seq<Seq<u8>> {
    scan_bytes(scan_init(), s).units
}

/// The unit still open at the end of the chunk, where there is one.
pub open spec fn chunk_trailing(s: Seq<u8>) -> Option<Seq<u8>> {
    let m = scan_bytes(scan_init(), s);
    if m.phase.in_unit() {
        Some(m.cur)
    } else {
        None
    }
}

/// Number of slice units — IDR or non-IDR — in a unit sequence.
pub open spec fn count_frame_units(us: Seq<Seq<u8>>) -> nat
    decreases us.len(),
{
    if us.len() == 0 {
        0
    } else {
        (if is_frame_unit(us.first()) {
            1nat
        } else {
            0nat
        }) + count_frame_units(us.drop_first())
    }
}

/// Number of slice units in a whole chunk, the open trailing unit included:
/// its header is readable as soon as its first byte is.
pub open spec fn chunk_frame_count(s: Seq<u8>) -> nat {
    count_frame_units(chunk_units(s)) + match chunk_trailing(s) {
        Some(t) => if is_frame_unit(t) {
            1nat
        } else {
            0nat
        },
        None => 0,
    }
}

/// Whether a unit sequence holds an IDR slice.
pub open spec fn has_idr_unit(us: Seq<Seq<u8>>) -> bool {
    exists|i: int| 0 <= i < us.len() && is_idr_unit(us[i])
}

/// Whether a unit sequence holds a sequence parameter set.
pub open spec fn has_sps_unit(us: Seq<Seq<u8>>) -> bool {
    exists|i: int| 0 <= i < us.len() && is_sps_unit(us[i])
}

/// Whether a chunk holds an IDR slice, the open trailing unit included.
pub open spec fn chunk_has_idr(s: Seq<u8>) -> bool {
    has_idr_unit(chunk_units(s)) || (chunk_trailing(s) matches Some(t) && is_idr_unit(t))
}

/// The outcome of the last sequence parameter set of a unit sequence, if one
/// is present.
pub open spec fn last_sps_outcome(us: Seq<Seq<u8>>) -> Option<
    Result<EncodingDetailsView, Seq<char>>,
>
    decreases us.len(),
{
    if us.len() == 0 {
        None
    } else if is_sps_unit(us.last()) {
        Some(sps_outcome(us.last()))
    } else {
        last_sps_outcome(us.drop_last())
    }
}

/// One accumulator step adds one frame for a slice unit and none otherwise,
/// and only a complete sequence parameter set changes the stored outcome.
proof fn lemma_acc_unit_shape(a: AccModel, u: Seq<u8>, complete: bool)
    ensures
        acc_unit(a, u, complete).frames == a.frames + (if is_frame_unit(u) {
            1nat
        } else {
            0nat
        }),
        acc_unit(a, u, complete).idr == (a.idr || is_idr_unit(u)),
        acc_unit(a, u, complete).sps == (if is_sps_unit(u) && complete {
            Some(sps_outcome(u))
        } else {
            a.sps
        }),
{
}

/// The fold counts exactly the slice units.
proof fn lemma_acc_fold_frames(a: AccModel, us: Seq<Seq<u8>>)
    ensures
        acc_fold(a, us).frames == a.frames + count_frame_units(us),
    decreases us.len(),
{
    if us.len() > 0 {
        lemma_acc_fold_frames(acc_unit(a, us.first(), true), us.drop_first());
    }
}

/// The fold raises the IDR flag exactly when an IDR slice is present.
proof fn lemma_acc_fold_idr(a: AccModel, us: Seq<Seq<u8>>)
    ensures
        acc_fold(a, us).idr == (a.idr || has_idr_unit(us)),
    decreases us.len(),
{
    if us.len() == 0 {
    } else {
        let pre = us.drop_last();
        let u = us.last();
        assert(pre.push(u) =~= us);
        lemma_acc_fold_snoc(a, pre, u);
        lemma_acc_fold_idr(a, pre);
        if is_idr_unit(u) {
            assert(is_idr_unit(us[us.len() - 1]));
            assert(has_idr_unit(us));
        }
        if has_idr_unit(pre) {
            let i = choose|i: int| 0 <= i < pre.len() && is_idr_unit(pre[i]);
            assert(is_idr_unit(us[i]));
            assert(has_idr_unit(us));
        }
        if has_idr_unit(us) && !is_idr_unit(u) {
            let i = choose|i: int| 0 <= i < us.len() && is_idr_unit(us[i]);
            assert(i < pre.len());
            assert(is_idr_unit(pre[i]));
            assert(has_idr_unit(pre));
        }
    }
}

/// The fold retains the outcome of the last sequence parameter set.
proof fn lemma_acc_fold_sps(a: AccModel, us: Seq<Seq<u8>>)
    ensures
        acc_fold(a, us).sps == (match last_sps_outcome(us) {
            Some(o) => Some(o),
            None => a.sps,
        }),
    decreases us.len(),
{
    if us.len() > 0 {
        let pre = us.drop_last();
        let u = us.last();
        assert(pre.push(u) =~= us);
        lemma_acc_fold_snoc(a, pre, u);
        lemma_acc_fold_sps(a, pre);
    }
}

/// A present last-SPS outcome names an actual sequence parameter set unit.
proof fn lemma_last_sps_witness(us: Seq<Seq<u8>>)
    requires
        last_sps_outcome(us) is Some,
    ensures
        exists|i: int|
            0 <= i < us.len() && is_sps_unit(us[i]) && last_sps_outcome(us) == Some(
                sps_outcome(us[i]),
            ),
    decreases us.len(),
{
    if us.len() > 0 {
        if is_sps_unit(us.last()) {
            assert(is_sps_unit(us[us.len() - 1]));
        } else {
            lemma_last_sps_witness(us.drop_last());
            let i = choose|i: int|
                0 <= i < us.drop_last().len() && is_sps_unit(us.drop_last()[i])
                    && last_sps_outcome(us.drop_last()) == Some(sps_outcome(us.drop_last()[i]));
            assert(us.drop_last()[i] == us[i]);
        }
    }
}

/// A sequence with a sequence parameter set has a last-SPS outcome.
proof fn lemma_has_sps_gives_outcome(us: Seq<Seq<u8>>)
    ensures
        last_sps_outcome(us) is Some <==> has_sps_unit(us),
    decreases us.len(),
{
    if us.len() == 0 {
        assert(!has_sps_unit(us));
    } else {
        let pre = us.drop_last();
        lemma_has_sps_gives_outcome(pre);
        if is_sps_unit(us.last()) {
            assert(is_sps_unit(us[us.len() - 1]));
            assert(has_sps_unit(us));
        } else {
            if has_sps_unit(pre) {
                let i = choose|i: int| 0 <= i < pre.len() && is_sps_unit(pre[i]);
                assert(is_sps_unit(us[i]));
                assert(has_sps_unit(us));
            }
            if has_sps_unit(us) {
                let i = choose|i: int| 0 <= i < us.len() && is_sps_unit(us[i]);
                assert(i < pre.len());
                assert(is_sps_unit(pre[i]));
                assert(has_sps_unit(pre));
            }
        }
    }
}

/// The accumulated fields of a chunk, written out: the stored outcome is the
/// last complete sequence parameter set's, the IDR flag says whether any unit
/// — the open trailing one included — is an IDR slice, and the frame count is
/// the slice-unit count.
pub proof fn lemma_h264_acc_fields(s: Seq<u8>)
    ensures
        h264_acc(s).sps == last_sps_outcome(chunk_units(s)),
        h264_acc(s).idr == chunk_has_idr(s),
        h264_acc(s).frames == chunk_frame_count(s),
{
    let us = chunk_units(s);
    lemma_acc_fold_frames(acc_init(), us);
    lemma_acc_fold_idr(acc_init(), us);
    lemma_acc_fold_sps(acc_init(), us);
    let a = acc_fold(acc_init(), us);
    match chunk_trailing(s) {
        Some(t) => {
            lemma_acc_unit_shape(a, t, false);
        },
        None => {},
    }
}

/// The detected frame count is the number of IDR-plus-non-IDR slice units in
/// the chunk, and is reported whenever inspection succeeds.
pub proof fn lemma_num_frames_counts_slice_units(s: Seq<u8>)
    ensures
        h264_acc(s).frames == chunk_frame_count(s),
        inspect_h264_spec(s) matches Ok(v) ==> v.num_frames_detected == Some(
            chunk_frame_count(s),
        ),
{
    lemma_h264_acc_fields(s);
}

/// Appending bytes to a chunk never decreases the detected frame count: one
/// extra byte either leaves every unit as it was, extends the open unit
/// without touching its header, or closes the open unit, whose slice
/// classification does not depend on completeness.
proof fn lemma_h264_acc_byte_monotone(s: Seq<u8>, b: u8)
    ensures
        h264_acc(s).frames <= h264_acc(s.push(b)).frames,
{
    lemma_scan_bytes_snoc(scan_init(), s, b);
    let m = scan_bytes(scan_init(), s);
    let a = acc_fold(acc_init(), m.units);
    match m.phase {
        ScanPhase::UnitTwo => {
            if b == 0 || b == 1 {
                lemma_acc_fold_snoc(acc_init(), m.units, m.cur);
                lemma_acc_unit_shape(acc_fold(acc_init(), m.units), m.cur, true);
                lemma_acc_unit_shape(acc_fold(acc_init(), m.units), m.cur, false);
            } else {
                if m.cur.len() > 0 {
                    assert(m.cur.push(0).push(0).push(b)[0] == m.cur[0]);
                }
            }
        },
        ScanPhase::UnitOne => {
            if b != 0 {
                if m.cur.len() > 0 {
                    assert(m.cur.push(0).push(b)[0] == m.cur[0]);
                }
            }
        },
        ScanPhase::Unit => {
            if b != 0 {
                if m.cur.len() > 0 {
                    assert(m.cur.push(b)[0] == m.cur[0]);
                }
            }
        },
        _ => {},
    }
}

/// The detected frame count is monotone: whatever is appended to a chunk,
/// the count of slice units only grows.
pub proof fn lemma_frame_count_monotone(s: Seq<u8>, t: Seq<u8>)
    ensures
        h264_acc(s).frames <= h264_acc(s + t).frames,
    decreases t.len(),
{
    if t.len() == 0 {
        assert(s + t =~= s);
    } else {
        lemma_frame_count_monotone(s, t.drop_last());
        lemma_h264_acc_byte_monotone(s + t.drop_last(), t.last());
        assert((s + t.drop_last()).push(t.last()) =~= s + t);
    }
}

/// The chunk starts a group of pictures exactly when it holds both a
/// sequence parameter set that can be interpreted and at least one IDR slice,
/// irrespective of their relative order.
///
/// The hypothesis rules out a later sequence parameter set that fails to
/// decode: such a chunk is a hard error even when a decodable one and an IDR
/// slice are present, because the last one in byte order governs.
pub proof fn lemma_gop_start_iff(s: Seq<u8>)
    requires
        forall|i: int|
            0 <= i < chunk_units(s).len() && is_sps_unit(#[trigger] chunk_units(s)[i])
                ==> sps_outcome(chunk_units(s)[i]) is Ok,
    ensures
        (inspect_h264_spec(s) matches Ok(v) && v.gop_detection is StartOfGop) <==> (has_sps_unit(
            chunk_units(s),
        ) && chunk_has_idr(s)),
{
    let us = chunk_units(s);
    lemma_h264_acc_fields(s);
    lemma_has_sps_gives_outcome(us);
    if has_sps_unit(us) {
        lemma_last_sps_witness(us);
    }
}

/// When a chunk holds several sequence parameter sets, the retained outcome
/// is that of the last one in byte order.
pub proof fn lemma_last_sps_wins(s: Seq<u8>, i: int)
    requires
        0 <= i < chunk_units(s).len(),
        is_sps_unit(chunk_units(s)[i]),
        forall|j: int| i < j < chunk_units(s).len() ==> !is_sps_unit(#[trigger] chunk_units(s)[j]),
    ensures
        h264_acc(s).sps == Some(sps_outcome(chunk_units(s)[i])),
{
    lemma_h264_acc_fields(s);
    lemma_last_sps_at(chunk_units(s), i);
}

/// The last-SPS outcome comes from the last index holding a sequence
/// parameter set.
proof fn lemma_last_sps_at(us: Seq<Seq<u8>>, i: int)
    requires
        0 <= i < us.len(),
        is_sps_unit(us[i]),
        forall|j: int| i < j < us.len() ==> !is_sps_unit(#[trigger] us[j]),
    ensures
        last_sps_outcome(us) == Some(sps_outcome(us[i])),
    decreases us.len(),
{
    if i == us.len() - 1 {
    } else {
        assert(!is_sps_unit(us.last()));
        let pre = us.drop_last();
        assert(pre[i] == us[i]);
        assert(forall|j: int| i < j < pre.len() ==> !is_sps_unit(#[trigger] pre[j]));
        lemma_last_sps_at(pre, i);
    }
}

/// A sequence parameter set that is present but cannot be interpreted is a
/// hard error for the whole inspection — even when a valid IDR slice is in
/// the same chunk — provided it is the one that governs, the last in byte
/// order.
pub proof fn lemma_sps_failure_is_hard_error(s: Seq<u8>, i: int)
    requires
        0 <= i < chunk_units(s).len(),
        is_sps_unit(chunk_units(s)[i]),
        forall|j: int| i < j < chunk_units(s).len() ==> !is_sps_unit(#[trigger] chunk_units(s)[j]),
        sps_outcome(chunk_units(s)[i]) is Err,
    ensures
        inspect_h264_spec(s) == Err::<InspectionView, InspectionErrorView>(
            InspectionErrorView::FailedToExtractEncodingDetails(
                sps_outcome(chunk_units(s)[i])->Err_0,
            ),
        ),
{
    lemma_last_sps_wins(s, i);
}

/// Whether the bytes hold an Annex-B start code anywhere.
pub open spec fn has_start_code(s: Seq<u8>) -> bool {
    exists|i: int| 0 <= i && i + 2 < s.len() && #[trigger] s[i] == 0 && s[i + 1] == 0 && s[i + 2] == 1
}

/// On input without a start code the scanner stays between units and finds
/// nothing; a trailing run of zeros is all that it may be holding.
proof fn lemma_scan_stays_in_gap(s: Seq<u8>)
    requires
        !has_start_code(s),
    ensures
        ({
            let m = scan_bytes(scan_init(), s);
            &&& !m.phase.in_unit()
            &&& m.units.len() == 0
            &&& (m.phase is GapOne ==> s.len() >= 1 && s[s.len() - 1] == 0)
            &&& (m.phase is GapTwo ==> s.len() >= 2 && s[s.len() - 1] == 0 && s[s.len() - 2] == 0)
        }),
    decreases s.len(),
{
    if s.len() > 0 {
        let pre = s.drop_last();
        let b = s.last();
        assert(pre.push(b) =~= s);
        assert(!has_start_code(pre)) by {
            if has_start_code(pre) {
                let i = choose|i: int|
                    0 <= i && i + 2 < pre.len() && #[trigger] pre[i] == 0 && pre[i + 1] == 0
                        && pre[i + 2] == 1;
                assert(s[i] == 0 && s[i + 1] == 0 && s[i + 2] == 1);
                assert(has_start_code(s));
            }
        }
        lemma_scan_stays_in_gap(pre);
        lemma_scan_bytes_snoc(scan_init(), pre, b);
        let mp = scan_bytes(scan_init(), pre);
        if mp.phase is GapTwo && b == 1 {
            assert(s[s.len() - 3] == 0 && s[s.len() - 2] == 0 && s[s.len() - 1] == 1);
            assert(has_start_code(s));
        }
    }
}

/// Bytes with no recognizable Annex-B start code yield no units at all: not
/// the start of a group of pictures, with a frame count of zero.
pub proof fn lemma_no_start_code_yields_nothing(s: Seq<u8>)
    requires
        !has_start_code(s),
    ensures
        inspect_h264_spec(s) == Ok::<InspectionView, InspectionErrorView>(
            InspectionView {
                gop_detection: GopDetectionView::NotStartOfGop,
                num_frames_detected: Some(0nat),
            },
        ),
{
    lemma_scan_stays_in_gap(s);
    assert(chunk_units(s) =~= Seq::<Seq<u8>>::empty());
    lemma_h264_acc_fields(s);
}

} // verus!
