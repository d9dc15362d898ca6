use vstd::prelude::*;
use crate::error::ScanError;
use crate::marker::{marker_of, JpegMarker};
use crate::scanner::{initial_model, run, scan_spec, starts_with_soi, step, ScanModel, Step};
use crate::segment::{declared_length, segment_fits};

verus! {

/// The position and state of the scan of `b` after `n` steps taken from
/// position `i` in state `s`; `None` where it ended or failed before.
pub open spec fn walk(b: Seq<u8>, i: int, s: ScanModel, n: nat) -> Option<(int, ScanModel)>
    decreases n,
{
    if n == 0 {
        Some((i, s))
    } else if i >= b.len() {
        None
    } else {
        match step(b, i, s) {
            Step::Fail(_) => None,
            Step::Advance(j, t) => walk(b, j, t, (n - 1) as nat),
        }
    }
}

/// Each step moves forward and stays inside the bytes.
pub proof fn lemma_step_advances(b: Seq<u8>, i: int, s: ScanModel)
    requires
        0 <= i < b.len(),
    ensures
        step(b, i, s) is Advance ==> i < step(b, i, s)->Advance_0 <= b.len(),
{
}

/// A step reads only the bytes before the position it moves to, so it is
/// the same on any prefix that holds them.
pub proof fn lemma_step_on_prefix(b: Seq<u8>, i: int, s: ScanModel, k: int)
    requires
        0 <= i < b.len(),
        step(b, i, s) is Advance,
        step(b, i, s)->Advance_0 <= k <= b.len(),
    ensures
        step(b.take(k), i, s) == step(b, i, s),
{
    let c = b.take(k);
    lemma_step_advances(b, i, s);
    assert(c[i] == b[i]);
    if b[i] == 0xFF {
        assert(c[i + 1] == b[i + 1]);
        match marker_of(b[i + 1]) {
            JpegMarker::Application(_) => {
                assert(c[i + 2] == b[i + 2] && c[i + 3] == b[i + 3]);
                assert(c.subrange(i + 4, i + 2 + declared_length(b, i)) =~= b.subrange(
                    i + 4,
                    i + 2 + declared_length(b, i),
                ));
            },
            JpegMarker::StartOfFrame(_) => {
                assert(c[i + 2] == b[i + 2] && c[i + 3] == b[i + 3]);
                assert(c.subrange(i + 4, i + 2 + declared_length(b, i)) =~= b.subrange(
                    i + 4,
                    i + 2 + declared_length(b, i),
                ));
            },
            _ => {},
        }
    }
}

/// The positions of a walk never go back.
pub proof fn lemma_walk_forward(b: Seq<u8>, i: int, s: ScanModel, n: nat)
    requires
        0 <= i,
        walk(b, i, s, n) is Some,
    ensures
        i <= walk(b, i, s, n)->Some_0.0,
    decreases n,
{
    if n > 0 {
        lemma_step_advances(b, i, s);
        let j = step(b, i, s)->Advance_0;
        let t = step(b, i, s)->Advance_1;
        lemma_walk_forward(b, j, t, (n - 1) as nat);
    }
}

/// A walk that stays before `k` is the same on the first `k` bytes.
pub proof fn lemma_walk_on_prefix(b: Seq<u8>, i: int, s: ScanModel, n: nat, k: int)
    requires
        0 <= i,
        walk(b, i, s, n) is Some,
        walk(b, i, s, n)->Some_0.0 < k <= b.len(),
    ensures
        walk(b.take(k), i, s, n) == walk(b, i, s, n),
    decreases n,
{
    if n > 0 {
        lemma_step_advances(b, i, s);
        let j = step(b, i, s)->Advance_0;
        let t = step(b, i, s)->Advance_1;
        lemma_walk_forward(b, j, t, (n - 1) as nat);
        lemma_step_on_prefix(b, i, s, k);
        lemma_walk_on_prefix(b, j, t, (n - 1) as nat, k);
    }
}

/// The scan's result from any point of a walk is the result from its start.
pub proof fn lemma_walk_run(b: Seq<u8>, i: int, s: ScanModel, n: nat)
    requires
        0 <= i,
        walk(b, i, s, n) is Some,
    ensures
        run(b, i, s) == run(b, walk(b, i, s, n)->Some_0.0, walk(b, i, s, n)->Some_0.1),
    decreases n,
{
    if n > 0 {
        lemma_step_advances(b, i, s);
        let j = step(b, i, s)->Advance_0;
        let t = step(b, i, s)->Advance_1;
        lemma_walk_run(b, j, t, (n - 1) as nat);
    }
}

/// Cutting a JPEG file anywhere inside an application-data or Start-Of-Frame
/// segment that its scan reaches (after `n` steps, at position `i`) makes the
/// scan of what is left fail with `TruncatedSegment`.
pub proof fn lemma_truncated_segment(b: Seq<u8>, n: nat, i: int, s: ScanModel, k: int)
    requires
        starts_with_soi(b),
        walk(b, 0, initial_model(), n) == Some((i, s)),
        segment_fits(b, i),
        b[i] == 0xFF,
        marker_of(b[i + 1]) is Application || marker_of(b[i + 1]) is StartOfFrame,
        i < k < i + 2 + declared_length(b, i),
    ensures
        scan_spec(b.take(k)) == Err::<crate::report::Report, ScanError>(ScanError::TruncatedSegment),
{
    let c = b.take(k);
    lemma_walk_forward(b, 0, initial_model(), n);
    lemma_walk_on_prefix(b, 0, initial_model(), n, k);
    lemma_walk_run(c, 0, initial_model(), n);
    assert(starts_with_soi(c));
    assert(c[i] == b[i]);
    if k > i + 1 {
        assert(c[i + 1] == b[i + 1]);
    }
    if k >= i + 4 {
        assert(c[i + 2] == b[i + 2] && c[i + 3] == b[i + 3]);
    }
}

/// Whether some `0xFF` in `b` is followed by a Start-Of-Frame code.
pub open spec fn has_frame_marker(b: Seq<u8>) -> bool {
    exists|p: int| 0 <= p < b.len() - 1 && b[p] == 0xFF && #[trigger] marker_of(b[p + 1]) is StartOfFrame
}

/// From a state that has met Start-Of-Image and no frame header, a scan of
/// bytes without any Start-Of-Frame marker fails with `NoFrameHeader` or
/// `TruncatedSegment`.
pub proof fn lemma_run_without_frame(b: Seq<u8>, i: int, s: ScanModel)
    requires
        !has_frame_marker(b),
        0 <= i,
        s.seen_start_of_image,
        s.frame_headers.len() == 0,
    ensures
        run(b, i, s) == Err::<crate::report::Report, ScanError>(ScanError::NoFrameHeader) || run(
            b,
            i,
            s,
        ) == Err::<crate::report::Report, ScanError>(ScanError::TruncatedSegment),
    decreases b.len() - i,
{
    if i < b.len() {
        lemma_step_advances(b, i, s);
        if b[i] == 0xFF && i + 1 < b.len() {
            assert(!(marker_of(b[i + 1]) is StartOfFrame));
        }
        match step(b, i, s) {
            Step::Advance(j, t) => lemma_run_without_frame(b, j, t),
            Step::Fail(_) => {},
        }
    }
}

/// A file with Start-Of-Image and no Start-Of-Frame marker yields no
/// report: unless one of its segments is cut short, its scan fails with
/// `NoFrameHeader`.
pub proof fn lemma_no_frame_header(b: Seq<u8>)
    requires
        starts_with_soi(b),
        !has_frame_marker(b),
    ensures
        scan_spec(b) is Err,
        scan_spec(b) != Err::<crate::report::Report, ScanError>(ScanError::TruncatedSegment)
            ==> scan_spec(b) == Err::<crate::report::Report, ScanError>(ScanError::NoFrameHeader),
{
    let t = step(b, 0, initial_model())->Advance_1;
    assert(step(b, 0, initial_model()) == Step::Advance(2, t));
    lemma_run_without_frame(b, 2, t);
}

/// Scanning the same bytes twice gives the same result.
pub proof fn lemma_scan_idempotent(a: Seq<u8>, b: Seq<u8>)
    requires
        a =~= b,
    ensures
        scan_spec(a) == scan_spec(b),
{
}

} // verus!
