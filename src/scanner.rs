use vstd::prelude::*;
use crate::cursor::ByteCursor;
use crate::error::ScanError;
use crate::frame::{header_of, parse_start_frame, FrameHeader};
use crate::marker::{marker_of, JpegMarker};
use crate::report::{aggregate, aggregate_spec, container_of, ContainerId, Report};
use crate::segment::{decode_segment, declared_length, segment_body, segment_fits};

verus! {

/// What one pass over the marker stream has gathered so far.
pub struct ScanState {
    pub seen_start_of_image: bool,
    pub seen_end_of_image: bool,
    /// `Unknown` until an application-data segment names a container.
    pub container_identifier: ContainerId,
    /// The Start-Of-Frame headers met, with their marker kinds, in stream
    /// order.
    pub frame_headers: Vec<(u8, FrameHeader)>,
}

/// The mathematical value of a `ScanState`.
pub struct ScanModel {
    pub seen_start_of_image: bool,
    pub seen_end_of_image: bool,
    pub container_identifier: ContainerId,
    pub frame_headers: Seq<(u8, FrameHeader)>,
}

impl View for ScanState {
    type V = ScanModel;

    open spec fn view(&self) -> ScanModel {
        ScanModel {
            seen_start_of_image: self.seen_start_of_image,
            seen_end_of_image: self.seen_end_of_image,
            container_identifier: self.container_identifier,
            frame_headers: self.frame_headers@,
        }
    }
}

/// The state before the first byte.
pub open spec fn initial_model() -> ScanModel {
    ScanModel {
        seen_start_of_image: false,
        seen_end_of_image: false,
        container_identifier: ContainerId::Unknown,
        frame_headers: Seq::empty(),
    }
}

/// The outcome of one step of the scan.
pub enum Step {
    /// Go on at this position, with this state.
    Advance(int, ScanModel),
    /// Stop with this error.
    Fail(ScanError),
}

/// One step of the scan at position `i` (with `i` inside `b`): a byte other
/// than `0xFF` is passed over; a marker pair is classified by its second
/// byte; application-data and Start-Of-Frame segments are decoded and passed
/// over whole, other markers take two bytes.
pub open spec fn step(b: Seq<u8>, i: int, s: ScanModel) -> Step {
    if b[i] != 0xFF {
        Step::Advance(i + 1, s)
    } else if i + 1 >= b.len() {
        Step::Fail(ScanError::TruncatedSegment)
    } else {
        match marker_of(b[i + 1]) {
            JpegMarker::StartOfImage => Step::Advance(
                i + 2,
                ScanModel { seen_start_of_image: true, ..s },
            ),
            JpegMarker::EndOfImage => Step::Advance(i + 2, ScanModel { seen_end_of_image: true, ..s }),
            JpegMarker::Application(kind) => {
                if !segment_fits(b, i) {
                    Step::Fail(ScanError::TruncatedSegment)
                } else {
                    let id = if s.container_identifier == ContainerId::Unknown {
                        container_of(kind)
                    } else {
                        s.container_identifier
                    };
                    Step::Advance(
                        i + 2 + declared_length(b, i),
                        ScanModel { container_identifier: id, ..s },
                    )
                }
            },
            JpegMarker::StartOfFrame(kind) => {
                if !segment_fits(b, i) {
                    Step::Fail(ScanError::TruncatedSegment)
                } else if segment_body(b, i).len() < 6 {
                    Step::Fail(ScanError::MalformedFrameHeader)
                } else {
                    let h = header_of(segment_body(b, i));
                    Step::Advance(
                        i + 2 + declared_length(b, i),
                        ScanModel { frame_headers: s.frame_headers.push((kind, h)), ..s },
                    )
                }
            },
            _ => Step::Advance(i + 2, s),
        }
    }
}

/// The result of the scan's end in state `s`.
pub open spec fn finish(s: ScanModel) -> Result<Report, ScanError> {
    if !s.seen_start_of_image {
        Err(ScanError::NotAJpeg)
    } else {
        aggregate_spec(s.container_identifier, s.frame_headers)
    }
}

/// The result of scanning `b` from position `i` in state `s` to the end.
pub open spec fn run(b: Seq<u8>, i: int, s: ScanModel) -> Result<Report, ScanError>
    decreases b.len() - i,
{
    if i >= b.len() {
        finish(s)
    } else {
        match step(b, i, s) {
            Step::Fail(e) => Err(e),
            // every step moves forward
            Step::Advance(j, t) => if j > i {
                run(b, j, t)
            } else {
                finish(t)
            },
        }
    }
}

/// Whether `b` begins with the Start-Of-Image marker pair `0xFF 0xD8`.
pub open spec fn starts_with_soi(b: Seq<u8>) -> bool {
    b.len() >= 2 && b[0] == 0xFF && b[1] == 0xD8
}

/// The result of scanning the whole of `b`.
pub open spec fn scan_spec(b: Seq<u8>) -> Result<Report, ScanError> {
    if !starts_with_soi(b) {
        Err(ScanError::NotAJpeg)
    } else {
        run(b, 0, initial_model())
    }
}

impl ScanState {
    /// The state before the first byte: nothing seen, no container named,
    /// no frame header.
    pub fn new() -> (r: ScanState)
        ensures
            r@ == initial_model(),
    {
        ScanState {
            seen_start_of_image: false,
            seen_end_of_image: false,
            container_identifier: ContainerId::Unknown,
            frame_headers: Vec::new(),
        }
    }
}

/// Takes one step of the scan at position `i` and returns the next position.
pub fn scan_step(cursor: &ByteCursor, i: usize, state: &mut ScanState) -> (r: Result<
    usize,
    ScanError,
>)
    requires
        i < cursor@.len(),
    ensures
        r is Ok ==> step(cursor@, i as int, old(state)@) == Step::Advance(
            r->Ok_0 as int,
            final(state)@,
        ),
        r is Ok ==> i < r->Ok_0 <= cursor@.len(),
        r is Err ==> step(cursor@, i as int, old(state)@) == Step::Fail(r->Err_0),
{
    proof {
        cursor.lemma_len_fits();
    }
    let byte = match cursor.peek(i) {
        Ok(v) => v,
        Err(_) => return Err(ScanError::TruncatedSegment),
    };
    if byte != 0xFF {
        return Ok(i + 1);
    }
    let code = match cursor.peek(i + 1) {
        Ok(c) => c,
        Err(_) => return Err(ScanError::TruncatedSegment),
    };
    match JpegMarker::from_u8(code) {
        JpegMarker::StartOfImage => {
            state.seen_start_of_image = true;
            Ok(i + 2)
        },
        JpegMarker::EndOfImage => {
            state.seen_end_of_image = true;
            Ok(i + 2)
        },
        JpegMarker::Application(kind) => {
            let segment = match decode_segment(cursor, i) {
                Ok(s) => s,
                Err(e) => return Err(e),
            };
            if state.container_identifier == ContainerId::Unknown {
                state.container_identifier = ContainerId::from_kind(kind);
            }
            Ok(i + 2 + segment.length as usize)
        },
        JpegMarker::StartOfFrame(kind) => {
            let segment = match decode_segment(cursor, i) {
                Ok(s) => s,
                Err(e) => return Err(e),
            };
            let header = match parse_start_frame(segment.body) {
                Ok(h) => h,
                Err(e) => return Err(e),
            };
            state.frame_headers.push((kind, header));
            Ok(i + 2 + segment.length as usize)
        },
        _ => Ok(i + 2),
    }
}

/// Scans the marker stream of a whole JPEG file and reports its container
/// and the selected frame header.
pub fn scan(bytes: &[u8]) -> (r: Result<Report, ScanError>)
    ensures
        r == scan_spec(bytes@),
        !starts_with_soi(bytes@) ==> r == Err::<Report, ScanError>(ScanError::NotAJpeg),
{
    if bytes.len() < 2 || bytes[0] != 0xFF || bytes[1] != 0xD8 {
        return Err(ScanError::NotAJpeg);
    }
    let cursor = ByteCursor::new(bytes);
    let mut state = ScanState::new();
    let mut i: usize = 0;
    while i < cursor.len()
        invariant
            cursor@ == bytes@,
            i <= bytes@.len(),
            run(bytes@, i as int, state@) == scan_spec(bytes@),
        decreases bytes@.len() - i,
    {
        match scan_step(&cursor, i, &mut state) {
            Ok(j) => i = j,
            Err(e) => return Err(e),
        }
    }
    if !state.seen_start_of_image {
        return Err(ScanError::NotAJpeg);
    }
    aggregate(state.container_identifier, &state.frame_headers)
}

} // verus!
