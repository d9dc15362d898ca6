use vstd::prelude::*;
use crate::cursor::ByteCursor;
use crate::error::ScanError;
use crate::frame::{be16, read_be16};
use crate::marker::{marker_of, JpegMarker};

verus! {

/// A length-bearing segment: its marker, its declared length (which counts
/// the two length bytes) and its body of `length - 2` bytes.
pub struct Segment<'a> {
    pub marker: JpegMarker,
    pub length: u16,
    pub body: &'a [u8],
}

/// The length declared by the two bytes after the marker pair at `i`.
pub open spec fn declared_length(b: Seq<u8>, i: int) -> nat
    recommends
        i + 4 <= b.len(),
{
    be16(b[i + 2], b[i + 3])
}

/// Whether the segment whose marker pair starts at `i` lies whole in `b`,
/// with a declared length of at least two.
pub open spec fn segment_fits(b: Seq<u8>, i: int) -> bool {
    &&& 0 <= i
    &&& i + 4 <= b.len()
    &&& declared_length(b, i) >= 2
    &&& i + 2 + declared_length(b, i) <= b.len()
}

/// The body of the segment whose marker pair starts at `i`.
pub open spec fn segment_body(b: Seq<u8>, i: int) -> Seq<u8> {
    b.subrange(i + 4, i + 2 + declared_length(b, i))
}

/// Materialises the segment whose marker pair starts at `marker_start`;
/// `TruncatedSegment` where it does not lie whole in the bytes.
pub fn decode_segment<'a>(cursor: &ByteCursor<'a>, marker_start: usize) -> (r: Result<
    Segment<'a>,
    ScanError,
>)
    ensures
        segment_fits(cursor@, marker_start as int) <==> r is Ok,
        r is Err ==> r->Err_0 == ScanError::TruncatedSegment,
        r is Ok ==> {
            let s = r->Ok_0;
            &&& s.marker == marker_of(cursor@[marker_start + 1])
            &&& s.length as nat == declared_length(cursor@, marker_start as int)
            &&& s.body@ == segment_body(cursor@, marker_start as int)
        },
{
    proof {
        cursor.lemma_len_fits();
    }
    let head = match cursor.slice(marker_start, 4) {
        Ok(h) => h,
        Err(_) => return Err(ScanError::TruncatedSegment),
    };
    let length = read_be16(head[2], head[3]);
    if length < 2 {
        return Err(ScanError::TruncatedSegment);
    }
    let body = match cursor.slice(marker_start + 4, (length - 2) as usize) {
        Ok(b) => b,
        Err(_) => return Err(ScanError::TruncatedSegment),
    };
    Ok(Segment { marker: JpegMarker::from_u8(head[1]), length, body })
}

} // verus!
