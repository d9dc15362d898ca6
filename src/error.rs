use vstd::prelude::*;

verus! {

/// Why a byte sequence yields no report.
#[derive(Clone, Copy, Debug, PartialEq, Eq, Structural)]
pub enum ScanError {
    /// The bytes do not begin with Start-Of-Image.
    NotAJpeg,
    /// A marker pair, a length field or a segment body runs past the end.
    TruncatedSegment,
    /// A Start-Of-Frame body is shorter than its six-byte layout.
    MalformedFrameHeader,
    /// The scan ended without any Start-Of-Frame segment.
    NoFrameHeader,
}

} // verus!
