use vstd::prelude::*;

verus! {

/// The meaning of one byte of the marker stream, read as the code that
/// follows a `0xFF` prefix.
#[derive(Clone, Copy, Debug, PartialEq, Eq, Structural)]
pub enum JpegMarker {
    /// `0xFF`: the prefix of a marker (or a fill byte).
    Indicator,
    /// `0xD8`: Start-Of-Image.
    StartOfImage,
    /// `0xD9`: End-Of-Image.
    EndOfImage,
    /// `0xE0` to `0xE2`: an application-data segment; holds its code.
    Application(u8),
    /// `0xC0` to `0xC2`: a baseline, extended or progressive Start-Of-Frame
    /// segment; holds its code.
    StartOfFrame(u8),
    /// Any other byte, kept as it is.
    Other(u8),
}

/// The classification of a marker code.
pub open spec fn marker_of(code: u8) -> JpegMarker {
    if code == 0xFF {
        JpegMarker::Indicator
    } else if code == 0xD8 {
        JpegMarker::StartOfImage
    } else if code == 0xD9 {
        JpegMarker::EndOfImage
    } else if 0xE0 <= code <= 0xE2 {
        JpegMarker::Application(code)
    } else if 0xC0 <= code <= 0xC2 {
        JpegMarker::StartOfFrame(code)
    } else {
        JpegMarker::Other(code)
    }
}

impl JpegMarker {
    /// Classifies a marker code.
    pub fn from_u8(marker: u8) -> (r: JpegMarker)
        ensures
            r == marker_of(marker),
    {
        match marker {
            0xFF => JpegMarker::Indicator,
            0xD8 => JpegMarker::StartOfImage,
            0xD9 => JpegMarker::EndOfImage,
            0xE0..=0xE2 => JpegMarker::Application(marker),
            0xC0..=0xC2 => JpegMarker::StartOfFrame(marker),
            _ => JpegMarker::Other(marker),
        }
    }
}

} // verus!
