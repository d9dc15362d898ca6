use vstd::prelude::*;
use crate::error::ScanError;

verus! {

/// Image geometry as a Start-Of-Frame segment declares it.
#[derive(Clone, Copy, Debug, PartialEq, Eq, Structural)]
pub struct FrameHeader {
    /// Bits per sample.
    pub precision: u8,
    pub height: u16,
    pub width: u16,
    pub component_count: u8,
}

/// The big-endian 16-bit value of two bytes.
pub open spec fn be16(hi: u8, lo: u8) -> nat {
    hi as nat * 256 + lo as nat
}

/// The header that a Start-Of-Frame body of at least six bytes declares.
pub open spec fn header_of(body: Seq<u8>) -> FrameHeader
    recommends
        body.len() >= 6,
{
    FrameHeader {
        precision: body[0],
        height: be16(body[1], body[2]) as u16,
        width: be16(body[3], body[4]) as u16,
        component_count: body[5],
    }
}

/// Reads two bytes as a big-endian 16-bit value.
pub fn read_be16(hi: u8, lo: u8) -> (r: u16)
    ensures
        r as nat == be16(hi, lo),
{
    hi as u16 * 256 + lo as u16
}

/// Interprets a Start-Of-Frame body: precision, height, width, component
/// count, in that order; what follows the sixth byte is not read.
pub fn parse_start_frame(frame: &[u8]) -> (r: Result<FrameHeader, ScanError>)
    ensures
        frame@.len() >= 6 <==> r is Ok,
        r is Ok ==> r->Ok_0 == header_of(frame@),
        r is Err ==> r->Err_0 == ScanError::MalformedFrameHeader,
{
    if frame.len() < 6 {
        return Err(ScanError::MalformedFrameHeader);
    }
    Ok(FrameHeader {
        precision: frame[0],
        height: read_be16(frame[1], frame[2]),
        width: read_be16(frame[3], frame[4]),
        component_count: frame[5],
    })
}

} // verus!
