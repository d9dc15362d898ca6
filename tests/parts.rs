use jpeg_scan::{
    aggregate, decode_segment, parse_start_frame, read_be16, scan_step, ByteCursor, ContainerId,
    FrameHeader, JpegMarker, OutOfBounds, ScanError, ScanState,
};

#[test]
fn marker_codes_are_classified() {
    assert_eq!(JpegMarker::from_u8(0xFF), JpegMarker::Indicator);
    assert_eq!(JpegMarker::from_u8(0xD8), JpegMarker::StartOfImage);
    assert_eq!(JpegMarker::from_u8(0xD9), JpegMarker::EndOfImage);
    assert_eq!(JpegMarker::from_u8(0xE0), JpegMarker::Application(0xE0));
    assert_eq!(JpegMarker::from_u8(0xE2), JpegMarker::Application(0xE2));
    assert_eq!(JpegMarker::from_u8(0xE3), JpegMarker::Other(0xE3));
    assert_eq!(JpegMarker::from_u8(0xC0), JpegMarker::StartOfFrame(0xC0));
    assert_eq!(JpegMarker::from_u8(0xC2), JpegMarker::StartOfFrame(0xC2));
    assert_eq!(JpegMarker::from_u8(0xC3), JpegMarker::Other(0xC3));
    assert_eq!(JpegMarker::from_u8(0x00), JpegMarker::Other(0x00));
}

#[test]
fn frame_body_is_big_endian() {
    let h = parse_start_frame(&[12, 0x01, 0x02, 0x03, 0x04, 4, 9, 9]).unwrap();
    assert_eq!(
        h,
        FrameHeader { precision: 12, height: 258, width: 772, component_count: 4 }
    );
    assert_eq!(parse_start_frame(&[8, 0, 1, 0, 1]), Err(ScanError::MalformedFrameHeader));
    assert_eq!(parse_start_frame(&[]), Err(ScanError::MalformedFrameHeader));
}

#[test]
fn two_bytes_read_big_endian() {
    assert_eq!(read_be16(0x12, 0x34), 0x1234);
    assert_eq!(read_be16(0xFF, 0xFF), 0xFFFF);
    assert_eq!(read_be16(0, 0), 0);
}

#[test]
fn cursor_checks_bounds() {
    let bytes = [1u8, 2, 3];
    let c = ByteCursor::new(&bytes);
    assert_eq!(c.len(), 3);
    assert_eq!(c.peek(2), Ok(3));
    assert_eq!(c.peek(3), Err(OutOfBounds));
    assert_eq!(c.slice(1, 2), Ok(&bytes[1..3]));
    assert_eq!(c.slice(3, 0), Ok(&bytes[3..3]));
    assert_eq!(c.slice(2, 2), Err(OutOfBounds));
    assert_eq!(c.slice(usize::MAX, 2), Err(OutOfBounds));
}

#[test]
fn segment_is_decoded() {
    let bytes = [0xFF, 0xE1, 0x00, 0x05, 7, 8, 9, 0xFF];
    let c = ByteCursor::new(&bytes);
    let s = decode_segment(&c, 0).unwrap();
    assert_eq!(s.marker, JpegMarker::Application(0xE1));
    assert_eq!(s.length, 5);
    assert_eq!(s.body, &[7, 8, 9]);
    assert!(matches!(decode_segment(&c, 4), Err(ScanError::TruncatedSegment)));
    let short = [0xFF, 0xE1, 0x00, 0x06, 7, 8, 9];
    let c = ByteCursor::new(&short);
    assert!(matches!(decode_segment(&c, 0), Err(ScanError::TruncatedSegment)));
}

#[test]
fn one_step_moves_past_a_frame_segment() {
    let bytes = [0xFF, 0xC1, 0x00, 0x08, 8, 0, 2, 0, 3, 1, 0xFF];
    let c = ByteCursor::new(&bytes);
    let mut state = ScanState::new();
    assert_eq!(scan_step(&c, 0, &mut state), Ok(10));
    assert_eq!(
        state.frame_headers,
        vec![(0xC1, FrameHeader { precision: 8, height: 2, width: 3, component_count: 1 })]
    );
    assert_eq!(scan_step(&c, 10, &mut state), Err(ScanError::TruncatedSegment));
    assert_eq!(scan_step(&c, 4, &mut state), Ok(5));
}

#[test]
fn aggregate_needs_a_frame() {
    assert_eq!(aggregate(ContainerId::Jfif, &vec![]), Err(ScanError::NoFrameHeader));
    let a = FrameHeader { precision: 8, height: 1, width: 1, component_count: 1 };
    let b = FrameHeader { precision: 8, height: 2, width: 2, component_count: 3 };
    let r = aggregate(ContainerId::Jfif, &vec![(0xC2, a), (0xC0, b)]).unwrap();
    assert_eq!(r.selected_frame, a);
    assert_eq!(r.identifier, ContainerId::Jfif);
}
