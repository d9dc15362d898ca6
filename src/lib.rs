//! Structural metadata of JPEG files (dimensions, bit depth, component
//! count and container kind), read from the marker stream alone.
pub mod cursor;
pub mod error;
pub mod frame;
pub mod laws;
pub mod marker;
pub mod report;
pub mod scanner;
pub mod segment;

pub use cursor::{ByteCursor, OutOfBounds};
pub use error::ScanError;
pub use frame::{parse_start_frame, read_be16, FrameHeader};
pub use marker::JpegMarker;
pub use report::{aggregate, ContainerId, Report};
pub use scanner::{scan, scan_step, ScanState};
pub use segment::{decode_segment, Segment};
