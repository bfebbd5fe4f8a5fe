//! Decoding of bi5 tick files: fixed-width big-endian records inside an LZMA
//! stream, and the traversal that chains the records of many files.

pub mod chain;
pub mod laws;
pub mod number;
pub mod order;
pub mod payload;
pub mod resolve;
pub mod source;
pub mod tick;
pub mod timestamp;

pub use chain::read_bi5_file;
pub use order::compare_in_time;
pub use payload::{check_record_layout, decode_payload, Bi5Error};
pub use resolve::{direntry_to_key, to_datetime};
pub use source::{Bi5, Bi5Iter, Forwarded, Opened, PathKind, Step, WalkAction, WalkEvent};
pub use tick::{Tick, TICK_WIDTH};
pub use timestamp::{zero_timestamp, Timestamp};
