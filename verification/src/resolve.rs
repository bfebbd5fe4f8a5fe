//! The period start that a file's place in the directory tree encodes.
//!
//! A file lies at `YEAR/MONTH/DAY/HHxxxx`, the month counted from zero; only
//! the first two characters of the file name are read, as the hour.

use vstd::prelude::*;
use vstd::string::*;
use crate::number::{parse_u32, spec_parse_u32};
use crate::timestamp::{spec_at_hour, spec_zero_timestamp, zero_timestamp, Timestamp};

verus! {

/// The text of the segment `back` places from the end (1 is the last), or
/// `None` where the path is shorter or the segment is no valid text.
pub open spec fn spec_segment(segments: Seq<Option<String>>, back: int) -> Option<Seq<char>> {
    if 1 <= back <= segments.len() {
        match segments[segments.len() - back] {
            Some(text) => Some(text@),
            None => None,
        }
    } else {
        None
    }
}

/// The period start of the hour file whose name starts with `hour`, in the
/// directories `day`, `month` (counted from zero) and `year`.
pub open spec fn spec_period_start(
    hour: Option<u32>,
    day: Option<u32>,
    month: Option<u32>,
    year: Option<u32>,
) -> Option<Timestamp> {
    match (hour, day, month, year) {
        (Some(h), Some(d), Some(m), Some(y)) => if m < u32::MAX && y <= 0x7fff_ffff {
            spec_at_hour(y as i32, (m + 1) as u32, d, h)
        } else {
            None
        },
        _ => None,
    }
}

/// The timestamp that the last four segments of a path encode, for a regular
/// file whose segments follow the convention; `None` for everything else.
pub open spec fn spec_to_datetime(is_file: bool, segments: Seq<Option<String>>) -> Option<
    Timestamp,
> {
    match (
        spec_segment(segments, 1),
        spec_segment(segments, 2),
        spec_segment(segments, 3),
        spec_segment(segments, 4),
    ) {
        (Some(name), Some(day), Some(month), Some(year)) => if is_file && name.len() >= 2 {
            spec_period_start(
                spec_parse_u32(name.subrange(0, 2)),
                spec_parse_u32(day),
                spec_parse_u32(month),
                spec_parse_u32(year),
            )
        } else {
            None
        },
        _ => None,
    }
}

/// The key by which the entries of a directory are ordered: the encoded
/// timestamp, or the zero timestamp where there is none.
pub open spec fn spec_direntry_to_key(is_file: bool, segments: Seq<Option<String>>) -> Timestamp {
    match spec_to_datetime(is_file, segments) {
        Some(ts) => ts,
        None => spec_zero_timestamp(),
    }
}

/// The segment `back` places from the end of the path.
fn segment(segments: &Vec<Option<String>>, back: usize) -> (text: Option<&str>)
    ensures
        match text {
            Some(t) => spec_segment(segments@, back as int) == Some(t@),
            None => spec_segment(segments@, back as int) is None,
        },
{
    if back == 0 || back > segments.len() {
        return None;
    }
    match &segments[segments.len() - back] {
        Some(text) => Some(text.as_str()),
        None => None,
    }
}

/// Infers the period start of a file from the last four segments of its path.
///
/// `is_file` says whether the path names a regular file; `segments` are the
/// path's components from the root to the leaf, `None` for one that is no
/// valid text. The result is `None`, and never an error, where the path is no
/// regular file, has fewer than four segments, has a segment that is no
/// number, or encodes a year, a day or an hour that does not exist. The
/// result carries the year that the path writes, so it is never earlier than
/// the zero timestamp.
pub fn to_datetime(is_file: bool, segments: &Vec<Option<String>>) -> (ts: Option<Timestamp>)
    ensures
        ts == spec_to_datetime(is_file, segments@),
        ts matches Some(t) ==> t.spec_is_valid() && !t.spec_before(&spec_zero_timestamp()),
{
    if !is_file {
        return None;
    }
    let name: &str = match segment(segments, 1) {
        Some(text) => text,
        None => { return None; },
    };
    let day_text: &str = match segment(segments, 2) {
        Some(text) => text,
        None => { return None; },
    };
    let month_text: &str = match segment(segments, 3) {
        Some(text) => text,
        None => { return None; },
    };
    let year_text: &str = match segment(segments, 4) {
        Some(text) => text,
        None => { return None; },
    };
    if name.unicode_len() < 2 {
        return None;
    }
    let hour: u32 = match parse_u32(name.substring_char(0, 2)) {
        Some(n) => n,
        None => { return None; },
    };
    let day: u32 = match parse_u32(day_text) {
        Some(n) => n,
        None => { return None; },
    };
    let month: u32 = match parse_u32(month_text) {
        Some(n) => n,
        None => { return None; },
    };
    let year: u32 = match parse_u32(year_text) {
        Some(n) => n,
        None => { return None; },
    };
    if month == u32::MAX || year > 0x7fff_ffff {
        return None;
    }
    Timestamp::at_hour(year as i32, month + 1, day, hour)
}

/// The key by which the entries of a directory are ordered. No key is
/// earlier than the zero timestamp, so the entries without a timestamp of
/// their own come first.
pub fn direntry_to_key(is_file: bool, segments: &Vec<Option<String>>) -> (key: Timestamp)
    ensures
        key == spec_direntry_to_key(is_file, segments@),
        !key.spec_before(&spec_zero_timestamp()),
{
    match to_datetime(is_file, segments) {
        Some(ts) => ts,
        None => zero_timestamp(),
    }
}

} // verus!
