//! The tick record and its wire layout.
//!
//! A record is twenty bytes: five big-endian 32-bit words holding the
//! millisecond offset, the ask price, the bid price, the ask size and the bid
//! size. The two sizes are IEEE-754 single-precision numbers; they are kept
//! here as their bit patterns.

use vstd::prelude::*;

verus! {

/// Width of one record on the wire, in bytes.
pub const TICK_WIDTH: usize = 20;

/// One price and volume observation.
#[derive(Clone, Copy, Debug, PartialEq, Eq, Structural)]
pub struct Tick {
    /// Milliseconds since the start of the period of the file that holds it.
    pub millisecs: u32,
    /// Ask price, integer-scaled.
    pub ask: u32,
    /// Bid price, integer-scaled.
    pub bid: u32,
    /// Ask size, as the bit pattern of a single-precision number.
    pub asksize_bits: u32,
    /// Bid size, as the bit pattern of a single-precision number.
    pub bidsize_bits: u32,
}

/// The big-endian word that starts at `at`.
pub open spec fn spec_be_u32(bytes: Seq<u8>, at: int) -> u32
    recommends
        0 <= at,
        at + 4 <= bytes.len(),
{
    (bytes[at] as int * 0x100_0000 + bytes[at + 1] as int * 0x1_0000 + bytes[at + 2] as int
        * 0x100 + bytes[at + 3] as int) as u32
}

/// The record whose first byte is at `at`.
pub open spec fn spec_tick_at(bytes: Seq<u8>, at: int) -> Tick
    recommends
        0 <= at,
        at + 20 <= bytes.len(),
{
    Tick {
        millisecs: spec_be_u32(bytes, at),
        ask: spec_be_u32(bytes, at + 4),
        bid: spec_be_u32(bytes, at + 8),
        asksize_bits: spec_be_u32(bytes, at + 12),
        bidsize_bits: spec_be_u32(bytes, at + 16),
    }
}

/// How many whole records lie between `at` and the end of `bytes`.
pub open spec fn spec_tick_count(bytes: Seq<u8>, at: int) -> nat {
    if 0 <= at <= bytes.len() {
        ((bytes.len() - at) / 20) as nat
    } else {
        0
    }
}

/// The records from `at` on, one after the other, without gap or overlap.
pub open spec fn spec_ticks(bytes: Seq<u8>, at: int) -> Seq<Tick> {
    Seq::new(spec_tick_count(bytes, at), |i: int| spec_tick_at(bytes, at + 20 * i))
}

/// Reads the big-endian word that starts at `at`.
fn read_be_u32(buf: &Vec<u8>, at: usize) -> (word: u32)
    requires
        at + 4 <= buf.len(),
    ensures
        word == spec_be_u32(buf@, at as int),
{
    let b0: u32 = buf[at] as u32;
    let b1: u32 = buf[at + 1] as u32;
    let b2: u32 = buf[at + 2] as u32;
    let b3: u32 = buf[at + 3] as u32;
    b0 * 0x100_0000 + b1 * 0x1_0000 + b2 * 0x100 + b3
}

/// Decodes the record at `at`, or reports the end of the data when fewer than
/// twenty bytes are left there.
pub fn decode_tick(buf: &Vec<u8>, at: usize) -> (tick: Option<Tick>)
    ensures
        tick == if at <= buf.len() && buf.len() - at >= 20 {
            Some(spec_tick_at(buf@, at as int))
        } else {
            None
        },
{
    if at > buf.len() || buf.len() - at < TICK_WIDTH {
        return None;
    }
    Some(
        Tick {
            millisecs: read_be_u32(buf, at),
            ask: read_be_u32(buf, at + 4),
            bid: read_be_u32(buf, at + 8),
            asksize_bits: read_be_u32(buf, at + 12),
            bidsize_bits: read_be_u32(buf, at + 16),
        },
    )
}

/// Decodes every whole record of `buf`, in order.
pub fn decode_ticks(buf: &Vec<u8>) -> (ticks: Vec<Tick>)
    ensures
        ticks@ == spec_ticks(buf@, 0),
{
    let mut ticks: Vec<Tick> = Vec::new();
    let mut at: usize = 0;
    while buf.len() - at >= TICK_WIDTH
        invariant
            at <= buf.len(),
            at == 20 * ticks.len(),
            ticks.len() <= spec_tick_count(buf@, 0),
            forall|i: int| 0 <= i < ticks.len() ==> ticks[i] == spec_tick_at(buf@, 20 * i),
        decreases buf.len() - at,
    {
        match decode_tick(buf, at) {
            Some(tick) => ticks.push(tick),
            None => {},
        }
        at = at + TICK_WIDTH;
    }
    assert(ticks@ =~= spec_ticks(buf@, 0));
    ticks
}

} // verus!
