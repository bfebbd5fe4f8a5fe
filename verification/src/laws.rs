//! What holds of every traversal, proved from the definitions that the
//! contracts use.

use vstd::prelude::*;
use crate::chain::{spec_chain, spec_drain, spec_read, spec_records};
use crate::payload::{spec_decompressed, spec_payload, Bi5Error};
use crate::resolve::spec_to_datetime;
use crate::source::{
    spec_enter, spec_forward, spec_iter, spec_open_dir, spec_tagged, Bi5IterView, Forwarded, Opened,
    PathKind, Step, WalkAction, WalkEvent,
};
use crate::tick::{spec_tick_at, spec_ticks, Tick};
use crate::timestamp::Timestamp;

verus! {

/// `a` is `b` or earlier than `b`.
pub open spec fn spec_not_after(a: Timestamp, b: Timestamp) -> bool {
    a == b || a.spec_before(&b)
}

/// Every file that `rest` found starts at `t` or later.
pub open spec fn spec_found_from(rest: Seq<Forwarded>, t: Timestamp) -> bool {
    forall|k: int|
        0 <= k < rest.len() ==> (#[trigger] rest[k] matches Forwarded::Found(a, _)
            ==> spec_not_after(t, a))
}

/// The files that `rest` found come in ascending order of their period
/// starts: none is earlier than one before it.
pub open spec fn spec_ascending(rest: Seq<Forwarded>) -> bool {
    forall|i: int, j: int|
        0 <= i < j < rest.len() ==> match (#[trigger] rest[i], #[trigger] rest[j]) {
            (Forwarded::Found(a, _), Forwarded::Found(b, _)) => spec_not_after(a, b),
            _ => true,
        }
}

/// Time is a strict total order on timestamps, so a sort by it is well
/// defined: nothing is before itself, of two different timestamps one is
/// before the other, and what is before an earlier one is before a later one.
pub proof fn lemma_time_is_a_total_order(a: Timestamp, b: Timestamp, c: Timestamp)
    ensures
        !a.spec_before(&a),
        a != b ==> (a.spec_before(&b) || b.spec_before(&a)),
        !(a.spec_before(&b) && b.spec_before(&a)),
        a.spec_before(&b) && b.spec_before(&c) ==> a.spec_before(&c),
{
}

/// A payload of `n` whole records decodes to exactly `n` items: the `i`-th
/// is the record in the bytes `20 * i` to `20 * i + 19`, so the records
/// neither overlap nor leave a gap.
pub proof fn lemma_payload_shape(bytes: Seq<u8>, n: nat, date_time: Timestamp)
    requires
        bytes.len() == 20 * n,
    ensures
        spec_ticks(bytes, 0).len() == n,
        spec_tagged(bytes, 0, date_time).len() == n,
        forall|i: int|
            0 <= i < n ==> spec_tagged(bytes, 0, date_time)[i] == (
                date_time,
                spec_tick_at(bytes, 20 * i),
            ),
        spec_records(spec_tagged(bytes, 0, date_time)) == spec_ticks(bytes, 0),
{
    assert(spec_records(spec_tagged(bytes, 0, date_time)) =~= spec_ticks(bytes, 0));
}

/// A pull on a traversal whose file holds a record yields the first pending
/// item and leaves the others, in their order.
pub proof fn lemma_next_takes_head(state: Bi5IterView)
    requires
        state.spec_pending().len() > 0,
    ensures
        state.spec_step() == Step::Item(state.spec_pending()[0].0, state.spec_pending()[0].1),
        state.spec_after_next().spec_pending() == state.spec_pending().skip(1),
{
    assert(state.spec_after_next().spec_pending() =~= state.spec_pending().skip(1));
}

/// A file whose decompressed payload is `n` records long reads as exactly
/// those `n` records.
pub proof fn lemma_file_reads_every_record(
    compressed: Vec<u8>,
    payload: Seq<u8>,
    n: nat,
    date_time: Option<Timestamp>,
    rest: Seq<Forwarded>,
)
    requires
        spec_decompressed(compressed@) == Some(payload),
        payload.len() == 20 * n,
    ensures
        spec_read(PathKind::File, date_time, Opened::Contents(Some(compressed)), rest) == Ok::<
            Seq<Tick>,
            Bi5Error,
        >(spec_ticks(payload, 0)),
        spec_ticks(payload, 0).len() == n,
{
    let ts = match date_time {
        Some(t) => t,
        None => crate::timestamp::spec_zero_timestamp(),
    };
    lemma_payload_shape(payload, n, ts);
}

/// A file of no bytes reads as no records, without an error.
pub proof fn lemma_empty_file_reads_nothing(
    compressed: Vec<u8>,
    date_time: Option<Timestamp>,
    rest: Seq<Forwarded>,
)
    requires
        compressed@.len() == 0,
    ensures
        spec_read(PathKind::File, date_time, Opened::Contents(Some(compressed)), rest) == Ok::<
            Seq<Tick>,
            Bi5Error,
        >(Seq::empty()),
{
    let ts = match date_time {
        Some(t) => t,
        None => crate::timestamp::spec_zero_timestamp(),
    };
    assert(spec_records(spec_tagged(Seq::<u8>::empty(), 0, ts)) =~= Seq::<Tick>::empty());
}

/// Every file whose decompressed payload is no whole number of records is
/// refused with a format error that carries the payload's length and the
/// record width: decoding it, opening it and reading it all fail so.
pub proof fn lemma_ragged_payload_is_refused(
    compressed: Vec<u8>,
    payload: Seq<u8>,
    date_time: Option<Timestamp>,
    rest: Seq<Forwarded>,
)
    requires
        spec_decompressed(compressed@) == Some(payload),
        payload.len() % 20 != 0,
    ensures
        spec_payload(compressed@) == Err::<Seq<u8>, Bi5Error>(
            Bi5Error::Format { len: payload.len() as usize, width: 20 },
        ),
        spec_iter(
            PathKind::File,
            match date_time {
                Some(t) => t,
                None => crate::timestamp::spec_zero_timestamp(),
            },
            Opened::Contents(Some(compressed)),
        ) == Err::<Bi5IterView, Bi5Error>(
            Bi5Error::Format { len: payload.len() as usize, width: 20 },
        ),
        spec_read(PathKind::File, date_time, Opened::Contents(Some(compressed)), rest) == Err::<
            Seq<Tick>,
            Bi5Error,
        >(Bi5Error::Format { len: payload.len() as usize, width: 20 }),
{
}

/// The traversal of a directory is the chain of its first file and the files
/// that follow.
pub proof fn lemma_directory_is_chain(first: Forwarded, rest: Seq<Forwarded>)
    requires
        spec_open_dir(first) is Ok,
    ensures
        spec_drain(spec_open_dir(first)->Ok_0, rest) == spec_chain(seq![first] + rest),
{
    let all = seq![first] + rest;
    assert(all[0] == first);
    assert(all.skip(1) =~= rest);
}

/// No item of a chain is earlier than a time that none of its files is
/// earlier than.
pub proof fn lemma_chain_starts_from(rest: Seq<Forwarded>, t: Timestamp)
    requires
        spec_found_from(rest, t),
    ensures
        forall|i: int|
            0 <= i < spec_chain(rest).len() ==> spec_not_after(t, #[trigger] spec_chain(rest)[i].0),
    decreases rest.len(),
{
    if rest.len() > 0 && spec_enter(rest[0]) is Dir {
        let head = spec_enter(rest[0]).spec_pending();
        let tail = spec_chain(rest.skip(1));
        assert(rest[0] is Found);
        assert forall|k: int| 0 <= k < rest.skip(1).len() implies (#[trigger] rest.skip(1)[k] matches Forwarded::Found(
            a,
            _,
        ) ==> spec_not_after(t, a)) by {
            assert(rest.skip(1)[k] == rest[k + 1]);
        }
        lemma_chain_starts_from(rest.skip(1), t);
        assert forall|i: int| 0 <= i < spec_chain(rest).len() implies spec_not_after(
            t,
            #[trigger] spec_chain(rest)[i].0,
        ) by {
            if i >= head.len() {
                assert(spec_chain(rest)[i] == tail[i - head.len()]);
            }
        }
    }
}

/// Where the files of a directory come in ascending order of their period
/// starts, the timestamps of the items never decrease: the records of one
/// file stand together, before every record of a later file.
pub proof fn lemma_chain_is_ordered(rest: Seq<Forwarded>)
    requires
        spec_ascending(rest),
    ensures
        forall|i: int, j: int|
            0 <= i < j < spec_chain(rest).len() ==> spec_not_after(
                #[trigger] spec_chain(rest)[i].0,
                #[trigger] spec_chain(rest)[j].0,
            ),
    decreases rest.len(),
{
    if rest.len() > 0 && spec_enter(rest[0]) is Dir {
        let head = spec_enter(rest[0]).spec_pending();
        let tail = spec_chain(rest.skip(1));
        let t = spec_enter(rest[0])->Dir_date_time;
        assert(rest[0] is Found);
        assert forall|i: int, j: int| 0 <= i < j < rest.skip(1).len() implies match (
            #[trigger] rest.skip(1)[i],
            #[trigger] rest.skip(1)[j],
        ) {
            (Forwarded::Found(a, _), Forwarded::Found(b, _)) => spec_not_after(a, b),
            _ => true,
        } by {
            assert(rest.skip(1)[i] == rest[i + 1]);
            assert(rest.skip(1)[j] == rest[j + 1]);
        }
        assert forall|k: int| 0 <= k < rest.skip(1).len() implies (#[trigger] rest.skip(1)[k] matches Forwarded::Found(
            a,
            _,
        ) ==> spec_not_after(t, a)) by {
            assert(rest.skip(1)[k] == rest[k + 1]);
        }
        lemma_chain_is_ordered(rest.skip(1));
        lemma_chain_starts_from(rest.skip(1), t);
        assert forall|i: int, j: int| 0 <= i < j < spec_chain(rest).len() implies spec_not_after(
            #[trigger] spec_chain(rest)[i].0,
            #[trigger] spec_chain(rest)[j].0,
        ) by {
            if i >= head.len() {
                assert(spec_chain(rest)[i] == tail[i - head.len()]);
                assert(spec_chain(rest)[j] == tail[j - head.len()]);
            } else if j >= head.len() {
                assert(spec_chain(rest)[j] == tail[j - head.len()]);
            }
        }
    }
}

/// The same of a whole directory: where its first file and the files that
/// follow come in ascending order of their period starts, the timestamps of
/// the items that its traversal yields never decrease.
pub proof fn lemma_directory_is_ordered(first: Forwarded, rest: Seq<Forwarded>)
    requires
        spec_open_dir(first) is Ok,
        spec_ascending(seq![first] + rest),
    ensures
        forall|i: int, j: int|
            0 <= i < j < spec_drain(spec_open_dir(first)->Ok_0, rest).len() ==> spec_not_after(
                #[trigger] spec_drain(spec_open_dir(first)->Ok_0, rest)[i].0,
                #[trigger] spec_drain(spec_open_dir(first)->Ok_0, rest)[j].0,
            ),
{
    lemma_directory_is_chain(first, rest);
    lemma_chain_is_ordered(seq![first] + rest);
}

/// An entry that is no regular file, or whose path encodes no timestamp, is
/// passed over: it is neither opened nor an error.
pub proof fn lemma_unqualified_entry_is_skipped(is_file: bool, segments: Vec<Option<String>>)
    requires
        !is_file || spec_to_datetime(is_file, segments@) is None,
    ensures
        spec_forward(WalkEvent::Entry { is_file, segments }) == WalkAction::Skip,
{
}

/// A traversal that is done stays done: a further pull changes nothing and
/// yields nothing. A directory whose walk is over is done.
pub proof fn lemma_done_stays_done(state: Bi5IterView)
    requires
        state.spec_step() == Step::Done,
    ensures
        state.spec_after_next() == state,
        state.spec_after_next().spec_step() == Step::Done,
        spec_enter(Forwarded::Finished).spec_step() == Step::Done,
        spec_enter(Forwarded::Failed).spec_step() == Step::Done,
{
}

} // verus!
