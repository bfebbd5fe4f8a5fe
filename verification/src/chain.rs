//! A whole traversal: the records of the first file, then those of every
//! file that the walk is forwarded to, one file after the other.

use vstd::prelude::*;
use crate::payload::Bi5Error;
use crate::source::{
    spec_enter, spec_iter, Bi5, Bi5Iter, Bi5IterView, Forwarded, Opened, PathKind, Step,
};
use crate::tick::Tick;
use crate::timestamp::{spec_zero_timestamp, Timestamp};

verus! {

/// The items of a directory from the next forward of its walk on. `rest`
/// holds the outcomes of forwarding the walk, in order; the traversal ends
/// at the first that brings no file.
pub open spec fn spec_chain(rest: Seq<Forwarded>) -> Seq<(Timestamp, Tick)>
    decreases rest.len(),
{
    if rest.len() == 0 {
        Seq::empty()
    } else if spec_enter(rest[0]) is Dir {
        spec_enter(rest[0]).spec_pending() + spec_chain(rest.skip(1))
    } else {
        Seq::empty()
    }
}

/// Every item that a traversal yields from its state on.
pub open spec fn spec_drain(state: Bi5IterView, rest: Seq<Forwarded>) -> Seq<(Timestamp, Tick)> {
    if state is Dir {
        state.spec_pending() + spec_chain(rest)
    } else {
        state.spec_pending()
    }
}

/// The records of a sequence of items, without their timestamps.
pub open spec fn spec_records(items: Seq<(Timestamp, Tick)>) -> Seq<Tick> {
    Seq::new(items.len(), |i: int| items[i].1)
}

/// What `read_bi5_file` returns.
pub open spec fn spec_read(
    kind: PathKind,
    date_time: Option<Timestamp>,
    opened: Opened,
    rest: Seq<Forwarded>,
) -> Result<Seq<Tick>, Bi5Error> {
    let start = match date_time {
        Some(ts) => ts,
        None => spec_zero_timestamp(),
    };
    match spec_iter(kind, start, opened) {
        Ok(state) => Ok(spec_records(spec_drain(state, rest))),
        Err(e) => Err(e),
    }
}

impl Bi5Iter {
    /// Pulls until nothing is left and returns every item in order. Each time
    /// a directory asks for its next file it gets the next element of `rest`;
    /// where `rest` has run out, the traversal ends.
    pub fn drain(self, rest: &Vec<Forwarded>) -> (items: Vec<(Timestamp, Tick)>)
        ensures
            items@ == spec_drain(self@, rest@),
    {
        let mut iter: Bi5Iter = self;
        let mut items: Vec<(Timestamp, Tick)> = Vec::new();
        let mut used: usize = 0;
        let mut done: bool = false;
        assert(rest@.skip(0) =~= rest@);
        while !done
            invariant
                used <= rest.len(),
                items@ + spec_drain(iter@, rest@.skip(used as int)) =~= spec_drain(self@, rest@),
                done ==> spec_drain(iter@, rest@.skip(used as int)).len() == 0,
            decreases
                    if done { 0int } else { 1int },
                    rest.len() - used,
                    iter@.spec_pending().len(),
        {
            let ghost before = iter@;
            match iter.next() {
                Step::Item(date_time, tick) => {
                    items.push((date_time, tick));
                    assert(iter@.spec_pending() =~= before.spec_pending().skip(1));
                },
                Step::Done => {
                    done = true;
                },
                Step::NextFile => {
                    if used < rest.len() {
                        assert(rest@.skip(used as int).skip(1) =~= rest@.skip(used + 1));
                        iter.resume(&rest[used]);
                        used = used + 1;
                    } else {
                        done = true;
                    }
                },
            }
        }
        items
    }
}

/// Decompresses and decodes a source and returns its records.
///
/// `opened` is what the driver found at the path, `rest` the outcomes of
/// forwarding the walk of a directory after its first file, in order. The
/// errors are those of `Bi5::iter`.
pub fn read_bi5_file(
    path: &str,
    kind: PathKind,
    date_time: Option<Timestamp>,
    opened: &Opened,
    rest: &Vec<Forwarded>,
) -> (ticks: Result<Vec<Tick>, Bi5Error>)
    ensures
        match ticks {
            Ok(t) => spec_read(kind, date_time, *opened, rest@) == Ok::<Seq<Tick>, Bi5Error>(t@),
            Err(e) => spec_read(kind, date_time, *opened, rest@) == Err::<Seq<Tick>, Bi5Error>(e),
        },
{
    let bi5: Bi5 = Bi5::new(path, kind, date_time);
    match bi5.iter(opened) {
        Ok(iter) => {
            let items: Vec<(Timestamp, Tick)> = iter.drain(rest);
            let mut ticks: Vec<Tick> = Vec::new();
            let mut i: usize = 0;
            while i < items.len()
                invariant
                    i <= items.len(),
                    ticks.len() == i,
                    forall|k: int| 0 <= k < i ==> ticks[k] == items[k].1,
                decreases items.len() - i,
            {
                ticks.push(items[i].1);
                i = i + 1;
            }
            assert(ticks@ =~= spec_records(items@));
            Ok(ticks)
        },
        Err(e) => Err(e),
    }
}

} // verus!
