//! A file or a directory of tick data, and the traversal over its records.
//!
//! The traversal never touches the file system. Its driver reads files and
//! walks directories, and reports what it found: the bytes of a file as
//! `Option<Vec<u8>>` (`None` where reading failed), one step of a directory
//! walk as a `WalkEvent`, the outcome of forwarding the walk to the next
//! qualifying file as a `Forwarded`.

use vstd::prelude::*;
use crate::payload::{decode_payload, spec_payload, Bi5Error};
use crate::resolve::{spec_to_datetime, to_datetime};
use crate::tick::{decode_tick, spec_tick_at, spec_tick_count, Tick, TICK_WIDTH};
use crate::timestamp::{spec_zero_timestamp, zero_timestamp, Timestamp};

verus! {

/// What the file system says a path is.
#[derive(Clone, Copy, Debug, PartialEq, Eq, Structural)]
pub enum PathKind {
    File,
    Dir,
    Other,
}

/// One step of a directory walk.
#[derive(Debug)]
pub enum WalkEvent {
    /// The walk reached an entry: whether it is a regular file, and the
    /// components of its path.
    Entry { is_file: bool, segments: Vec<Option<String>> },
    /// The walk could not read an entry.
    Failed,
    /// The walk has no entries left.
    Finished,
}

/// What to do with one step of a directory walk.
#[derive(Clone, Copy, Debug, PartialEq, Eq, Structural)]
pub enum WalkAction {
    /// Pass over the entry and take the next step.
    Skip,
    /// Read the entry as the file of the period that starts at the timestamp.
    Open(Timestamp),
    /// Give up: the walk failed.
    Fail,
    /// Stop: the walk is over.
    Finish,
}

/// The outcome of forwarding a directory walk to its next qualifying file.
#[derive(Debug)]
pub enum Forwarded {
    /// The file's period start, and its bytes or `None` where reading failed.
    Found(Timestamp, Option<Vec<u8>>),
    /// The walk is over.
    Finished,
    /// The walk failed.
    Failed,
}

/// What the driver found at the path of a source.
#[derive(Debug)]
pub enum Opened {
    /// The bytes of the file, or `None` where reading failed.
    Contents(Option<Vec<u8>>),
    /// The first qualifying file of the directory.
    Walk(Forwarded),
}

/// One pull on a traversal.
#[derive(Clone, Copy, Debug, PartialEq, Eq, Structural)]
pub enum Step {
    /// The next record, with the period start of its file.
    Item(Timestamp, Tick),
    /// The current file of a directory is used up: forward the walk and
    /// `resume` with the outcome.
    NextFile,
    /// Nothing is left.
    Done,
}

/// A bi5 file or a directory of them.
#[derive(Debug)]
pub struct Bi5 {
    path: String,
    kind: PathKind,
    date_time: Timestamp,
}

/// The traversal of a source: the payload of the file that is being decoded,
/// the place of its next record, and the period start of that file.
#[derive(Debug)]
pub enum Bi5Iter {
    File { buf: Vec<u8>, pos: usize, date_time: Timestamp },
    Dir { buf: Vec<u8>, pos: usize, date_time: Timestamp },
    Empty,
}

/// A traversal as a mathematical value.
pub enum Bi5IterView {
    File { bytes: Seq<u8>, pos: int, date_time: Timestamp },
    Dir { bytes: Seq<u8>, pos: int, date_time: Timestamp },
    Empty,
}

impl View for Bi5Iter {
    type V = Bi5IterView;

    open spec fn view(&self) -> Bi5IterView {
        match *self {
            Bi5Iter::File { buf, pos, date_time } => Bi5IterView::File {
                bytes: buf@,
                pos: pos as int,
                date_time,
            },
            Bi5Iter::Dir { buf, pos, date_time } => Bi5IterView::Dir {
                bytes: buf@,
                pos: pos as int,
                date_time,
            },
            Bi5Iter::Empty => Bi5IterView::Empty,
        }
    }
}

/// The records of a payload from `pos` on, each with the timestamp `date_time`.
pub open spec fn spec_tagged(bytes: Seq<u8>, pos: int, date_time: Timestamp) -> Seq<
    (Timestamp, Tick),
> {
    Seq::new(spec_tick_count(bytes, pos), |i: int| (date_time, spec_tick_at(bytes, pos + 20 * i)))
}

impl Bi5IterView {
    /// The items that the current file still holds, in the order in which
    /// they will be yielded.
    pub open spec fn spec_pending(self) -> Seq<(Timestamp, Tick)> {
        match self {
            Bi5IterView::File { bytes, pos, date_time } => spec_tagged(bytes, pos, date_time),
            Bi5IterView::Dir { bytes, pos, date_time } => spec_tagged(bytes, pos, date_time),
            Bi5IterView::Empty => Seq::empty(),
        }
    }

    /// What a pull returns.
    pub open spec fn spec_step(self) -> Step {
        if self.spec_pending().len() > 0 {
            Step::Item(self.spec_pending()[0].0, self.spec_pending()[0].1)
        } else if self is Dir {
            Step::NextFile
        } else {
            Step::Done
        }
    }

    /// The traversal after a pull: one record further where one was left,
    /// unchanged otherwise.
    pub open spec fn spec_after_next(self) -> Bi5IterView {
        if self.spec_pending().len() > 0 {
            match self {
                Bi5IterView::File { bytes, pos, date_time } => Bi5IterView::File {
                    bytes,
                    pos: pos + 20,
                    date_time,
                },
                Bi5IterView::Dir { bytes, pos, date_time } => Bi5IterView::Dir {
                    bytes,
                    pos: pos + 20,
                    date_time,
                },
                Bi5IterView::Empty => Bi5IterView::Empty,
            }
        } else {
            self
        }
    }

    /// Whether the traversal waits for the next file of its directory.
    pub open spec fn spec_wants_file(self) -> bool {
        self is Dir && self.spec_pending().len() == 0
    }
}

/// The payload of a file that the driver tried to read.
pub open spec fn spec_fetched(contents: Option<Vec<u8>>) -> Result<Seq<u8>, Bi5Error> {
    match contents {
        Some(compressed) => spec_payload(compressed@),
        None => Err(Bi5Error::Io),
    }
}

/// The traversal that begins at a file with the given bytes.
pub open spec fn spec_open_file(contents: Option<Vec<u8>>, date_time: Timestamp) -> Result<
    Bi5IterView,
    Bi5Error,
> {
    match spec_fetched(contents) {
        Ok(bytes) => Ok(Bi5IterView::File { bytes, pos: 0, date_time }),
        Err(e) => Err(e),
    }
}

/// The traversal that begins at a directory whose walk was forwarded to its
/// first qualifying file.
pub open spec fn spec_open_dir(first: Forwarded) -> Result<Bi5IterView, Bi5Error> {
    match first {
        Forwarded::Found(date_time, contents) => match spec_fetched(contents) {
            Ok(bytes) => Ok(Bi5IterView::Dir { bytes, pos: 0, date_time }),
            Err(e) => Err(e),
        },
        Forwarded::Finished => Ok(Bi5IterView::Empty),
        Forwarded::Failed => Err(Bi5Error::Io),
    }
}

/// The traversal of a directory once its walk was forwarded to the next
/// qualifying file: that file's records, or nothing more where the walk is
/// over or anything failed.
pub open spec fn spec_enter(next: Forwarded) -> Bi5IterView {
    match spec_open_dir(next) {
        Ok(view) => view,
        Err(_) => Bi5IterView::Empty,
    }
}

/// What `Bi5::iter` returns.
pub open spec fn spec_iter(kind: PathKind, date_time: Timestamp, opened: Opened) -> Result<
    Bi5IterView,
    Bi5Error,
> {
    match (kind, opened) {
        (PathKind::File, Opened::Contents(contents)) => spec_open_file(contents, date_time),
        (PathKind::Dir, Opened::Walk(first)) => spec_open_dir(first),
        (PathKind::Other, _) => Err(Bi5Error::NotFileOrDir),
        _ => Err(Bi5Error::Io),
    }
}

/// What to do with one step of a walk: open a regular file whose path encodes
/// a timestamp, pass over every other entry.
pub open spec fn spec_forward(event: WalkEvent) -> WalkAction {
    match event {
        WalkEvent::Entry { is_file, segments } => match spec_to_datetime(is_file, segments@) {
            Some(ts) => WalkAction::Open(ts),
            None => WalkAction::Skip,
        },
        WalkEvent::Failed => WalkAction::Fail,
        WalkEvent::Finished => WalkAction::Finish,
    }
}

/// Whether `result` is the traversal or the error `expected`.
pub open spec fn spec_same_iter(
    result: Result<Bi5Iter, Bi5Error>,
    expected: Result<Bi5IterView, Bi5Error>,
) -> bool {
    match result {
        Ok(iter) => expected == Ok::<Bi5IterView, Bi5Error>(iter@),
        Err(e) => expected == Err::<Bi5IterView, Bi5Error>(e),
    }
}

/// Decodes the bytes of a file that the driver tried to read.
fn fetch(contents: &Option<Vec<u8>>) -> (payload: Result<Vec<u8>, Bi5Error>)
    ensures
        crate::payload::spec_same_result(payload, spec_fetched(*contents)),
{
    match contents {
        Some(compressed) => decode_payload(compressed),
        None => Err(Bi5Error::Io),
    }
}

impl Bi5 {
    /// A source at `path`, which the file system says is a `kind`. The
    /// timestamp is the period start of a single file; without one the zero
    /// timestamp stands in.
    pub fn new(path: &str, kind: PathKind, date_time: Option<Timestamp>) -> (source: Bi5)
        ensures
            source.spec_path() == path@,
            source.spec_kind() == kind,
            source.spec_date_time() == match date_time {
                Some(ts) => ts,
                None => spec_zero_timestamp(),
            },
    {
        let date_time: Timestamp = match date_time {
            Some(ts) => ts,
            None => zero_timestamp(),
        };
        Bi5 { path: path.to_owned(), kind, date_time }
    }

    pub closed spec fn spec_path(&self) -> Seq<char> {
        self.path@
    }

    pub closed spec fn spec_kind(&self) -> PathKind {
        self.kind
    }

    pub closed spec fn spec_date_time(&self) -> Timestamp {
        self.date_time
    }

    /// The path of the source.
    pub fn path(&self) -> (path: &str)
        ensures
            path@ == self.spec_path(),
    {
        self.path.as_str()
    }

    /// The period start of the source.
    pub fn date_time(&self) -> (ts: Timestamp)
        ensures
            ts == self.spec_date_time(),
    {
        self.date_time
    }

    /// Whether the source is a regular file.
    pub fn is_file(&self) -> (file: bool)
        ensures
            file == (self.spec_kind() == PathKind::File),
    {
        match self.kind {
            PathKind::File => true,
            _ => false,
        }
    }

    /// Decides what to do with one step of a directory walk: a regular file
    /// whose path encodes a timestamp is opened, every other entry is passed
    /// over without an error.
    pub fn forward_to_next_good_file(event: &WalkEvent) -> (action: WalkAction)
        ensures
            action == spec_forward(*event),
    {
        match event {
            WalkEvent::Entry { is_file, segments } => match to_datetime(*is_file, segments) {
                Some(ts) => WalkAction::Open(ts),
                None => WalkAction::Skip,
            },
            WalkEvent::Failed => WalkAction::Fail,
            WalkEvent::Finished => WalkAction::Finish,
        }
    }

    /// Begins the traversal of the source with what the driver found at its
    /// path.
    ///
    /// A file is decompressed and checked at once; an empty file is a
    /// traversal without records. A directory starts at its first qualifying
    /// file, and is empty where it has none. The errors: `NotFileOrDir` for a
    /// path that is neither; `Io` where reading or walking failed, or where
    /// `opened` is not what a path of this kind gives; `Decompress` and
    /// `Format` from the file's bytes.
    pub fn iter(&self, opened: &Opened) -> (iter: Result<Bi5Iter, Bi5Error>)
        ensures
            spec_same_iter(iter, spec_iter(self.spec_kind(), self.spec_date_time(), *opened)),
    {
        match self.kind {
            PathKind::Other => Err(Bi5Error::NotFileOrDir),
            PathKind::File => match opened {
                Opened::Contents(contents) => match fetch(contents) {
                    Ok(buf) => Ok(Bi5Iter::File { buf, pos: 0, date_time: self.date_time }),
                    Err(e) => Err(e),
                },
                Opened::Walk(_) => Err(Bi5Error::Io),
            },
            PathKind::Dir => match opened {
                Opened::Walk(first) => match first {
                    Forwarded::Found(date_time, contents) => match fetch(contents) {
                        Ok(buf) => Ok(Bi5Iter::Dir { buf, pos: 0, date_time: *date_time }),
                        Err(e) => Err(e),
                    },
                    Forwarded::Finished => Ok(Bi5Iter::Empty),
                    Forwarded::Failed => Err(Bi5Error::Io),
                },
                Opened::Contents(_) => Err(Bi5Error::Io),
            },
        }
    }
}

impl Bi5Iter {
    /// Pulls the next item.
    ///
    /// While the current file holds a record, that record is yielded with the
    /// file's period start and the traversal moves one record on. After that a
    /// file or an empty traversal is done, and stays done; a directory asks
    /// for its next file.
    pub fn next(&mut self) -> (step: Step)
        ensures
            step == old(self)@.spec_step(),
            final(self)@ == old(self)@.spec_after_next(),
    {
        match self {
            Bi5Iter::Empty => Step::Done,
            Bi5Iter::File { buf, pos, date_time } => match decode_tick(buf, *pos) {
                Some(tick) => {
                    *pos = *pos + TICK_WIDTH;
                    Step::Item(*date_time, tick)
                },
                None => Step::Done,
            },
            Bi5Iter::Dir { buf, pos, date_time } => match decode_tick(buf, *pos) {
                Some(tick) => {
                    *pos = *pos + TICK_WIDTH;
                    Step::Item(*date_time, tick)
                },
                None => Step::NextFile,
            },
        }
    }

    /// Takes the outcome of forwarding the walk, after a pull that asked for
    /// the next file.
    ///
    /// A directory whose current file is used up goes on with the file that
    /// was found; where the walk is over, the walk or the file failed, it
    /// becomes empty for good. Any other traversal is left as it is.
    pub fn resume(&mut self, next: &Forwarded)
        ensures
            final(self)@ == if old(self)@.spec_wants_file() {
                spec_enter(*next)
            } else {
                old(self)@
            },
    {
        let wants: bool = match self {
            Bi5Iter::Dir { buf, pos, date_time } => *pos > buf.len() || buf.len() - *pos
                < TICK_WIDTH,
            _ => false,
        };
        if wants {
            let entered: Bi5Iter = match next {
                Forwarded::Found(date_time, contents) => match fetch(contents) {
                    Ok(buf) => Bi5Iter::Dir { buf, pos: 0, date_time: *date_time },
                    Err(_) => Bi5Iter::Empty,
                },
                _ => Bi5Iter::Empty,
            };
            *self = entered;
        }
    }
}

} // verus!
