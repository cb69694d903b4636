//! What a run asks of its driver, and what the driver answers.
//!
//! A run cannot reach the file system. It names one request at a time, an
//! [`Action`]; the driver carries it out and reports how it went with the
//! [`Event`] that belongs to it.

use crate::file_ops::{IoFailure, IoFailureView};
use vstd::prelude::*;

verus! {

/// What the driver found at the origin of an operation.
#[derive(Debug, Clone, Copy, PartialEq, Eq, Structural)]
pub enum SourceKind {
    /// Nothing is there.
    Missing,
    /// A regular file; its length in bytes, zero where it could not be read.
    File(u64),
    Directory,
    /// Something that is neither a regular file nor a directory.
    Other,
}

/// What an entry of a directory tree is.
#[derive(Debug, Clone, Copy, PartialEq, Eq, Structural)]
pub enum EntryKind {
    Directory,
    /// A regular file, with its length where that could be read.
    File(Option<u64>),
    Other,
}

/// One entry met on a walk through a directory tree.
#[derive(Debug, Clone)]
pub struct WalkEntry {
    /// The path of the entry.
    pub path: String,
    /// The path that the entry has on the other side of the transfer: the
    /// path of the entry with the root of the walk replaced by the root of
    /// the other tree. `None` where the entry does not lie under the root.
    pub counterpart: Option<String>,
    pub kind: EntryKind,
}

/// What a [`WalkEntry`] says.
pub struct WalkEntryView {
    pub path: Seq<char>,
    pub counterpart: Option<Seq<char>>,
    pub kind: EntryKind,
}

impl View for WalkEntry {
    type V = WalkEntryView;

    open spec fn view(&self) -> WalkEntryView {
        WalkEntryView {
            path: self.path@,
            counterpart: match self.counterpart {
                Some(p) => Some(p@),
                None => None,
            },
            kind: self.kind,
        }
    }
}

/// The driver's answer to an [`Action`].
#[derive(Debug)]
pub enum Event {
    /// Answers [`Action::ProbeSource`].
    Source(SourceKind),
    /// Answers [`Action::ProbeParent`]: the parent directory of the
    /// destination where there is one to make, `None` where the destination
    /// has no parent or the parent is already there.
    Parent(Option<String>),
    /// Answers a request to create, remove or rename.
    Completed(Result<(), IoFailure>),
    /// Answers [`Action::CopyFile`] with the number of bytes copied.
    Copied(Result<u64, IoFailure>),
    /// Answers [`Action::Verify`]: whether both files are there and have the
    /// same digest.
    Verified(Result<bool, IoFailure>),
    /// Answers [`Action::ProbeTarget`] and [`Action::CompareCanonical`].
    Answer(bool),
    /// Answers [`Action::NextEntry`] with the next entry of the walk, or
    /// with the walker's words where an entry could not be read.
    Entry(Result<WalkEntry, String>),
    /// Answers [`Action::NextEntry`] when the walk is over.
    WalkEnd,
}

/// What an [`Event`] says.
pub enum EventView {
    Source(SourceKind),
    Parent(Option<Seq<char>>),
    Completed(Result<(), IoFailureView>),
    Copied(Result<u64, IoFailureView>),
    Verified(Result<bool, IoFailureView>),
    Answer(bool),
    Entry(Result<WalkEntryView, Seq<char>>),
    WalkEnd,
}

impl View for Event {
    type V = EventView;

    open spec fn view(&self) -> EventView {
        match *self {
            Event::Source(kind) => EventView::Source(kind),
            Event::Parent(parent) => EventView::Parent(
                match parent {
                    Some(p) => Some(p@),
                    None => None,
                },
            ),
            Event::Completed(outcome) => EventView::Completed(
                match outcome {
                    Ok(_) => Ok(()),
                    Err(e) => Err(e@),
                },
            ),
            Event::Copied(outcome) => EventView::Copied(
                match outcome {
                    Ok(n) => Ok(n),
                    Err(e) => Err(e@),
                },
            ),
            Event::Verified(outcome) => EventView::Verified(
                match outcome {
                    Ok(same) => Ok(same),
                    Err(e) => Err(e@),
                },
            ),
            Event::Answer(yes) => EventView::Answer(yes),
            Event::Entry(entry) => EventView::Entry(
                match entry {
                    Ok(e) => Ok(e@),
                    Err(words) => Err(words@),
                },
            ),
            Event::WalkEnd => EventView::WalkEnd,
        }
    }
}

/// What a run asks its driver to do next.
#[derive(Debug, Clone, PartialEq, Eq)]
pub enum Action {
    /// Find out what lies at `path`.
    ProbeSource { path: String },
    /// Find out whether the parent directory of `destination` has to be
    /// made.
    ProbeParent { destination: String },
    /// Create the directory `path` and all that lead to it.
    CreateDirectories { path: String },
    /// Copy the file `source` to `target`; where `throttled`, in chunks,
    /// each followed by what the run's throttle asks for.
    CopyFile { source: String, target: String, throttled: bool },
    /// Compare the digests of `source` and `target`.
    Verify { source: String, target: String },
    /// Remove the file `path`; whether this works does not matter.
    Discard { path: String },
    /// Find out whether anything lies at `path`.
    ProbeTarget { path: String },
    /// Find out whether both paths lead to the same place.
    CompareCanonical { first: String, second: String },
    /// Remove the file `path`.
    RemoveFile { path: String },
    /// Remove the directory `path` with all that is in it.
    RemoveTree { path: String },
    /// Rename `from` to `to`.
    Rename { from: String, to: String },
    /// Hand over the next entry of the walk through the tree under `root`,
    /// the root itself first.
    NextEntry { root: String },
    /// Nothing more: the result is complete.
    Finish,
}

/// What an [`Action`] says.
pub enum ActionView {
    ProbeSource { path: Seq<char> },
    ProbeParent { destination: Seq<char> },
    CreateDirectories { path: Seq<char> },
    CopyFile { source: Seq<char>, target: Seq<char>, throttled: bool },
    Verify { source: Seq<char>, target: Seq<char> },
    Discard { path: Seq<char> },
    ProbeTarget { path: Seq<char> },
    CompareCanonical { first: Seq<char>, second: Seq<char> },
    RemoveFile { path: Seq<char> },
    RemoveTree { path: Seq<char> },
    Rename { from: Seq<char>, to: Seq<char> },
    NextEntry { root: Seq<char> },
    Finish,
}

impl View for Action {
    type V = ActionView;

    open spec fn view(&self) -> ActionView {
        match *self {
            Action::ProbeSource { path } => ActionView::ProbeSource { path: path@ },
            Action::ProbeParent { destination } => ActionView::ProbeParent {
                destination: destination@,
            },
            Action::CreateDirectories { path } => ActionView::CreateDirectories { path: path@ },
            Action::CopyFile { source, target, throttled } => ActionView::CopyFile {
                source: source@,
                target: target@,
                throttled,
            },
            Action::Verify { source, target } => ActionView::Verify {
                source: source@,
                target: target@,
            },
            Action::Discard { path } => ActionView::Discard { path: path@ },
            Action::ProbeTarget { path } => ActionView::ProbeTarget { path: path@ },
            Action::CompareCanonical { first, second } => ActionView::CompareCanonical {
                first: first@,
                second: second@,
            },
            Action::RemoveFile { path } => ActionView::RemoveFile { path: path@ },
            Action::RemoveTree { path } => ActionView::RemoveTree { path: path@ },
            Action::Rename { from, to } => ActionView::Rename { from: from@, to: to@ },
            Action::NextEntry { root } => ActionView::NextEntry { root: root@ },
            Action::Finish => ActionView::Finish,
        }
    }
}

impl ActionView {
    /// True of the requests that change what is on disk.
    pub open spec fn mutates(self) -> bool {
        self is CreateDirectories || self is CopyFile || self is Discard || self is RemoveFile
            || self is RemoveTree || self is Rename
    }
}

/// Where a run stands: which answer it is waiting for.
#[derive(Debug, Clone, Copy, PartialEq, Eq, Structural)]
pub enum Phase {
    /// Waiting to learn what the origin is.
    Source,
    /// Waiting to learn whether the destination's parent has to be made.
    Parent,
    /// The destination's parent is being made.
    ParentCreation,
    /// The single file is being copied.
    FileCopy,
    /// The copy of the single file is being compared with its source.
    FileVerification,
    /// The failed copy of the single file is being removed.
    FileCleanup,
    /// The root of the destination tree is being made.
    RootCreation,
    /// Waiting for the next entry of the source tree.
    Walk,
    /// A directory of the destination tree is being made.
    DirectoryCreation,
    /// A file of the tree is being copied.
    EntryCopy,
    /// The copy of a file of the tree is being compared with its source.
    EntryVerification,
    /// The failed copy of a file of the tree is being removed.
    EntryCleanup,
    /// Waiting to learn whether the destination of a move is taken.
    TargetProbe,
    /// Waiting to learn whether a directory is being moved onto itself.
    Identity,
    /// What was at the destination of a move is being removed.
    Removal,
    /// The source is being renamed.
    Rename,
    /// Waiting to learn whether the destination is there after the move.
    Confirmation,
    /// Waiting for the next entry of the moved tree.
    Inventory,
    /// The result is complete.
    Finished,
}

/// True when `event` is an answer to what a run in `phase` has asked.
pub open spec fn accepts(phase: Phase, event: EventView) -> bool {
    match phase {
        Phase::Source => event is Source,
        Phase::Parent => event is Parent,
        Phase::ParentCreation | Phase::FileCleanup | Phase::RootCreation
        | Phase::DirectoryCreation | Phase::EntryCleanup | Phase::Removal | Phase::Rename =>
            event is Completed,
        Phase::FileCopy | Phase::EntryCopy => event is Copied,
        Phase::FileVerification | Phase::EntryVerification => event is Verified,
        Phase::TargetProbe | Phase::Identity | Phase::Confirmation => event is Answer,
        Phase::Walk | Phase::Inventory => event is Entry || event is WalkEnd,
        Phase::Finished => false,
    }
}

} // verus!
