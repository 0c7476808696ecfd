//! Classification of filesystem notifications.
//!
//! The watch subsystem reports low-level events for the followed path. The
//! reader only cares whether the file may still grow or is gone, so every
//! event collapses to one of two classifications, or to none at all.

use vstd::prelude::*;

verus! {

/// The latest externally observed disposition of the watched path.
///
/// `WaitingEof` is not set by the classifier: the reader stores it when it
/// parks itself at end of file, so that a later wake-up can be told apart
/// from a notification that arrived while the reader was still running.
#[derive(Clone, Copy, Debug, PartialEq, Eq, Structural)]
pub enum FileClassification {
    Modified,
    Deleted,
    WaitingEof,
}

/// The shape of a low-level watch event, reduced to what the classifier reads.
#[derive(Clone, Copy, Debug, PartialEq, Eq, Structural)]
pub enum RawEventKind {
    /// The file's name changed (a rename of the watched path).
    NameChanged,
    /// The file was removed.
    Removed,
    /// The file's content or metadata changed in place.
    ContentModified,
    /// Anything else: access, creation, or an unrecognized event.
    Other,
}

/// How a raw event kind is classified: a rename or a removal means the path
/// no longer names the file that was opened, so both count as a deletion;
/// any other mutation counts as a modification; the rest is ignored.
pub open spec fn classification_of(kind: RawEventKind) -> Option<FileClassification> {
    match kind {
        RawEventKind::NameChanged => Some(FileClassification::Deleted),
        RawEventKind::Removed => Some(FileClassification::Deleted),
        RawEventKind::ContentModified => Some(FileClassification::Modified),
        RawEventKind::Other => None,
    }
}

/// Classifies one raw event kind.
pub fn classify(kind: RawEventKind) -> (c: Option<FileClassification>)
    ensures
        c == classification_of(kind),
{
    match kind {
        RawEventKind::NameChanged => Some(FileClassification::Deleted),
        RawEventKind::Removed => Some(FileClassification::Deleted),
        RawEventKind::ContentModified => Some(FileClassification::Modified),
        RawEventKind::Other => None,
    }
}

} // verus!
