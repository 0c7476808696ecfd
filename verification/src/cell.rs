//! The shared notification cell.
//!
//! The cell is the one rendezvous point between the watch callback and the
//! reader: it holds the latest classification and, while the reader is parked
//! at end of file, the fact that a reader is waiting to be resumed. The
//! caller guards the cell with a mutual-exclusion lock and keeps the actual
//! resumable handle beside it; `reader_waiting` here stands for that handle,
//! and it is the caller's part to store one exactly when the flag is set.

use vstd::prelude::*;
use crate::events::FileClassification;

verus! {

/// The contents of the shared notification cell: the latest classification
/// of the watched path, and whether a suspended reader awaits a resume.
#[derive(Clone, Copy, Debug, PartialEq, Eq, Structural)]
pub struct SharedState {
    pub classification: FileClassification,
    pub reader_waiting: bool,
}

impl SharedState {
    /// A fresh cell: the path is taken as just modified, so that the first
    /// poll reads whatever the file already holds, and no reader waits yet.
    pub fn new() -> (cell: SharedState)
        ensures
            cell.classification == FileClassification::Modified,
            !cell.reader_waiting,
    {
        SharedState { classification: FileClassification::Modified, reader_waiting: false }
    }

    /// Parks the reader: records that a resume is awaited and that, from the
    /// reader's point of view, nothing new has been observed since this
    /// end of file.
    pub fn register_reader(&mut self)
        ensures
            final(self).classification == FileClassification::WaitingEof,
            final(self).reader_waiting,
    {
        self.classification = FileClassification::WaitingEof;
        self.reader_waiting = true;
    }
}

/// The classifier's handle on the shared cell. The watch callback owns one
/// and drives it with each classification; waking the suspended reader is
/// done by the caller when `wake` reports that one was taken.
pub struct WakerWrapper {
    pub shared_state: SharedState,
}

impl WakerWrapper {
    /// Wraps a fresh cell.
    pub fn new() -> (w: WakerWrapper)
        ensures
            w.shared_state.classification == FileClassification::Modified,
            !w.shared_state.reader_waiting,
    {
        WakerWrapper { shared_state: SharedState::new() }
    }

    /// Stores the new classification and takes the suspended reader, if one
    /// was registered; the result says whether a resume is owed.
    pub fn wake(&mut self, state: FileClassification) -> (resumed: bool)
        ensures
            final(self).shared_state.classification == state,
            !final(self).shared_state.reader_waiting,
            resumed == old(self).shared_state.reader_waiting,
    {
        self.shared_state.classification = state;
        let resumed = self.shared_state.reader_waiting;
        self.shared_state.reader_waiting = false;
        resumed
    }
}

} // verus!
