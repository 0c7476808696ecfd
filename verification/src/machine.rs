//! The file lifecycle state machine.
//!
//! One poll of the follower is a short walk through this machine: drive a
//! pending open, re-synchronize the cursor after a reopen, read, and on end
//! of file decide between suspending, reopening and terminating. The machine
//! holds no file handle itself: the caller performs each step's work (open,
//! seek, read) and feeds the outcome back, so every decision here is checked
//! against the transitions below.

use vstd::prelude::*;
use crate::cell::SharedState;
use crate::events::FileClassification;

verus! {

/// The disposition of the underlying file handle. At most one open or seek
/// is ever in flight; the pending operation itself is held by the caller.
#[derive(Clone, Copy, Debug, PartialEq, Eq, Structural)]
pub enum FileOpenState {
    /// No handle; the next poll starts an open.
    Closed,
    /// An open of the path is in flight.
    Opening,
    /// The handle is open and a seek is in flight to re-synchronize the cursor.
    Seeking,
    /// The handle is open and positioned; reads may proceed.
    Open,
}

/// Whether the handle must be closed at end of file for the platform to
/// surface a pending deletion of the watched path.
#[derive(Clone, Copy, Debug, PartialEq, Eq, Structural)]
pub enum ReopenPolicy {
    /// An open descriptor masks deletion: close at every end of file and
    /// re-synchronize the cursor on reopen.
    CloseOnEof,
    /// Deletion is visible on an open descriptor: keep the handle open, and
    /// reopen only after an inferred truncation, starting again at offset 0.
    KeepOpen,
}

/// How a terminated stream ended.
#[derive(Clone, Copy, Debug, PartialEq, Eq, Structural)]
pub enum StreamEnd {
    /// A clean end: no more bytes will ever arrive.
    EndOfStream,
    /// A fatal error was handed to the consumer.
    Failed,
}

/// The outcome of an open of the watched path, as the caller observed it.
#[derive(Clone, Copy, Debug, PartialEq, Eq, Structural)]
pub enum OpenOutcome {
    Opened,
    /// The path no longer names a file.
    NotFound,
    /// The path was recreated with permissions this stream does not have;
    /// treated like a deletion, since it is no longer the file once opened.
    PermissionDenied,
    /// Any other error: fatal.
    OtherError,
}

/// What the caller must do next with the current poll.
#[derive(Clone, Copy, Debug, PartialEq, Eq, Structural)]
pub enum PollStep {
    /// Start an open of the path if none is in flight, then drive it and
    /// report the outcome.
    DriveOpen,
    /// Issue a seek to the end of the file, then await its completion and
    /// report the position it returns.
    StartSeekEnd,
    /// Issue a seek to the given offset, schedule the poll to run again at
    /// once, and yield.
    StartSeekAt(u64),
    /// Await the completion of the seek in flight and report the position.
    AwaitSeek,
    /// Read from the handle and report data, end of file, or an error.
    ReadNow,
    /// Park the reader: store its resumable handle beside the cell and yield
    /// until the watch callback resumes it.
    Suspend,
    /// Schedule the poll to run again at once and yield, without waiting for
    /// an external event.
    SelfWake,
    /// Hand the bytes just read to the consumer.
    DeliverData,
    /// Report a clean end of stream to the consumer.
    EndOfStream,
    /// Report a fatal error to the consumer.
    Fatal,
}

/// The state a follower carries between polls: the handle's disposition, the
/// read cursor, the end-of-file flag of the previous read, the platform's
/// reopen policy, and whether the stream has terminated.
#[derive(Clone, Copy, Debug, PartialEq, Eq, Structural)]
pub struct FileMachine {
    pub open_state: FileOpenState,
    /// Count of bytes delivered so far: the offset at which the next read
    /// continues after a reopen. Monotone but for the reset to 0 on a
    /// detected or inferred truncation.
    pub last_seek_location: u64,
    /// Whether the previous read on this handle already returned no bytes;
    /// a second end of file without an intervening classification change is
    /// the truncation signal.
    pub at_eof: bool,
    pub policy: ReopenPolicy,
    /// Once set, the stream only ever repeats this terminal answer.
    pub finished: Option<StreamEnd>,
}

/// The state after entering a poll: a closed handle starts opening and the
/// end-of-file flag is cleared; every other state is left as it stands.
pub open spec fn enter_next(m: FileMachine) -> FileMachine {
    if m.finished is Some {
        m
    } else if m.open_state is Closed {
        FileMachine { open_state: FileOpenState::Opening, at_eof: false, ..m }
    } else {
        m
    }
}

/// The work owed on entering a poll, given by the phase: drive the open,
/// await the seek, read, or repeat the terminal answer.
pub open spec fn enter_step(m: FileMachine) -> PollStep {
    match m.finished {
        Some(StreamEnd::EndOfStream) => PollStep::EndOfStream,
        Some(StreamEnd::Failed) => PollStep::Fatal,
        None => match m.open_state {
            FileOpenState::Closed => PollStep::DriveOpen,
            FileOpenState::Opening => PollStep::DriveOpen,
            FileOpenState::Seeking => PollStep::AwaitSeek,
            FileOpenState::Open => PollStep::ReadNow,
        },
    }
}

/// The state after the open in flight completes. Success moves to the seek
/// that re-synchronizes the cursor, or straight to reading where the policy
/// keeps handles open. Loss of access ends the stream cleanly; any other
/// failure ends it fatally.
pub open spec fn open_result_next(m: FileMachine, outcome: OpenOutcome) -> FileMachine {
    match outcome {
        OpenOutcome::Opened => match m.policy {
            ReopenPolicy::CloseOnEof => FileMachine { open_state: FileOpenState::Seeking, ..m },
            ReopenPolicy::KeepOpen => FileMachine { open_state: FileOpenState::Open, ..m },
        },
        OpenOutcome::NotFound => FileMachine { finished: Some(StreamEnd::EndOfStream), ..m },
        OpenOutcome::PermissionDenied => FileMachine {
            finished: Some(StreamEnd::EndOfStream),
            ..m
        },
        OpenOutcome::OtherError => FileMachine { finished: Some(StreamEnd::Failed), ..m },
    }
}

/// The work owed after the open completes.
pub open spec fn open_result_step(m: FileMachine, outcome: OpenOutcome) -> PollStep {
    match outcome {
        OpenOutcome::Opened => match m.policy {
            ReopenPolicy::CloseOnEof => PollStep::StartSeekEnd,
            ReopenPolicy::KeepOpen => PollStep::ReadNow,
        },
        OpenOutcome::NotFound => PollStep::EndOfStream,
        OpenOutcome::PermissionDenied => PollStep::EndOfStream,
        OpenOutcome::OtherError => PollStep::Fatal,
    }
}

/// The state after the seek in flight reports the position `size` (a seek to
/// the end reports the file's size). A size below the cursor means the file
/// was truncated while closed: the cursor resets and a seek to 0 follows. A
/// size above it means the file grew: a seek back to the cursor follows, so
/// bytes already delivered are not delivered again. An equal size needs no
/// adjustment and reading proceeds.
pub open spec fn seek_next(m: FileMachine, size: u64) -> FileMachine {
    if size < m.last_seek_location {
        FileMachine { last_seek_location: 0, ..m }
    } else if size > m.last_seek_location {
        m
    } else {
        FileMachine { open_state: FileOpenState::Open, ..m }
    }
}

/// The work owed after the seek reports `size`.
pub open spec fn seek_step(m: FileMachine, size: u64) -> PollStep {
    if size < m.last_seek_location {
        PollStep::StartSeekAt(0)
    } else if size > m.last_seek_location {
        PollStep::StartSeekAt(m.last_seek_location)
    } else {
        PollStep::ReadNow
    }
}

/// The state after a read returns `n > 0` bytes: the cursor advances past
/// them and the end-of-file flag clears.
pub open spec fn read_next(m: FileMachine, n: u64) -> FileMachine
    recommends
        m.last_seek_location + n <= u64::MAX,
{
    FileMachine {
        last_seek_location: (m.last_seek_location + n) as u64,
        at_eof: false,
        ..m
    }
}

/// The machine after a read returns no bytes, consulting the cell. A
/// deletion already classified makes this a true end of stream. Otherwise a
/// first end of file parks the reader (closing the handle where the policy
/// asks for it); a second in a row is the inferred truncation: the cursor
/// resets to 0 and the handle closes for an immediate reopen.
pub open spec fn eof_machine_next(m: FileMachine, c: SharedState) -> FileMachine {
    if c.classification is Deleted {
        FileMachine { finished: Some(StreamEnd::EndOfStream), ..m }
    } else if !m.at_eof {
        FileMachine {
            at_eof: true,
            open_state: if m.policy is CloseOnEof {
                FileOpenState::Closed
            } else {
                FileOpenState::Open
            },
            ..m
        }
    } else {
        FileMachine { last_seek_location: 0, open_state: FileOpenState::Closed, ..m }
    }
}

/// The cell after a read returns no bytes: a first end of file registers the
/// parked reader; nothing else touches the cell.
pub open spec fn eof_cell_next(m: FileMachine, c: SharedState) -> SharedState {
    if c.classification is Deleted {
        c
    } else if !m.at_eof {
        SharedState { classification: FileClassification::WaitingEof, reader_waiting: true }
    } else {
        c
    }
}

/// The work owed after a read returns no bytes.
pub open spec fn eof_step(m: FileMachine, c: SharedState) -> PollStep {
    if c.classification is Deleted {
        PollStep::EndOfStream
    } else if !m.at_eof {
        PollStep::Suspend
    } else {
        PollStep::SelfWake
    }
}

/// The state after an open, seek or read fails with an error that is not a
/// loss of access: the stream ends fatally.
pub open spec fn error_next(m: FileMachine) -> FileMachine {
    FileMachine { finished: Some(StreamEnd::Failed), ..m }
}

impl FileMachine {
    /// A follower over a freshly opened handle, delivering from offset 0.
    pub fn new(policy: ReopenPolicy) -> (m: FileMachine)
        ensures
            m.open_state is Open,
            m.last_seek_location == 0,
            !m.at_eof,
            m.policy == policy,
            m.finished is None,
    {
        FileMachine {
            open_state: FileOpenState::Open,
            last_seek_location: 0,
            at_eof: false,
            policy,
            finished: None,
        }
    }

    /// A follower over a freshly opened handle whose cursor already stands at
    /// `offset`: content before that offset is never delivered. Used to start
    /// at the file's current end.
    pub fn new_at(policy: ReopenPolicy, offset: u64) -> (m: FileMachine)
        ensures
            m.open_state is Open,
            m.last_seek_location == offset,
            !m.at_eof,
            m.policy == policy,
            m.finished is None,
    {
        FileMachine {
            open_state: FileOpenState::Open,
            last_seek_location: offset,
            at_eof: false,
            policy,
            finished: None,
        }
    }

    /// Enters a poll: repeats the terminal answer of a finished stream, and
    /// otherwise says which phase to drive, starting an open if the handle
    /// was closed.
    pub fn poll_enter(&mut self) -> (step: PollStep)
        ensures
            *final(self) == enter_next(*old(self)),
            step == enter_step(*old(self)),
    {
        match self.finished {
            Some(StreamEnd::EndOfStream) => PollStep::EndOfStream,
            Some(StreamEnd::Failed) => PollStep::Fatal,
            None => match self.open_state {
                FileOpenState::Closed => {
                    self.at_eof = false;
                    self.open_state = FileOpenState::Opening;
                    PollStep::DriveOpen
                },
                FileOpenState::Opening => PollStep::DriveOpen,
                FileOpenState::Seeking => PollStep::AwaitSeek,
                FileOpenState::Open => PollStep::ReadNow,
            },
        }
    }

    /// Takes the outcome of the open in flight. Loss of access (the path is
    /// gone, or was recreated beyond this stream's reach) ends the stream
    /// cleanly; other failures end it fatally; success moves on to the
    /// re-synchronizing seek, or straight to reading under a policy that
    /// keeps handles open.
    pub fn on_open_result(&mut self, outcome: OpenOutcome) -> (step: PollStep)
        requires
            old(self).open_state is Opening,
            old(self).finished is None,
        ensures
            *final(self) == open_result_next(*old(self), outcome),
            step == open_result_step(*old(self), outcome),
    {
        match outcome {
            OpenOutcome::Opened => match self.policy {
                ReopenPolicy::CloseOnEof => {
                    self.open_state = FileOpenState::Seeking;
                    PollStep::StartSeekEnd
                },
                ReopenPolicy::KeepOpen => {
                    self.open_state = FileOpenState::Open;
                    PollStep::ReadNow
                },
            },
            OpenOutcome::NotFound => {
                self.finished = Some(StreamEnd::EndOfStream);
                PollStep::EndOfStream
            },
            OpenOutcome::PermissionDenied => {
                self.finished = Some(StreamEnd::EndOfStream);
                PollStep::EndOfStream
            },
            OpenOutcome::OtherError => {
                self.finished = Some(StreamEnd::Failed);
                PollStep::Fatal
            },
        }
    }

    /// Takes the position reported by the seek in flight: a size below the
    /// cursor is a truncation while closed (reset and reseek to 0); a size
    /// above it means growth (reseek to the cursor, so nothing is delivered
    /// twice); an equal size is a no-op and reading proceeds.
    pub fn on_seek_complete(&mut self, size: u64) -> (step: PollStep)
        requires
            old(self).open_state is Seeking,
            old(self).finished is None,
        ensures
            *final(self) == seek_next(*old(self), size),
            step == seek_step(*old(self), size),
    {
        if size < self.last_seek_location {
            self.last_seek_location = 0;
            PollStep::StartSeekAt(0)
        } else if size > self.last_seek_location {
            PollStep::StartSeekAt(self.last_seek_location)
        } else {
            self.open_state = FileOpenState::Open;
            PollStep::ReadNow
        }
    }

    /// Takes a read that produced `n > 0` bytes: the cursor advances past
    /// them, the end-of-file flag clears, and the bytes go to the consumer.
    pub fn on_read_data(&mut self, n: u64) -> (step: PollStep)
        requires
            old(self).open_state is Open,
            old(self).finished is None,
            n > 0,
            old(self).last_seek_location + n <= u64::MAX,
        ensures
            *final(self) == read_next(*old(self), n),
            step == PollStep::DeliverData,
    {
        self.last_seek_location = self.last_seek_location + n;
        self.at_eof = false;
        PollStep::DeliverData
    }

    /// Takes a read that produced no bytes, consulting and updating the
    /// shared cell under the caller's lock. A deletion already classified is
    /// a true end of stream. Otherwise the first end of file parks the
    /// reader in the cell (and closes the handle where the policy asks for
    /// it); the second in a row, with no classification change between, is
    /// the inferred truncation: the cursor resets to 0, the handle closes,
    /// and the poll reschedules itself at once.
    pub fn on_read_eof(&mut self, cell: &mut SharedState) -> (step: PollStep)
        requires
            old(self).open_state is Open,
            old(self).finished is None,
        ensures
            *final(self) == eof_machine_next(*old(self), *old(cell)),
            *final(cell) == eof_cell_next(*old(self), *old(cell)),
            step == eof_step(*old(self), *old(cell)),
    {
        match cell.classification {
            FileClassification::Deleted => {
                self.finished = Some(StreamEnd::EndOfStream);
                PollStep::EndOfStream
            },
            _ => {
                if !self.at_eof {
                    cell.register_reader();
                    self.at_eof = true;
                    if let ReopenPolicy::CloseOnEof = self.policy {
                        self.open_state = FileOpenState::Closed;
                    }
                    PollStep::Suspend
                } else {
                    self.last_seek_location = 0;
                    self.open_state = FileOpenState::Closed;
                    PollStep::SelfWake
                }
            },
        }
    }

    /// Takes an I/O failure other than a loss of access, from an open, a
    /// seek or a read: the error goes to the consumer once and the stream
    /// ends fatally.
    pub fn on_io_error(&mut self) -> (step: PollStep)
        requires
            old(self).finished is None,
        ensures
            *final(self) == error_next(*old(self)),
            step == PollStep::Fatal,
    {
        self.finished = Some(StreamEnd::Failed);
        PollStep::Fatal
    }
}

} // verus!
