//! Laws of the follower, stated over whole runs.
//!
//! A run is the machine and the shared cell folded over a sequence of
//! inputs: poll entries, outcomes of opens, seeks and reads, and the
//! notifications the watch callback stores. The lemmas below state what every
//! run guarantees: delivery without loss or duplication while the file only
//! grows, that a terminated stream stays terminated, and that a notification
//! without growth makes the reopen cycle a quiet no-op.

use vstd::prelude::*;
use crate::cell::SharedState;
use crate::events::FileClassification;
use crate::machine::FileMachine;
use crate::machine::OpenOutcome;
use crate::machine::FileOpenState;
use crate::machine::PollStep;
use crate::machine::ReopenPolicy;
use crate::machine::enter_next;
use crate::machine::enter_step;
use crate::machine::open_result_next;
use crate::machine::open_result_step;
use crate::machine::seek_next;
use crate::machine::seek_step;
use crate::machine::read_next;
use crate::machine::eof_machine_next;
use crate::machine::eof_cell_next;
use crate::machine::eof_step;
use crate::machine::error_next;
use crate::machine::StreamEnd;

verus! {

/// One input to the follower: a step of a poll with its outcome, or a
/// classification stored by the watch callback between polls.
#[derive(Clone, Copy, Debug, PartialEq, Eq, Structural)]
pub enum PollInput {
    /// A poll begins.
    Enter,
    /// The open in flight completed with this outcome.
    OpenResult(OpenOutcome),
    /// The seek in flight completed at this position.
    SeekDone(u64),
    /// A read produced this many bytes (more than none).
    ReadData(u64),
    /// A read produced no bytes.
    ReadEof,
    /// An open, seek or read failed with an error that is not a loss of
    /// access.
    ReadError,
    /// The watch callback stored this classification and took the parked
    /// reader, if any.
    Notify(FileClassification),
}

/// The machine and cell after one input. An input that does not fit the
/// machine's phase changes nothing (the follower never feeds one), and a
/// terminated machine only lets the cell change.
pub open spec fn step_next(m: FileMachine, c: SharedState, i: PollInput) -> (FileMachine, SharedState) {
    match i {
        PollInput::Notify(cl) => (
            m,
            SharedState { classification: cl, reader_waiting: false },
        ),
        PollInput::Enter => (enter_next(m), c),
        PollInput::OpenResult(oc) => if m.finished is None && m.open_state is Opening {
            (open_result_next(m, oc), c)
        } else {
            (m, c)
        },
        PollInput::SeekDone(size) => if m.finished is None && m.open_state is Seeking {
            (seek_next(m, size), c)
        } else {
            (m, c)
        },
        PollInput::ReadData(n) => if m.finished is None && m.open_state is Open {
            (read_next(m, n), c)
        } else {
            (m, c)
        },
        PollInput::ReadEof => if m.finished is None && m.open_state is Open {
            (eof_machine_next(m, c), eof_cell_next(m, c))
        } else {
            (m, c)
        },
        PollInput::ReadError => if m.finished is None {
            (error_next(m), c)
        } else {
            (m, c)
        },
    }
}

/// What one input makes the poll answer: a notification answers nothing, a
/// terminated machine repeats its terminal answer, and an input that does
/// not fit the phase answers nothing.
pub open spec fn step_output(m: FileMachine, c: SharedState, i: PollInput) -> Option<PollStep> {
    if i is Notify {
        None
    } else if m.finished is Some {
        if m.finished == Some(StreamEnd::EndOfStream) {
            Some(PollStep::EndOfStream)
        } else {
            Some(PollStep::Fatal)
        }
    } else {
        match i {
            PollInput::Enter => Some(enter_step(m)),
            PollInput::OpenResult(oc) => if m.open_state is Opening {
                Some(open_result_step(m, oc))
            } else {
                None
            },
            PollInput::SeekDone(size) => if m.open_state is Seeking {
                Some(seek_step(m, size))
            } else {
                None
            },
            PollInput::ReadData(n) => if m.open_state is Open {
                Some(PollStep::DeliverData)
            } else {
                None
            },
            PollInput::ReadEof => if m.open_state is Open {
                Some(eof_step(m, c))
            } else {
                None
            },
            PollInput::ReadError => Some(PollStep::Fatal),
            PollInput::Notify(_) => None,
        }
    }
}

/// The machine and cell after a whole sequence of inputs.
pub open spec fn run(m: FileMachine, c: SharedState, inputs: Seq<PollInput>) -> (FileMachine, SharedState)
    decreases inputs.len(),
{
    if inputs.len() == 0 {
        (m, c)
    } else {
        let next = step_next(m, c, inputs[0]);
        run(next.0, next.1, inputs.drop_first())
    }
}

/// The answers of a whole sequence of inputs, one per input.
pub open spec fn run_outputs(m: FileMachine, c: SharedState, inputs: Seq<PollInput>) -> Seq<Option<PollStep>>
    decreases inputs.len(),
{
    if inputs.len() == 0 {
        Seq::empty()
    } else {
        let next = step_next(m, c, inputs[0]);
        seq![step_output(m, c, inputs[0])] + run_outputs(next.0, next.1, inputs.drop_first())
    }
}

/// The bytes one input delivers, when the file's content is `content` and
/// every read returns the file's bytes at the cursor.
pub open spec fn delivered_by(m: FileMachine, i: PollInput, content: Seq<u8>) -> Seq<u8> {
    match i {
        PollInput::ReadData(n) => if m.finished is None && m.open_state is Open {
            content.subrange(
                m.last_seek_location as int,
                m.last_seek_location as int + n as int,
            )
        } else {
            Seq::empty()
        },
        _ => Seq::empty(),
    }
}

/// The bytes a whole sequence of inputs delivers, concatenated in delivery
/// order.
pub open spec fn run_delivered(m: FileMachine, c: SharedState, inputs: Seq<PollInput>, content: Seq<u8>) -> Seq<u8>
    decreases inputs.len(),
{
    if inputs.len() == 0 {
        Seq::empty()
    } else {
        let next = step_next(m, c, inputs[0]);
        delivered_by(m, inputs[0], content)
            + run_delivered(next.0, next.1, inputs.drop_first(), content)
    }
}

/// What it means for a run to observe a file that only grows and is never
/// truncated: every read returns bytes the file holds at the cursor, every
/// completed seek reports at least the cursor (the file never shrank below
/// what was already delivered) and at most the file's size, and no read ever
/// hits end of file twice in a row without a deletion — the truncation
/// signal never fires.
pub open spec fn append_only_inputs(m: FileMachine, c: SharedState, inputs: Seq<PollInput>, content: Seq<u8>) -> bool
    decreases inputs.len(),
{
    inputs.len() == 0 || {
        let fits = match inputs[0] {
            PollInput::ReadData(n) => n > 0
                && m.last_seek_location + n <= content.len(),
            PollInput::SeekDone(size) => m.last_seek_location <= size <= content.len(),
            PollInput::ReadEof => c.classification is Deleted || !m.at_eof,
            _ => true,
        };
        let next = step_next(m, c, inputs[0]);
        fits && append_only_inputs(next.0, next.1, inputs.drop_first(), content)
    }
}

/// No loss and no duplication while the file only grows: over any run whose
/// inputs observe an append-only file, the cursor never moves backwards, and
/// the bytes delivered, concatenated in delivery order, are exactly the
/// file's bytes from the starting cursor to the final one — each byte once,
/// in the order written. A follower that starts at offset 0 and catches up
/// has then delivered the file's content entire.
pub proof fn lemma_no_loss_no_duplication(m: FileMachine, c: SharedState, inputs: Seq<PollInput>, content: Seq<u8>)
    requires
        append_only_inputs(m, c, inputs, content),
        m.last_seek_location <= content.len(),
        content.len() <= u64::MAX,
    ensures
        ({
            let fin = run(m, c, inputs).0;
            &&& m.last_seek_location <= fin.last_seek_location <= content.len()
            &&& run_delivered(m, c, inputs, content) == content.subrange(
                m.last_seek_location as int,
                fin.last_seek_location as int,
            )
        }),
    decreases inputs.len(),
{
    let l = m.last_seek_location as int;
    if inputs.len() == 0 {
        assert(content.subrange(l, l) =~= Seq::<u8>::empty());
    } else {
        let i0 = inputs[0];
        let next = step_next(m, c, i0);
        let rest = inputs.drop_first();
        let mid = next.0.last_seek_location as int;
        // The head input keeps the cursor within the file and never moves it
        // backwards, and delivers exactly the bytes the cursor moved past.
        assert(l <= mid <= content.len() && delivered_by(m, i0, content) == content.subrange(
            l,
            mid,
        )) by {
            assert(content.subrange(l, l) =~= Seq::<u8>::empty());
            match i0 {
                PollInput::ReadData(n) => {
                    if m.finished is None && m.open_state is Open {
                        assert(mid == l + n);
                    } else {
                        assert(next.0 == m);
                    }
                },
                _ => {},
            }
        };
        lemma_no_loss_no_duplication(next.0, next.1, rest, content);
        let fin = run(m, c, inputs).0.last_seek_location as int;
        assert(content.subrange(l, fin) =~= content.subrange(l, mid) + content.subrange(mid, fin));
    }
}

/// A stream that has fully caught up with an append-only file has delivered
/// the bytes written, concatenated in write order, exactly: the happy path
/// loses nothing and repeats nothing.
pub proof fn lemma_full_drain_delivers_content(m: FileMachine, c: SharedState, inputs: Seq<PollInput>, content: Seq<u8>)
    requires
        append_only_inputs(m, c, inputs, content),
        m.last_seek_location == 0,
        content.len() <= u64::MAX,
        run(m, c, inputs).0.last_seek_location == content.len(),
    ensures
        run_delivered(m, c, inputs, content) == content,
{
    lemma_no_loss_no_duplication(m, c, inputs, content);
    assert(content.subrange(0, content.len() as int) =~= content);
}

/// A terminated stream is terminated for good: whatever inputs follow — new
/// notifications included, even for a file recreated at the same path — the
/// terminal state stands, and no step ever answers with data again. Only a
/// new follower can observe the new file.
pub proof fn lemma_end_of_stream_is_final(m: FileMachine, c: SharedState, inputs: Seq<PollInput>)
    requires
        m.finished is Some,
    ensures
        run(m, c, inputs).0.finished == m.finished,
        forall|k: int| 0 <= k < inputs.len()
            ==> #[trigger] run_outputs(m, c, inputs)[k] != Some(PollStep::DeliverData),
    decreases inputs.len(),
{
    if inputs.len() > 0 {
        let next = step_next(m, c, inputs[0]);
        let rest = inputs.drop_first();
        assert(next.0 == m);
        lemma_end_of_stream_is_final(next.0, next.1, rest);
        lemma_run_outputs_len(next.0, next.1, rest);
        let outs = run_outputs(m, c, inputs);
        let rest_outs = run_outputs(next.0, next.1, rest);
        assert forall|k: int| 0 <= k < inputs.len()
            implies #[trigger] run_outputs(m, c, inputs)[k] != Some(PollStep::DeliverData) by {
            if k == 0 {
                assert(outs[0] == step_output(m, c, inputs[0]));
            } else {
                assert(outs[k] == rest_outs[k - 1]);
            }
        }
    }
}

/// The cursor never moves backwards, except by the reset to 0 of a detected
/// or inferred truncation.
pub proof fn lemma_cursor_monotone_but_for_truncation(m: FileMachine, c: SharedState, i: PollInput)
    requires
        i matches PollInput::ReadData(n) ==> m.last_seek_location + n <= u64::MAX,
    ensures
        ({
            let m1 = step_next(m, c, i).0;
            m1.last_seek_location >= m.last_seek_location || m1.last_seek_location == 0
        }),
{
}

/// A run answers once per input.
pub proof fn lemma_run_outputs_len(m: FileMachine, c: SharedState, inputs: Seq<PollInput>)
    ensures
        run_outputs(m, c, inputs).len() == inputs.len(),
    decreases inputs.len(),
{
    if inputs.len() > 0 {
        let next = step_next(m, c, inputs[0]);
        lemma_run_outputs_len(next.0, next.1, inputs.drop_first());
    }
}

/// A notification that found no growth is a quiet no-op: from a closed
/// handle, the reopen cycle — open, seek to the end, find the size equal to
/// the cursor — returns to reading with the cursor unchanged, delivering
/// nothing and ending nothing.
pub proof fn lemma_noop_modification_reopens_quietly(m: FileMachine)
    requires
        m.finished is None,
        m.open_state is Closed,
        m.policy is CloseOnEof,
    ensures
        ({
            let m1 = enter_next(m);
            let m2 = open_result_next(m1, OpenOutcome::Opened);
            let m3 = seek_next(m2, m.last_seek_location);
            &&& enter_step(m) == PollStep::DriveOpen
            &&& open_result_step(m1, OpenOutcome::Opened) == PollStep::StartSeekEnd
            &&& seek_step(m2, m.last_seek_location) == PollStep::ReadNow
            &&& m3.open_state is Open
            &&& m3.last_seek_location == m.last_seek_location
            &&& m3.finished is None
        }),
{
}

} // verus!
