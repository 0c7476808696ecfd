//! End-to-end scenarios: the machine driven against a simulated file, the
//! way the asynchronous wrapper drives it against a real one.

use tokio_watch::cell::WakerWrapper;
use tokio_watch::events::RawEventKind;
use tokio_watch::machine::FileMachine;
use tokio_watch::machine::FileOpenState;
use tokio_watch::machine::OpenOutcome;
use tokio_watch::machine::PollStep;
use tokio_watch::machine::ReopenPolicy;
use tokio_watch::notifier::apply_event;

/// An open handle on the simulated file: its view of the content (which
/// survives deletion of the path, as an open descriptor does), the position
/// reads continue at, and the completion value of a seek in flight.
struct Handle {
    content: Vec<u8>,
    pos: usize,
    pending_seek: Option<u64>,
}

/// The follower and the world around it: the file at the watched path
/// (`None` once deleted), the open handle, the shared cell, whether a wake-up
/// is pending, and every byte delivered so far.
struct Sim {
    machine: FileMachine,
    disk: Option<Vec<u8>>,
    handle: Option<Handle>,
    wrapper: WakerWrapper,
    woken: bool,
    out: Vec<u8>,
}

/// What one poll of the follower answered.
#[derive(Debug, PartialEq, Eq)]
enum Answer {
    Pending,
    Data,
    End,
    Fail,
}

fn lines_joined(lines: &[&str]) -> Vec<u8> {
    let mut v = Vec::new();
    for l in lines {
        v.extend_from_slice(l.as_bytes());
        v.push(b'\n');
    }
    v
}

fn numbered_lines(n: usize) -> Vec<u8> {
    let mut v = Vec::new();
    for i in 0..n {
        v.extend_from_slice(format!("Line {}\n", i).as_bytes());
    }
    v
}

fn lines_of(out: &[u8]) -> Vec<String> {
    let s = String::from_utf8(out.to_vec()).unwrap();
    s.split('\n').filter(|l| !l.is_empty()).map(|l| l.to_string()).collect()
}

impl Sim {
    /// A follower just constructed over an existing file: the handle is open
    /// at offset 0 and the cell is fresh.
    fn new(policy: ReopenPolicy, content: Vec<u8>) -> Sim {
        Sim {
            machine: FileMachine::new(policy),
            handle: Some(Handle { content: content.clone(), pos: 0, pending_seek: None }),
            disk: Some(content),
            wrapper: WakerWrapper::new(),
            woken: false,
            out: Vec::new(),
        }
    }

    /// A follower constructed to start at the file's current end.
    fn new_at_tail(policy: ReopenPolicy, content: Vec<u8>) -> Sim {
        let len = content.len();
        Sim {
            machine: FileMachine::new_at(policy, len as u64),
            handle: Some(Handle { content: content.clone(), pos: len, pending_seek: None }),
            disk: Some(content),
            wrapper: WakerWrapper::new(),
            woken: false,
            out: Vec::new(),
        }
    }

    /// The watched path is written anew (created, appended or truncated). An
    /// open handle keeps following the same file's content, as a descriptor
    /// follows its inode.
    fn write_disk(&mut self, content: Vec<u8>) {
        self.disk = Some(content.clone());
        if let Some(h) = self.handle.as_mut() {
            h.content = content;
        }
    }

    /// The watched path is deleted. An open handle keeps its view.
    fn delete_disk(&mut self) {
        self.disk = None;
    }

    /// The watch callback fires with one classified-or-not event kind.
    fn notify(&mut self, kind: RawEventKind) {
        if apply_event(&mut self.wrapper, kind) {
            self.woken = true;
        }
    }

    /// One poll of the follower, reading at most `cap` bytes at a time: runs
    /// the machine's steps, doing each step's filesystem work on the
    /// simulated world, until the poll yields or answers.
    fn poll(&mut self, cap: usize) -> Answer {
        self.woken = false;
        let mut step = self.machine.poll_enter();
        loop {
            step = match step {
                PollStep::DriveOpen => match &self.disk {
                    Some(content) => {
                        self.handle = Some(Handle {
                            content: content.clone(),
                            pos: 0,
                            pending_seek: None,
                        });
                        self.machine.on_open_result(OpenOutcome::Opened)
                    }
                    None => self.machine.on_open_result(OpenOutcome::NotFound),
                },
                PollStep::StartSeekEnd => {
                    let h = self.handle.as_mut().unwrap();
                    h.pos = h.content.len();
                    self.machine.on_seek_complete(h.content.len() as u64)
                }
                PollStep::StartSeekAt(p) => {
                    let h = self.handle.as_mut().unwrap();
                    h.pos = p as usize;
                    h.pending_seek = Some(p);
                    self.woken = true;
                    return Answer::Pending;
                }
                PollStep::AwaitSeek => {
                    let h = self.handle.as_mut().unwrap();
                    let p = h.pending_seek.take().unwrap();
                    self.machine.on_seek_complete(p)
                }
                PollStep::ReadNow => {
                    let h = self.handle.as_mut().unwrap();
                    let avail = h.content.len().saturating_sub(h.pos);
                    let n = avail.min(cap);
                    if n > 0 {
                        self.out.extend_from_slice(&h.content[h.pos..h.pos + n]);
                        h.pos += n;
                        self.machine.on_read_data(n as u64)
                    } else {
                        self.machine.on_read_eof(&mut self.wrapper.shared_state)
                    }
                }
                PollStep::Suspend => {
                    if self.machine.open_state == FileOpenState::Closed {
                        self.handle = None;
                    }
                    return Answer::Pending;
                }
                PollStep::SelfWake => {
                    self.handle = None;
                    self.woken = true;
                    return Answer::Pending;
                }
                PollStep::DeliverData => return Answer::Data,
                PollStep::EndOfStream => return Answer::End,
                PollStep::Fatal => return Answer::Fail,
            };
        }
    }

    /// Polls until the follower answers something other than data, or until
    /// a poll suspends without a wake-up pending.
    fn drain(&mut self, cap: usize) -> Answer {
        loop {
            match self.poll(cap) {
                Answer::Data => continue,
                Answer::Pending => {
                    if self.woken {
                        continue;
                    }
                    return Answer::Pending;
                }
                other => return other,
            }
        }
    }
}

#[test]
fn simple_read() {
    let mut sim = Sim::new(ReopenPolicy::CloseOnEof, numbered_lines(5));
    // The reader catches up with everything written, then parks itself.
    assert_eq!(sim.drain(4096), Answer::Pending);
    // The file is deleted once fully drained; the watcher reports it.
    sim.delete_disk();
    sim.notify(RawEventKind::Removed);
    assert!(sim.woken);
    // The stream ends cleanly, never with an error.
    assert_eq!(sim.drain(4096), Answer::End);
    let expected = vec!["Line 0", "Line 1", "Line 2", "Line 3", "Line 4"];
    assert_eq!(lines_of(&sim.out), expected);
}

#[test]
fn truncate() {
    let mut sim = Sim::new(ReopenPolicy::CloseOnEof, numbered_lines(3));
    assert_eq!(sim.drain(4096), Answer::Pending);
    // The file is truncated and rewritten with fewer lines.
    sim.write_disk(numbered_lines(2));
    sim.notify(RawEventKind::ContentModified);
    assert_eq!(sim.drain(4096), Answer::Pending);
    // Deleting the file ends the stream.
    sim.delete_disk();
    sim.notify(RawEventKind::Removed);
    assert_eq!(sim.drain(4096), Answer::End);
    let expected = vec!["Line 0", "Line 1", "Line 2", "Line 0", "Line 1"];
    assert_eq!(lines_of(&sim.out), expected);
}

#[test]
fn delete_while_read() {
    let mut sim = Sim::new(ReopenPolicy::CloseOnEof, numbered_lines(5));
    // One line per poll: the file is deleted once the third arrives.
    assert_eq!(sim.poll(7), Answer::Data);
    assert_eq!(sim.poll(7), Answer::Data);
    assert_eq!(sim.poll(7), Answer::Data);
    assert_eq!(lines_of(&sim.out).len(), 3);
    sim.delete_disk();
    sim.notify(RawEventKind::Removed);
    // The remaining lines still arrive through the open handle, then the
    // stream ends cleanly.
    assert_eq!(sim.drain(7), Answer::End);
    let expected = vec!["Line 0", "Line 1", "Line 2", "Line 3", "Line 4"];
    assert_eq!(lines_of(&sim.out), expected);
}

#[test]
fn noop_modification_delivers_nothing() {
    let mut sim = Sim::new(ReopenPolicy::CloseOnEof, numbered_lines(2));
    assert_eq!(sim.drain(4096), Answer::Pending);
    let delivered = sim.out.len();
    // Two modifications that change no byte of the file: the reopen-and-
    // reseek cycle finds the size unchanged and parks again quietly.
    for _ in 0..2 {
        sim.notify(RawEventKind::ContentModified);
        assert!(sim.woken);
        assert_eq!(sim.drain(4096), Answer::Pending);
        assert_eq!(sim.out.len(), delivered);
    }
}

#[test]
fn appended_bytes_arrive_in_order() {
    let mut sim = Sim::new(ReopenPolicy::CloseOnEof, lines_joined(&["alpha"]));
    assert_eq!(sim.drain(4096), Answer::Pending);
    // The file grows while the handle is closed: the reseek returns to the
    // cursor, so nothing is delivered twice.
    sim.write_disk(lines_joined(&["alpha", "beta", "gamma"]));
    sim.notify(RawEventKind::ContentModified);
    assert_eq!(sim.drain(4096), Answer::Pending);
    assert_eq!(lines_of(&sim.out), vec!["alpha", "beta", "gamma"]);
}

#[test]
fn tail_skips_existing_content() {
    let mut sim = Sim::new_at_tail(ReopenPolicy::CloseOnEof, numbered_lines(3));
    // Nothing written before construction is ever delivered.
    assert_eq!(sim.drain(4096), Answer::Pending);
    assert_eq!(sim.out.len(), 0);
    sim.write_disk(numbered_lines(5));
    sim.notify(RawEventKind::ContentModified);
    assert_eq!(sim.drain(4096), Answer::Pending);
    assert_eq!(lines_of(&sim.out), vec!["Line 3", "Line 4"]);
}

#[test]
fn end_of_stream_outlives_recreation() {
    let mut sim = Sim::new(ReopenPolicy::CloseOnEof, numbered_lines(5));
    assert_eq!(sim.drain(4096), Answer::Pending);
    sim.delete_disk();
    sim.notify(RawEventKind::Removed);
    assert_eq!(sim.drain(4096), Answer::End);
    let delivered = sim.out.len();
    // A new file appears at the same path: this stream stays ended; only a
    // new follower could observe the new file.
    sim.write_disk(lines_joined(&["fresh"]));
    sim.notify(RawEventKind::ContentModified);
    assert_eq!(sim.poll(4096), Answer::End);
    assert_eq!(sim.poll(4096), Answer::End);
    assert_eq!(sim.out.len(), delivered);
}

#[test]
fn keep_open_truncation_rereads_from_start() {
    let mut sim = Sim::new(ReopenPolicy::KeepOpen, lines_joined(&["one", "two"]));
    assert_eq!(sim.drain(4096), Answer::Pending);
    // Under the policy that keeps handles open, a rewrite that leaves the
    // file no longer than before is seen as two ends of file in a row: the
    // inferred truncation reopens at offset 0 and rereads.
    sim.write_disk(lines_joined(&["ten"]));
    sim.notify(RawEventKind::ContentModified);
    assert_eq!(sim.drain(4096), Answer::Pending);
    assert_eq!(lines_of(&sim.out), vec!["one", "two", "ten"]);
}
