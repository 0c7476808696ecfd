//! The notifier: the watch callback's side of the shared cell.
//!
//! The OS watch subscription hands the callback one low-level event at a
//! time. The callback reads the event's kind, classifies it, stores the
//! classification in the cell and takes the parked reader. Only the reading
//! of the outside event type is trusted; the classification and the cell
//! update are verified.

use vstd::prelude::*;
use crate::cell::WakerWrapper;
use crate::events::RawEventKind;
use crate::events::classification_of;
use crate::events::classify;

verus! {

#[verifier::external_type_specification]
#[verifier::external_body]
pub struct ExEvent(notify::Event);

/// Relies on notify's `Event`: reads its `kind` field only, to tell a rename
/// of the watched path, a removal, and an in-place modification apart. Every
/// other kind — access, creation, unrecognized — maps to `Other`.
#[verifier::external_body]
fn kind_of_event(ev: &notify::Event) -> (kind: RawEventKind) {
    match ev.kind {
        notify::EventKind::Modify(notify::event::ModifyKind::Name(_)) => RawEventKind::NameChanged,
        notify::EventKind::Remove(_) => RawEventKind::Removed,
        notify::EventKind::Modify(_) => RawEventKind::ContentModified,
        _ => RawEventKind::Other,
    }
}

/// How the cell changes when one raw event kind arrives: a kind that
/// classifies is stored and takes the parked reader, so that a resume is
/// owed exactly when one was registered; a kind that does not classify
/// changes nothing.
pub open spec fn event_applied(
    pre: WakerWrapper,
    kind: RawEventKind,
    post: WakerWrapper,
    resumed: bool,
) -> bool {
    match classification_of(kind) {
        Some(cl) => post.shared_state.classification == cl
            && !post.shared_state.reader_waiting
            && resumed == pre.shared_state.reader_waiting,
        None => post == pre && !resumed,
    }
}

/// Applies one raw event kind to the cell: classifies it and, when it
/// classifies, stores the classification and takes the parked reader. The
/// result says whether a resume is owed.
pub fn apply_event(w: &mut WakerWrapper, kind: RawEventKind) -> (resumed: bool)
    ensures
        event_applied(*old(w), kind, *final(w), resumed),
{
    match classify(kind) {
        Some(cl) => w.wake(cl),
        None => false,
    }
}

/// Takes one watch notification and updates the cell as `event_applied` says
/// for the event's kind: a rename or a removal stores `Deleted`, any other
/// modification stores `Modified`, anything else leaves the cell untouched —
/// and a resume is owed exactly when a parked reader was taken.
pub fn on_watch_event(w: &mut WakerWrapper, ev: &notify::Event) -> (resumed: bool)
    ensures
        exists|kind: RawEventKind| #[trigger] event_applied(*old(w), kind, *final(w), resumed),
        resumed ==> old(w).shared_state.reader_waiting && !final(w).shared_state.reader_waiting,
{
    let kind = kind_of_event(ev);
    apply_event(w, kind)
}

} // verus!
