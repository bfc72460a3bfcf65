//! The order of the steps of a fetch.
//!
//! A fetch looks whether the unpacked release is already in place. If it is,
//! nothing else happens. If not, the archive is requested and unpacked, and
//! the fetch looks again: unpacking must have produced the directory. A
//! request or an unpacking that fails ends the fetch with that failure.
//!
//! The caller does the work of each step and reports how it went; `advance`
//! says what follows.

use vstd::prelude::*;

verus! {

/// Where a fetch stands: what it is waiting to hear about.
#[derive(Clone, Copy, PartialEq, Eq, Structural, Debug)]
pub enum Phase {
    /// Whether the destination is already in place.
    Probing,
    /// How the request for the archive went.
    Requesting,
    /// How unpacking the archive went.
    Unpacking,
    /// Whether unpacking has put the destination in place.
    Confirming,
    /// Nothing: the fetch is over.
    Finished,
}

/// What the caller reports after a step.
#[derive(Clone, Copy, PartialEq, Eq, Structural, Debug)]
pub enum Event {
    /// The destination directory exists.
    Present,
    /// The destination directory does not exist.
    Absent,
    /// The request, or the unpacking, went through.
    Succeeded,
    /// The request, or the unpacking, failed.
    Failed,
}

/// What the caller does next.
#[derive(Clone, Copy, PartialEq, Eq, Structural, Debug)]
pub enum Action {
    /// Request the archive from the release host.
    Request,
    /// Decompress the reply and unpack it into the output directory.
    Unpack,
    /// Look again whether the destination directory exists.
    Confirm,
    /// Hand the destination directory back: it is in place.
    Return,
    /// Hand the failure of the last step back, as it is.
    Fail,
    /// Give up: unpacking went through and left no destination directory.
    Abort,
}

/// The phase that follows `phase` on `event`, and what to do on entering it;
/// `None` where `phase` does not wait for `event`.
pub open spec fn transition(phase: Phase, event: Event) -> Option<(Phase, Action)> {
    match (phase, event) {
        (Phase::Probing, Event::Present) => Some((Phase::Finished, Action::Return)),
        (Phase::Probing, Event::Absent) => Some((Phase::Requesting, Action::Request)),
        (Phase::Requesting, Event::Succeeded) => Some((Phase::Unpacking, Action::Unpack)),
        (Phase::Requesting, Event::Failed) => Some((Phase::Finished, Action::Fail)),
        (Phase::Unpacking, Event::Succeeded) => Some((Phase::Confirming, Action::Confirm)),
        (Phase::Unpacking, Event::Failed) => Some((Phase::Finished, Action::Fail)),
        (Phase::Confirming, Event::Present) => Some((Phase::Finished, Action::Return)),
        (Phase::Confirming, Event::Absent) => Some((Phase::Finished, Action::Abort)),
        _ => None,
    }
}

/// How many steps a fetch in `phase` has left at most.
pub open spec fn steps_left(phase: Phase) -> nat {
    match phase {
        Phase::Probing => 4,
        Phase::Requesting => 3,
        Phase::Unpacking => 2,
        Phase::Confirming => 1,
        Phase::Finished => 0,
    }
}

/// Whether `action` ends the fetch.
pub open spec fn is_final(action: Action) -> bool {
    action == Action::Return || action == Action::Fail || action == Action::Abort
}

/// The phase in which every fetch begins: its first step is to look whether
/// the destination is in place.
pub fn start() -> (phase: Phase)
    ensures
        phase == Phase::Probing,
{
    Phase::Probing
}

/// Moves a fetch in `phase` on by the `event` that the caller reports.
///
/// Gives the next phase and the action to perform, or `None` where `event`
/// is not an answer to what `phase` waits for.
pub fn advance(phase: Phase, event: Event) -> (next: Option<(Phase, Action)>)
    ensures
        next == transition(phase, event),
{
    match phase {
        Phase::Probing => match event {
            Event::Present => Some((Phase::Finished, Action::Return)),
            Event::Absent => Some((Phase::Requesting, Action::Request)),
            _ => None,
        },
        Phase::Requesting => match event {
            Event::Succeeded => Some((Phase::Unpacking, Action::Unpack)),
            Event::Failed => Some((Phase::Finished, Action::Fail)),
            _ => None,
        },
        Phase::Unpacking => match event {
            Event::Succeeded => Some((Phase::Confirming, Action::Confirm)),
            Event::Failed => Some((Phase::Finished, Action::Fail)),
            _ => None,
        },
        Phase::Confirming => match event {
            Event::Present => Some((Phase::Finished, Action::Return)),
            Event::Absent => Some((Phase::Finished, Action::Abort)),
            _ => None,
        },
        Phase::Finished => None,
    }
}

/// A fetch that finds its destination in place does no work: it hands the
/// destination back at once. So fetching again after a fetch that returned
/// changes nothing.
pub proof fn lemma_present_destination_is_reused()
    ensures
        transition(Phase::Probing, Event::Present) == Some((Phase::Finished, Action::Return)),
{
}

/// The archive is requested only by a fetch that has just found its
/// destination missing.
pub proof fn lemma_request_only_when_absent(phase: Phase, event: Event)
    requires
        transition(phase, event) matches Some((_, action)) && action == Action::Request,
    ensures
        phase == Phase::Probing,
        event == Event::Absent,
{
}

/// The destination is handed back only when it has just been seen in place.
pub proof fn lemma_return_only_when_present(phase: Phase, event: Event)
    requires
        transition(phase, event) matches Some((_, action)) && action == Action::Return,
    ensures
        event == Event::Present,
{
}

/// Every step brings a fetch closer to its end, and a fetch is over exactly
/// when the action is a final one. So a fetch takes four steps at most, and
/// a finished fetch takes no further event.
pub proof fn lemma_fetch_ends(phase: Phase, event: Event)
    ensures
        transition(phase, event) matches Some((next, action)) ==> {
            &&& steps_left(next) < steps_left(phase)
            &&& is_final(action) <==> next == Phase::Finished
        },
        phase == Phase::Finished ==> transition(phase, event) is None,
{
}

} // verus!
