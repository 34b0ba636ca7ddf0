//! The capture cycle as a state machine: one hotkey press leads from reading
//! the clipboard through enrichment to the store. The caller carries out
//! each action and reports what came of it as the next event.

use vstd::prelude::*;
use crate::reader::CaptureError;

verus! {

/// Where a capture cycle stands.
#[derive(Clone, Copy, Debug, PartialEq, Eq, Structural)]
pub enum CycleState {
    Idle,
    Capturing,
    Enriching,
    Persisting,
    /// The cycle ended without a capture.
    Aborted,
}

/// What happened since the last action.
#[derive(Clone, Copy, Debug, PartialEq, Eq, Structural)]
pub enum CycleEvent {
    HotkeyPressed,
    CaptureObtained,
    /// No attempt found a payload on the clipboard.
    NoCapture,
    /// The payload that was found could not be made into a capture.
    CaptureFailed,
    EnrichmentReady,
    PersistSucceeded,
    PersistFailed,
}

/// What the caller is to do next.
#[derive(Clone, Copy, Debug, PartialEq, Eq, Structural)]
pub enum CycleAction {
    ReadClipboard,
    /// Hand the capture to enrichment, off the listener's thread.
    DispatchEnrichment,
    PersistRecord,
    /// Tell the listeners that a record was saved.
    NotifySaved,
    LogNoCapture,
    LogCaptureFailure,
    /// Log the failed write; no notification goes out.
    LogPersistFailure,
    /// The event does not belong to the state; nothing is done.
    Ignore,
}

/// Whether the key of a shortcut went down or came up.
#[derive(Clone, Copy, Debug, PartialEq, Eq, Structural)]
pub enum ShortcutState {
    Pressed,
    Released,
}

/// The state that follows `state` on `event`, with the action to take.
pub open spec fn transition(state: CycleState, event: CycleEvent) -> (CycleState, CycleAction) {
    match (state, event) {
        (CycleState::Idle, CycleEvent::HotkeyPressed) => (
            CycleState::Capturing,
            CycleAction::ReadClipboard,
        ),
        (CycleState::Capturing, CycleEvent::CaptureObtained) => (
            CycleState::Enriching,
            CycleAction::DispatchEnrichment,
        ),
        (CycleState::Capturing, CycleEvent::NoCapture) => (
            CycleState::Aborted,
            CycleAction::LogNoCapture,
        ),
        (CycleState::Capturing, CycleEvent::CaptureFailed) => (
            CycleState::Aborted,
            CycleAction::LogCaptureFailure,
        ),
        (CycleState::Enriching, CycleEvent::EnrichmentReady) => (
            CycleState::Persisting,
            CycleAction::PersistRecord,
        ),
        (CycleState::Persisting, CycleEvent::PersistSucceeded) => (
            CycleState::Idle,
            CycleAction::NotifySaved,
        ),
        (CycleState::Persisting, CycleEvent::PersistFailed) => (
            CycleState::Idle,
            CycleAction::LogPersistFailure,
        ),
        _ => (state, CycleAction::Ignore),
    }
}

/// Advances a cycle by one event.
pub fn step(state: CycleState, event: CycleEvent) -> (next: (CycleState, CycleAction))
    ensures
        next == transition(state, event),
{
    match (state, event) {
        (CycleState::Idle, CycleEvent::HotkeyPressed) => (
            CycleState::Capturing,
            CycleAction::ReadClipboard,
        ),
        (CycleState::Capturing, CycleEvent::CaptureObtained) => (
            CycleState::Enriching,
            CycleAction::DispatchEnrichment,
        ),
        (CycleState::Capturing, CycleEvent::NoCapture) => (
            CycleState::Aborted,
            CycleAction::LogNoCapture,
        ),
        (CycleState::Capturing, CycleEvent::CaptureFailed) => (
            CycleState::Aborted,
            CycleAction::LogCaptureFailure,
        ),
        (CycleState::Enriching, CycleEvent::EnrichmentReady) => (
            CycleState::Persisting,
            CycleAction::PersistRecord,
        ),
        (CycleState::Persisting, CycleEvent::PersistSucceeded) => (
            CycleState::Idle,
            CycleAction::NotifySaved,
        ),
        (CycleState::Persisting, CycleEvent::PersistFailed) => (
            CycleState::Idle,
            CycleAction::LogPersistFailure,
        ),
        _ => (state, CycleAction::Ignore),
    }
}

/// The event that the end of a capture attempt is for the cycle: a missing
/// payload ends the cycle quietly, any other failure is reported.
pub open spec fn capture_event_of(failure: Option<CaptureError>) -> CycleEvent {
    match failure {
        None => CycleEvent::CaptureObtained,
        Some(CaptureError::ClipboardUnavailable) => CycleEvent::NoCapture,
        Some(_) => CycleEvent::CaptureFailed,
    }
}

/// Turns the end of a capture attempt into an event; `None` stands for a
/// capture that was obtained.
pub fn capture_event(failure: Option<CaptureError>) -> (event: CycleEvent)
    ensures
        event == capture_event_of(failure),
{
    match failure {
        None => CycleEvent::CaptureObtained,
        Some(CaptureError::ClipboardUnavailable) => CycleEvent::NoCapture,
        Some(_) => CycleEvent::CaptureFailed,
    }
}

/// Reacts to the shortcut listener: a press is a hotkey event, a release is
/// nothing.
pub fn handle_shortcut(state: CycleState, shortcut: ShortcutState) -> (next: (
    CycleState,
    CycleAction,
))
    ensures
        next == match shortcut {
            ShortcutState::Pressed => transition(state, CycleEvent::HotkeyPressed),
            ShortcutState::Released => (state, CycleAction::Ignore),
        },
{
    match shortcut {
        ShortcutState::Pressed => step(state, CycleEvent::HotkeyPressed),
        ShortcutState::Released => (state, CycleAction::Ignore),
    }
}

/// The state after a series of events.
pub open spec fn run(state: CycleState, events: Seq<CycleEvent>) -> CycleState
    decreases events.len(),
{
    if events.len() == 0 {
        state
    } else {
        transition(run(state, events.drop_last()), events.last()).0
    }
}

/// A cycle is aborted only while it captures, and an aborted cycle stays
/// aborted.
pub proof fn lemma_aborted_only_from_capturing(state: CycleState, event: CycleEvent)
    ensures
        transition(state, event).0 == CycleState::Aborted ==> state == CycleState::Capturing
            || state == CycleState::Aborted,
        transition(CycleState::Aborted, event) == (CycleState::Aborted, CycleAction::Ignore),
{
}

/// The saved notification goes out exactly when a write to the store
/// succeeded; a failed write is logged and nothing else.
pub proof fn lemma_saved_only_after_persisting(state: CycleState, event: CycleEvent)
    ensures
        transition(state, event).1 == CycleAction::NotifySaved <==> state == CycleState::Persisting
            && event == CycleEvent::PersistSucceeded,
        transition(CycleState::Persisting, CycleEvent::PersistFailed) == (
            CycleState::Idle,
            CycleAction::LogPersistFailure,
        ),
{
}

/// Within one cycle capture, enrichment and persistence follow each other
/// in this order: a record is persisted only after enrichment, and
/// enrichment starts only after a capture.
pub proof fn lemma_cycle_is_sequential(state: CycleState, event: CycleEvent)
    ensures
        transition(state, event).1 == CycleAction::PersistRecord ==> state == CycleState::Enriching,
        transition(state, event).1 == CycleAction::DispatchEnrichment ==> state
            == CycleState::Capturing,
        transition(state, event).1 == CycleAction::ReadClipboard ==> state == CycleState::Idle,
{
}

/// A press, a capture, its enrichment and a successful write bring the
/// cycle back to idle.
pub proof fn lemma_successful_cycle_returns_to_idle()
    ensures
        run(
            CycleState::Idle,
            seq![
                CycleEvent::HotkeyPressed,
                CycleEvent::CaptureObtained,
                CycleEvent::EnrichmentReady,
                CycleEvent::PersistSucceeded,
            ],
        ) == CycleState::Idle,
{
    let events = seq![
        CycleEvent::HotkeyPressed,
        CycleEvent::CaptureObtained,
        CycleEvent::EnrichmentReady,
        CycleEvent::PersistSucceeded,
    ];
    let e3 = events.drop_last();
    let e2 = e3.drop_last();
    let e1 = e2.drop_last();
    assert(e1.drop_last().len() == 0);
    assert(run(CycleState::Idle, e1.drop_last()) == CycleState::Idle);
    assert(run(CycleState::Idle, e1) == CycleState::Capturing);
    assert(run(CycleState::Idle, e2) == CycleState::Enriching);
    assert(run(CycleState::Idle, e3) == CycleState::Persisting);
}

} // verus!
