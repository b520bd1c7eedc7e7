//! The controller that starts and stops the listener and the renderer.
//!
//! Orchestration is a small state machine: the controller walks
//! `Idle → Listening → Playing → Stopping → Stopped`, never backwards and
//! never skipping a phase. Each step consumes one event and orders at most
//! one piece of outside work — spawning the listener, starting the audio
//! stream on an initial silence snapshot (playback does not wait for a
//! first note), signalling shutdown and stopping the stream, joining the
//! listener — which a host performs before it reports the next event. An
//! event that does not apply in the current phase changes nothing.

use vstd::prelude::*;

verus! {

/// The controller's phase. `Stopped` is terminal.
#[derive(Clone, Copy, Debug, PartialEq, Eq, Structural)]
pub enum LifecyclePhase {
    Idle,
    Listening,
    Playing,
    Stopping,
    Stopped,
}

/// What the controller hears: the host's requests and the completions of
/// the work the controller ordered.
#[derive(Clone, Copy, Debug, PartialEq, Eq, Structural)]
pub enum LifecycleEvent {
    /// The host asks for playback.
    StartRequested,
    /// The note-event channel and shutdown rendezvous exist and the
    /// listener runs.
    ListenerSpawned,
    /// The audio stream renders.
    StreamStarted,
    /// The host asks for shutdown.
    StopRequested,
    /// The stream no longer renders.
    StreamStopped,
    /// The listener thread has been joined.
    ListenerJoined,
}

/// The outside work one step orders.
#[derive(Clone, Copy, Debug, PartialEq, Eq, Structural)]
pub enum LifecycleAction {
    /// Create the note-event channel and the shutdown rendezvous, and
    /// spawn the listener on the channel's producer side.
    SpawnListener,
    /// Start the audio stream, bound to an initial silence snapshot.
    StartStream,
    /// Send the shutdown signal and stop the audio stream.
    SignalShutdown,
    /// Join the listener thread, bounded by its poll interval.
    JoinListener,
}

/// How far along its life a phase is: later phases rank higher, and no
/// transition lowers the rank.
pub open spec fn phase_rank(phase: LifecyclePhase) -> int {
    match phase {
        LifecyclePhase::Idle => 0,
        LifecyclePhase::Listening => 1,
        LifecyclePhase::Playing => 2,
        LifecyclePhase::Stopping => 3,
        LifecyclePhase::Stopped => 4,
    }
}

/// The transition table: the phase a step moves to and the work it orders,
/// or the unchanged phase and no work for an event that does not apply.
pub open spec fn spec_step(phase: LifecyclePhase, event: LifecycleEvent) -> (
    LifecyclePhase,
    Option<LifecycleAction>,
) {
    match (phase, event) {
        (LifecyclePhase::Idle, LifecycleEvent::StartRequested) => (
            LifecyclePhase::Listening,
            Some(LifecycleAction::SpawnListener),
        ),
        (LifecyclePhase::Listening, LifecycleEvent::ListenerSpawned) => (
            LifecyclePhase::Playing,
            Some(LifecycleAction::StartStream),
        ),
        (LifecyclePhase::Playing, LifecycleEvent::StopRequested) => (
            LifecyclePhase::Stopping,
            Some(LifecycleAction::SignalShutdown),
        ),
        (LifecyclePhase::Stopping, LifecycleEvent::StreamStopped) => (
            LifecyclePhase::Stopping,
            Some(LifecycleAction::JoinListener),
        ),
        (LifecyclePhase::Stopping, LifecycleEvent::ListenerJoined) => (
            LifecyclePhase::Stopped,
            None,
        ),
        _ => (phase, None),
    }
}

/// `Stopped` is terminal: no event leaves it, and nothing more is ordered.
pub proof fn lemma_stopped_is_terminal(event: LifecycleEvent)
    ensures
        spec_step(LifecyclePhase::Stopped, event) == (
            LifecyclePhase::Stopped,
            None::<LifecycleAction>,
        ),
{
}

/// No step walks backwards: the phase's rank never decreases, so once
/// shutdown begins the controller cannot return to playback.
pub proof fn lemma_no_return_transitions(phase: LifecyclePhase, event: LifecycleEvent)
    ensures
        phase_rank(spec_step(phase, event).0) >= phase_rank(phase),
{
}

/// A stop request while playing always begins shutdown and orders the
/// shutdown signal at once, so the listener sees it by its next poll.
pub proof fn lemma_stop_begins_shutdown()
    ensures
        spec_step(LifecyclePhase::Playing, LifecycleEvent::StopRequested) == (
            LifecyclePhase::Stopping,
            Some(LifecycleAction::SignalShutdown),
        ),
{
}

/// The controller: its current phase, stepped by one event at a time.
pub struct LifecycleController {
    pub phase: LifecyclePhase,
}

impl LifecycleController {
    /// A fresh controller is idle.
    pub fn new() -> (controller: LifecycleController)
        ensures
            controller.phase == LifecyclePhase::Idle,
    {
        LifecycleController { phase: LifecyclePhase::Idle }
    }

    /// Consume one event: move to the table's phase and hand back the work
    /// the host must perform before the next event.
    pub fn step(&mut self, event: LifecycleEvent) -> (action: Option<LifecycleAction>)
        ensures
            (final (self).phase, action) == spec_step(old(self).phase, event),
    {
        let (next, action): (LifecyclePhase, Option<LifecycleAction>) = match (self.phase, event) {
            (LifecyclePhase::Idle, LifecycleEvent::StartRequested) => (
                LifecyclePhase::Listening,
                Some(LifecycleAction::SpawnListener),
            ),
            (LifecyclePhase::Listening, LifecycleEvent::ListenerSpawned) => (
                LifecyclePhase::Playing,
                Some(LifecycleAction::StartStream),
            ),
            (LifecyclePhase::Playing, LifecycleEvent::StopRequested) => (
                LifecyclePhase::Stopping,
                Some(LifecycleAction::SignalShutdown),
            ),
            (LifecyclePhase::Stopping, LifecycleEvent::StreamStopped) => (
                LifecyclePhase::Stopping,
                Some(LifecycleAction::JoinListener),
            ),
            (LifecyclePhase::Stopping, LifecycleEvent::ListenerJoined) => (
                LifecyclePhase::Stopped,
                None,
            ),
            (phase, _) => (phase, None),
        };
        self.phase = next;
        action
    }
}

} // verus!
