use lush_rs::lifecycle::LifecycleAction;
use lush_rs::lifecycle::LifecycleController;
use lush_rs::lifecycle::LifecycleEvent;
use lush_rs::lifecycle::LifecyclePhase;

#[test]
fn the_controller_walks_its_five_phases_in_order() {
    let mut controller = LifecycleController::new();
    assert_eq!(controller.phase, LifecyclePhase::Idle);

    let action = controller.step(LifecycleEvent::StartRequested);
    assert_eq!(controller.phase, LifecyclePhase::Listening);
    assert_eq!(action, Some(LifecycleAction::SpawnListener));

    let action = controller.step(LifecycleEvent::ListenerSpawned);
    assert_eq!(controller.phase, LifecyclePhase::Playing);
    assert_eq!(action, Some(LifecycleAction::StartStream));

    let action = controller.step(LifecycleEvent::StopRequested);
    assert_eq!(controller.phase, LifecyclePhase::Stopping);
    assert_eq!(action, Some(LifecycleAction::SignalShutdown));

    let action = controller.step(LifecycleEvent::StreamStopped);
    assert_eq!(controller.phase, LifecyclePhase::Stopping);
    assert_eq!(action, Some(LifecycleAction::JoinListener));

    let action = controller.step(LifecycleEvent::ListenerJoined);
    assert_eq!(controller.phase, LifecyclePhase::Stopped);
    assert_eq!(action, None);
}

#[test]
fn stopped_is_terminal() {
    let mut controller = LifecycleController::new();
    controller.step(LifecycleEvent::StartRequested);
    controller.step(LifecycleEvent::ListenerSpawned);
    controller.step(LifecycleEvent::StopRequested);
    controller.step(LifecycleEvent::StreamStopped);
    controller.step(LifecycleEvent::ListenerJoined);
    assert_eq!(controller.phase, LifecyclePhase::Stopped);

    let events = [
        LifecycleEvent::StartRequested,
        LifecycleEvent::ListenerSpawned,
        LifecycleEvent::StreamStarted,
        LifecycleEvent::StopRequested,
        LifecycleEvent::StreamStopped,
        LifecycleEvent::ListenerJoined,
    ];
    for event in events {
        assert_eq!(controller.step(event), None);
        assert_eq!(controller.phase, LifecyclePhase::Stopped);
    }
}

#[test]
fn events_out_of_phase_change_nothing() {
    let mut controller = LifecycleController::new();
    // nothing to stop or join while idle
    assert_eq!(controller.step(LifecycleEvent::StopRequested), None);
    assert_eq!(controller.step(LifecycleEvent::ListenerJoined), None);
    assert_eq!(controller.phase, LifecyclePhase::Idle);

    controller.step(LifecycleEvent::StartRequested);
    // a second start request while listening is ignored
    assert_eq!(controller.step(LifecycleEvent::StartRequested), None);
    assert_eq!(controller.phase, LifecyclePhase::Listening);
}
