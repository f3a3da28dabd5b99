use geo_loc::bridge::{
    closed_channel_outcome, delegate_response, effective_timeout, Bridge, BridgeAction,
    BridgeEvent, BridgePhase, CoreLocationError, DelegateCallback, NativeOutcome, PendingSlot,
    Registration, RegistrationStep,
};
use geo_loc::location::NativeFix;

fn fix(lat: f64) -> NativeFix {
    NativeFix {
        latitude: lat.to_bits(),
        longitude: 0.0f64.to_bits(),
        accuracy: 1.0f64.to_bits(),
        timestamp: 0.0f64.to_bits(),
    }
}

fn streaming() -> Bridge {
    let mut b = Bridge::new();
    assert!(matches!(b.handle(BridgeEvent::ServiceStatus(true)), BridgeAction::QueryAuthorization));
    assert!(matches!(b.handle(BridgeEvent::AuthorizationStatus(3)), BridgeAction::StartUpdates));
    assert!(matches!(b.handle(BridgeEvent::Started), BridgeAction::AwaitDelivery));
    b
}

#[test]
fn delegate_class_is_singleton() {
    let mut reg = Registration::new();
    let first = reg.register_or_reuse(0x1000);
    let second = reg.register_or_reuse(0x2000);
    assert_eq!(first, second);
}

#[test]
fn registration_steps() {
    let mut reg = Registration::new();
    assert_eq!(reg.next_step(), RegistrationStep::Register);
    reg.register_or_reuse(0x1000);
    assert_eq!(reg.next_step(), RegistrationStep::Reuse(0x1000));
}

#[test]
fn disabled_service_fails_without_streaming() {
    let mut b = Bridge::new();
    match b.handle(BridgeEvent::ServiceStatus(false)) {
        BridgeAction::Finish(Err(CoreLocationError::ServiceDisabled)) => {}
        _ => panic!("expected ServiceDisabled"),
    }
    assert!(!b.stream_started);
    assert!(matches!(b.handle(BridgeEvent::Started), BridgeAction::Ignore));
    assert!(!b.stream_started);
}

#[test]
fn refused_authorization_fails_without_streaming() {
    for status in [1, 2] {
        let mut b = Bridge::new();
        b.handle(BridgeEvent::ServiceStatus(true));
        match b.handle(BridgeEvent::AuthorizationStatus(status)) {
            BridgeAction::Finish(Err(CoreLocationError::AuthorizationDenied)) => {}
            _ => panic!("expected AuthorizationDenied"),
        }
        assert!(!b.stream_started);
        assert_eq!(b.phase, BridgePhase::Finished);
    }
}

#[test]
fn undetermined_authorization_starts_updates() {
    let mut b = Bridge::new();
    b.handle(BridgeEvent::ServiceStatus(true));
    assert!(matches!(b.handle(BridgeEvent::AuthorizationStatus(0)), BridgeAction::StartUpdates));
    match b.handle(BridgeEvent::StartFailed("no manager".to_string())) {
        BridgeAction::Finish(Err(CoreLocationError::Failed(r))) => assert_eq!(r, "no manager"),
        _ => panic!("expected Failed"),
    }
}

#[test]
fn first_delivery_wins() {
    let mut b = streaming();
    match b.handle(BridgeEvent::Delivered(NativeOutcome::Fix(fix(10.0)))) {
        BridgeAction::Finish(Ok(f)) => assert_eq!(f, fix(10.0)),
        _ => panic!("expected the fix"),
    }
    let late = BridgeEvent::Delivered(NativeOutcome::Failure("late".to_string()));
    assert!(matches!(b.handle(late), BridgeAction::Ignore));
}

#[test]
fn slot_hands_out_once() {
    let mut slot = PendingSlot::new(7u32);
    let a = slot.take();
    let b = slot.take();
    assert_eq!((a, b), (Some(7), None));
}

#[test]
fn timeout_stops_once_then_fails() {
    let mut b = streaming();
    assert!(matches!(b.handle(BridgeEvent::DeadlineElapsed), BridgeAction::StopUpdates));
    assert!(matches!(b.handle(BridgeEvent::DeadlineElapsed), BridgeAction::Ignore));
    assert!(matches!(
        b.handle(BridgeEvent::StopSent),
        BridgeAction::Finish(Err(CoreLocationError::Timeout))
    ));
    assert!(matches!(b.handle(BridgeEvent::DeadlineElapsed), BridgeAction::Ignore));
    assert_eq!(b.stops_issued, 1);
}

#[test]
fn closed_channel_is_a_failure() {
    let mut b = streaming();
    match b.handle(BridgeEvent::Delivered(closed_channel_outcome())) {
        BridgeAction::Finish(Err(CoreLocationError::Failed(r))) => {
            assert_eq!(r, "CoreLocation channel closed")
        }
        _ => panic!("expected Failed"),
    }
}

#[test]
fn delegate_uses_most_recent_fix() {
    let (o, stop) = delegate_response(DelegateCallback::Updated(vec![fix(1.0), fix(2.0)]), true);
    assert_eq!(o, Some(NativeOutcome::Fix(fix(2.0))));
    assert!(stop);
    assert_eq!(delegate_response(DelegateCallback::Updated(vec![]), true), (None, false));
    let (o, stop) = delegate_response(DelegateCallback::Failed("denied".to_string()), true);
    assert_eq!(o, Some(NativeOutcome::Failure("denied".to_string())));
    assert!(stop);
}

#[test]
fn zero_timeout_uses_default() {
    assert_eq!(effective_timeout(0), 5000);
    assert_eq!(effective_timeout(1), 1);
    assert_eq!(effective_timeout(2500), 2500);
}

#[test]
fn core_location_messages() {
    assert_eq!(CoreLocationError::AuthorizationDenied.message(), "CoreLocation authorization denied");
    assert_eq!(CoreLocationError::Timeout.message(), "Timed out waiting for CoreLocation fix");
    assert_eq!(CoreLocationError::Failed("x".to_string()).message(), "CoreLocation error: x");
    assert_eq!(CoreLocationError::ServiceDisabled.message(), "Location services disabled");
}

#[test]
fn detached_delegate_only_stops() {
    assert_eq!(delegate_response(DelegateCallback::Updated(vec![]), false), (None, true));
    assert_eq!(delegate_response(DelegateCallback::Updated(vec![fix(1.0)]), false), (None, true));
    assert_eq!(delegate_response(DelegateCallback::Failed("x".to_string()), false), (None, true));
}
