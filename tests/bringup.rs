use sensor_bringup::bringup::{Bringup, Stage};
use sensor_bringup::error::BringupError;

#[test]
fn stages_run_in_order_to_idle() {
    let mut b = Bringup::new();
    assert_eq!(b.stage, Stage::Handshake);
    let order = [
        Stage::Settle,
        Stage::ConfigureSensor,
        Stage::ArmBridge,
        Stage::Unmask,
        Stage::EnableNotifications,
        Stage::Idle,
        Stage::Idle,
    ];
    for s in order {
        assert_eq!(b.complete(Ok(())), s);
        assert!(!b.indicator_active);
    }
}

#[test]
fn every_error_parks_with_the_indicator_on() {
    let errors = [
        BringupError::BusTransactionFailure,
        BringupError::ProtocolViolation,
        BringupError::LineStuckTimeout { elapsed_ms: 5000 },
        BringupError::SensorInitFailure,
    ];
    for e in errors {
        let mut b = Bringup::new();
        b.complete(Ok(()));
        assert_eq!(b.complete(Err(e)), Stage::Parked(e));
        assert!(b.indicator_active);
        assert!(b.is_parked());
    }
}

#[test]
fn parked_keeps_its_first_error() {
    let mut b = Bringup::new();
    b.fail(BringupError::SensorInitFailure);
    assert_eq!(b.complete(Ok(())), Stage::Parked(BringupError::SensorInitFailure));
    b.fail(BringupError::ProtocolViolation);
    assert_eq!(b.stage, Stage::Parked(BringupError::SensorInitFailure));
    assert!(b.indicator_active);
}

#[test]
fn failing_from_idle_parks() {
    let mut b = Bringup::new();
    for _ in 0..6 {
        b.complete(Ok(()));
    }
    assert_eq!(b.stage, Stage::Idle);
    assert!(!b.is_parked());
    b.fail(BringupError::BusTransactionFailure);
    assert_eq!(b.stage, Stage::Parked(BringupError::BusTransactionFailure));
}
