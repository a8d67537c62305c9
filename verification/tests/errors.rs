use blinds::driver::calibration_due;
use blinds::driver::motor::MotorStatus;
use blinds::error::DriverError;
use blinds::routes::{
    http_status, CLOSE_BLINDS_PATH, OPEN_BLINDS_PATH, STATUS_INTERNAL_SERVER_ERROR, STATUS_OK,
};

#[test]
fn errors_say_what_went_wrong() {
    assert_eq!(
        DriverError::BadMotorStatus(MotorStatus::Stuck).message(),
        "bad motor status Stuck"
    );
    assert_eq!(
        DriverError::BadMotorStatus(MotorStatus::OutsideLimits).message(),
        "bad motor status OutsideLimits"
    );
    assert_eq!(DriverError::MissingMotorConfig.message(), "missing motor config");
    assert_eq!(DriverError::MissingRoomConfiguration.message(), "missing room configuration");
    assert_eq!(DriverError::BothRoomConfigsPresent.message(), "found both room configurations");
    assert_eq!(DriverError::WaitingForStopTimedOut.message(), "waiting for stop timed out");
    assert_eq!(DriverError::PartialPositionOutOfRange.message(), "partial position out of range");
    assert_eq!(DriverError::PartialPositionUnsupported.message(), "partial position unsupported");
    assert_eq!(DriverError::MalformedPayload.message(), "malformed payload");
    assert_eq!(DriverError::Transport.message(), "transport failed");
}

#[test]
fn statuses_have_their_names() {
    for (status, name) in [
        (MotorStatus::Unknown, "Unknown"),
        (MotorStatus::Limp, "Limp"),
        (MotorStatus::FreeMoving, "FreeMoving"),
        (MotorStatus::Accelerating, "Accelerating"),
        (MotorStatus::Traveling, "Traveling"),
        (MotorStatus::Decelerating, "Decelerating"),
        (MotorStatus::Holding, "Holding"),
        (MotorStatus::OutsideLimits, "OutsideLimits"),
        (MotorStatus::Stuck, "Stuck"),
        (MotorStatus::Blocked, "Blocked"),
        (MotorStatus::SafeMode, "SafeMode"),
    ] {
        assert_eq!(status.name(), name);
        assert_eq!(format!("{:?}", status), name);
    }
}

#[test]
fn http_callers_learn_whether_it_worked_and_no_more() {
    assert_eq!(http_status(&Ok(())), 200);
    assert_eq!(STATUS_OK, 200);
    assert_eq!(STATUS_INTERNAL_SERVER_ERROR, 500);
    for error in [
        DriverError::BadMotorStatus(MotorStatus::Blocked),
        DriverError::MissingMotorConfig,
        DriverError::WaitingForStopTimedOut,
        DriverError::PartialPositionOutOfRange,
        DriverError::Transport,
    ] {
        assert_eq!(http_status(&Err(error)), 500);
    }
    assert_eq!(OPEN_BLINDS_PATH, "/open_blinds");
    assert_eq!(CLOSE_BLINDS_PATH, "/close_blinds");
}

#[test]
fn calibration_at_startup_follows_fresh_configs_and_requests() {
    assert!(!calibration_due(false, false));
    assert!(calibration_due(true, false));
    assert!(calibration_due(false, true));
    assert!(calibration_due(true, true));
}
