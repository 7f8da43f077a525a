use hamilton::angle::MICRO;
use hamilton::controller_service::{Action, ActionList};
use hamilton::driver::{default_port, DriverType, MotorConfig};
use hamilton::gamepad::Axis;
use hamilton::holonomic_controller::{HolonomicWheelCommand, MoveCommand};
use hamilton::ir_tracker_localiser::{IrTrackers, Point2};
use hamilton::lidar::{default_lidar_port, plan_step, record_grab, GrabOutcome, Lidar, LidarStep, ScanPoint};
use hamilton::localisation::{LocalisationError, LocalisationManager, LocaliserType};
use hamilton::navigation::Pose2d;
use hamilton::simple_collision_detector::{collision_check, SimpleCollisionDetector};
use hamilton::trig::{atan2, cos_sin};

#[test]
fn mixing_law_values() {
    let w = HolonomicWheelCommand::from_move(300_000, 100_000, 200_000);
    assert_eq!(w.left_front(), 0);
    assert_eq!(w.right_front(), 600_000);
    assert_eq!(w.left_rear(), 200_000);
    assert_eq!(w.right_rear(), 400_000);
}

#[test]
fn mixing_round_trip() {
    let m = MoveCommand::new(-300_000, 120_000, 450_000);
    let w = HolonomicWheelCommand::from_move_command(&m);
    assert_eq!(w.to_move_command(), m);
}

#[test]
fn unmixing_rounds_down() {
    let w = HolonomicWheelCommand::new(1, 0, 0, 0);
    assert_eq!(w.to_move_command(), MoveCommand::new(0, -1, -1));
}

#[test]
fn rotation_only_keeps_yaw() {
    let m = MoveCommand::new(1, 2, 3);
    assert_eq!(m.with_rotation_only(), MoveCommand::new(0, 0, 3));
    assert_eq!(HolonomicWheelCommand::stopped(), HolonomicWheelCommand::new(0, 0, 0, 0));
}

#[test]
fn integer_trig_values() {
    assert_eq!(atan2(0, 5), 0);
    assert_eq!(atan2(1, 0), 1_570_796);
    assert_eq!(atan2(0, -1), 3_141_593);
    assert_eq!(atan2(1, 1), 785_409);
    assert_eq!(atan2(-1, -1), -2_356_184);
    assert_eq!(atan2(0, 0), 0);
    assert_eq!(cos_sin(0), (MICRO, 0));
    assert_eq!(cos_sin(523_599), (866_026, 500_000));
    assert_eq!(cos_sin(3_141_593), (-MICRO, 0));
}

fn forward() -> MoveCommand {
    MoveCommand::new(400_000, 0, 0)
}

#[test]
fn collision_no_scan_is_safe() {
    let detector = SimpleCollisionDetector::new(Lidar::open());
    assert!(detector.check_move_safe(&forward(), 0));
}

#[test]
fn collision_obstacle_ahead_is_unsafe() {
    let scan = vec![ScanPoint::new(200_000, 0, true)];
    assert!(!collision_check(&scan, &forward()));
    let mut detector = SimpleCollisionDetector::new(Lidar::open());
    detector.lidar.store_scan(scan, 1_000);
    assert!(!detector.check_move_safe(&forward(), 1_200));
    // the scan is stale at 500 ms
    assert!(detector.check_move_safe(&forward(), 1_500));
}

#[test]
fn collision_cone_wraps_round_zero() {
    // a bearing just below a full turn is just beside straight ahead
    let scan = vec![ScanPoint::new(200_000, 6_000_000, true)];
    assert!(!collision_check(&scan, &forward()));
}

#[test]
fn collision_outside_cone_is_ignored() {
    let behind = ScanPoint::new(100_000, 3_141_593, true);
    let side = ScanPoint::new(100_000, 800_000, true);
    assert!(collision_check(&vec![behind, side], &forward()));
    // and backing up is what the reading behind blocks
    assert!(!collision_check(&vec![behind], &MoveCommand::new(-400_000, 0, 0)));
}

#[test]
fn collision_far_or_invalid_readings_are_safe() {
    let far = ScanPoint::new(300_001, 0, true);
    let invalid = ScanPoint::new(10_000, 0, false);
    assert!(collision_check(&vec![far, invalid], &forward()));
    let at_limit = ScanPoint::new(300_000, 0, true);
    assert!(!collision_check(&vec![at_limit], &forward()));
}

#[test]
fn lidar_scan_freshness() {
    let mut lidar = Lidar::open();
    assert!(lidar.get_last_scan(0).is_none());
    lidar.store_scan(vec![ScanPoint::new(1, 2, true)], 1_000);
    assert_eq!(lidar.get_last_scan(1_499).map(|s| s.len()), Some(1));
    assert!(lidar.get_last_scan(1_500).is_none());
    lidar.stop_motor();
    assert!(!lidar.should_spin);
    lidar.start_motor();
    assert!(lidar.should_spin);
    lidar.shutdown();
    assert!(lidar.should_exit && !lidar.should_spin);
}

#[test]
fn lidar_worker_steps() {
    assert_eq!(plan_step(true, true, true), (LidarStep::Exit, true));
    assert_eq!(plan_step(false, false, true), (LidarStep::Grab { restart: true }, true));
    assert_eq!(plan_step(true, false, true), (LidarStep::Grab { restart: false }, true));
    assert_eq!(plan_step(true, false, false), (LidarStep::Rest { halt: true }, false));
    assert_eq!(plan_step(false, false, false), (LidarStep::Rest { halt: false }, false));
}

#[test]
fn lidar_grab_outcomes() {
    let mut lidar = Lidar::open();
    assert!(record_grab(&mut lidar, GrabOutcome::Timeout, 5));
    assert!(lidar.last_scan.is_none());
    assert!(record_grab(&mut lidar, GrabOutcome::Scan(vec![ScanPoint::new(7, 0, true)]), 9));
    assert_eq!(lidar.last_scan.as_ref().map(|s| s.captured_at), Some(9));
    assert!(!record_grab(&mut lidar, GrabOutcome::Failed, 10));
    assert_eq!(lidar.last_scan.as_ref().map(|s| s.points.len()), Some(1));
}

fn pattern_frame() -> IrTrackers {
    IrTrackers::new(
        vec![
            Point2::new(500_000, 496_000),
            Point2::new(500_000, 504_000),
            Point2::new(506_928, 500_000),
            Point2::new(502_309, 520_000),
        ],
        1_000_000,
        1_000_000,
    )
}

#[test]
fn tracker_pose_expires() {
    let mut tracker = LocalisationManager::new(LocaliserType::IrMarker);
    assert_eq!(tracker.latest_pose(0), None);
    let pose = Pose2d::new((1, 2), 3);
    tracker.update_pose(pose, 1_000);
    assert_eq!(tracker.latest_pose(2_000), Some(pose));
    assert_eq!(tracker.latest_pose(2_001), None);
    assert_eq!(tracker.last_pose, pose);
}

#[test]
fn tracker_takes_queued_frames() {
    let mut tracker = LocalisationManager::new(LocaliserType::IrMarker);
    let empty = IrTrackers::new(vec![], 1_000_000, 1_000_000);
    let got = tracker.get_latest_pose(vec![pattern_frame(), empty], false, 100);
    assert_eq!(got, Ok(Some(Pose2d::new((500_000, 439_691), 0))));
    assert_eq!(tracker.last_update_time, Some(100));
}

#[test]
fn tracker_reports_disconnection() {
    let mut tracker = LocalisationManager::new(LocaliserType::IrMarker);
    let got = tracker.get_latest_pose(vec![pattern_frame()], true, 100);
    assert_eq!(got, Err(LocalisationError::Disconnected));
    // the frames queued before the sender went away still count
    assert_eq!(tracker.latest_pose(100), Some(Pose2d::new((500_000, 439_691), 0)));
}

#[test]
fn tracker_reports_nothing_before_a_frame_triangulates() {
    let mut tracker = LocalisationManager::new(LocaliserType::IrMarker);
    assert_eq!(tracker.latest_pose(0), None);
    let empty = IrTrackers::new(vec![], 1_000_000, 1_000_000);
    assert_eq!(tracker.get_latest_pose(vec![empty], false, 10), Ok(None));
    assert_eq!(tracker.last_update_time, None);
}

#[test]
fn default_device_paths() {
    assert_eq!(default_lidar_port(), "/dev/rplidar");
    assert_eq!(default_port(), "/dev/hamilton_dc_motors");
}

#[test]
fn small_message_types() {
    assert_eq!(Axis::all_axes().len(), 8);
    assert_eq!(Axis::all_axes()[7], Axis::DPadY);
    assert_eq!(DriverType::default(), DriverType::Arduino);
    let m = MotorConfig::new(2, true);
    assert_eq!((m.id, m.inverted), (2, true));
    let list = ActionList::new(vec![Action::new("a".to_string(), "b".to_string())]);
    assert_eq!(list.actions[0].id, "a");
}
