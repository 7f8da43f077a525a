use hamilton::angle::{angle_from, normalize_angle, MICRO};
use hamilton::holonomic_controller::{HolonomicWheelCommand, MoveCommand};
use hamilton::lidar::{Lidar, ScanPoint};
use hamilton::navigation::{calculate_drive_gains, NavigationController, Pose2d};

fn deg(d: f64) -> i64 {
    (d.to_radians() * 1e6).round() as i64
}

#[test]
fn navigation_test_creation_with_into() {
    let _pose = Pose2d::new((10 * MICRO, 10 * MICRO), 10 * MICRO);
}

#[test]
fn navigation_rotation_angle_to() {
    let pose = Pose2d::new((0, 0), deg(0.0));
    let target = Pose2d::new((0, 0), deg(90.0));
    let angle_to = angle_from(pose.rotation(), target.rotation());
    assert_eq!(angle_to, deg(90.0));
}

#[test]
fn navigation_rotation_angle_to_inverted() {
    let pose = Pose2d::new((0, 0), deg(0.0));
    let target = Pose2d::new((0, 0), deg(-90.0));
    let angle_to = angle_from(pose.rotation(), target.rotation());
    assert_eq!(angle_to, deg(-90.0));
}

#[test]
fn navigation_rotation_angle_to_wrap() {
    let pose = Pose2d::new((0, 0), deg(-170.0));
    let target = Pose2d::new((0, 0), deg(170.0));
    let angle_to = angle_from(pose.rotation(), target.rotation());
    assert!(((angle_to - deg(-20.0)) as f64).abs() <= 0.00001 * deg(20.0) as f64);
}

#[test]
fn angle_from_reverses() {
    let a = deg(-170.0);
    let b = deg(170.0);
    assert_eq!(angle_from(a, b), -angle_from(b, a));
    assert_eq!(angle_from(b, a), 349_066);
}

#[test]
fn angle_from_half_turn_reads_positive() {
    assert_eq!(angle_from(0, 3_141_593), 3_141_593);
    assert_eq!(angle_from(3_141_593, 0), 3_141_593);
}

#[test]
fn pose_rotation_is_normalised() {
    let pose = Pose2d::new((10, 10), 10_000_000);
    assert_eq!(pose.rotation(), -2_566_372);
    assert_eq!(normalize_angle(-3_141_593), 3_141_593);
}

#[test]
fn drive_gains_one_metre_ahead() {
    let current = Pose2d::new((0, 0), 0);
    let target = Pose2d::new((MICRO, 0), 0);
    let command = calculate_drive_gains(&current, &target);
    assert_eq!(command.yaw(), 0);
    assert_ne!(command.forward(), 0);
    assert!(command.forward().abs() <= 500_000);
    assert_eq!(command, MoveCommand::new(500_000, 0, 0));
}

#[test]
fn drive_gains_in_body_frame() {
    // facing +y, the target 1 m along +y is straight ahead
    let current = Pose2d::new((0, 0), deg(90.0));
    let target = Pose2d::new((0, MICRO), deg(90.0));
    let command = calculate_drive_gains(&current, &target);
    assert_eq!(command, MoveCommand::new(500_000, 0, 0));
    // a target to the left strafes
    let target = Pose2d::new((-MICRO, 0), deg(90.0));
    let command = calculate_drive_gains(&current, &target);
    assert_eq!(command, MoveCommand::new(0, 500_000, 0));
}

#[test]
fn drive_gains_dead_band() {
    let current = Pose2d::new((0, 0), 0);
    // 1 cm ahead: raw output 0.1, under the dead band
    let near = Pose2d::new((10_000, 0), 0);
    assert_eq!(calculate_drive_gains(&current, &near), MoveCommand::new(0, 0, 0));
    // 2 cm ahead: raw output 0.2 passes
    let farther = Pose2d::new((20_000, 0), 0);
    assert_eq!(calculate_drive_gains(&current, &farther), MoveCommand::new(200_000, 0, 0));
    // a small turn is snapped to zero, a larger one clamped
    let small_turn = Pose2d::new((0, 0), 100_000);
    assert_eq!(calculate_drive_gains(&current, &small_turn).yaw(), 0);
    let large_turn = Pose2d::new((0, 0), deg(90.0));
    assert_eq!(calculate_drive_gains(&current, &large_turn).yaw(), 500_000);
    let reverse_turn = Pose2d::new((0, 0), -200_000);
    assert_eq!(calculate_drive_gains(&current, &reverse_turn).yaw(), -200_000);
}

fn controller(now: u64) -> NavigationController {
    NavigationController::new(Lidar::open(), now)
}

#[test]
fn tick_manual_command_overrides_target() {
    let mut nav = controller(0);
    let target = Pose2d::new((MICRO, 0), 0);
    nav.set_target(target);
    let manual = MoveCommand::new(0, 300_000, 0);
    nav.set_user_command(manual, 10_000);
    let pose = Some(Pose2d::new((0, 0), 0));
    let out = nav.tick(10_500, pose);
    assert_eq!(out.command, HolonomicWheelCommand::from_move(0, 300_000, 0));
    assert_eq!(out.robot_pose, pose);
    assert_eq!(out.target_pose, None);
    assert_eq!(nav.target, None);
}

#[test]
fn tick_target_seeking_resumes_after_timeout() {
    let mut nav = controller(0);
    nav.set_user_command(MoveCommand::new(0, 300_000, 0), 10_000);
    let target = Pose2d::new((MICRO, 0), 0);
    nav.set_target(target);
    let pose = Some(Pose2d::new((0, 0), 0));
    let out = nav.tick(11_000, pose);
    assert_eq!(out.command, HolonomicWheelCommand::from_move(500_000, 0, 0));
    assert_eq!(out.target_pose, Some(target));
    assert_eq!(nav.target, Some(target));
}

#[test]
fn tick_not_localised_stops() {
    let mut nav = controller(0);
    nav.set_target(Pose2d::new((MICRO, 0), 0));
    let out = nav.tick(5_000, None);
    assert_eq!(out.command, HolonomicWheelCommand::stopped());
    assert_eq!(out.robot_pose, None);
}

#[test]
fn tick_no_target_stops() {
    let mut nav = controller(0);
    let out = nav.tick(5_000, Some(Pose2d::new((0, 0), 0)));
    assert_eq!(out.command, HolonomicWheelCommand::stopped());
}

#[test]
fn tick_fresh_controller_is_under_manual_stop() {
    let mut nav = controller(1_000);
    nav.set_target(Pose2d::new((MICRO, 0), 0));
    let out = nav.tick(1_500, Some(Pose2d::new((0, 0), 0)));
    assert_eq!(out.command, HolonomicWheelCommand::stopped());
    assert_eq!(nav.target, None);
}

#[test]
fn tick_veto_keeps_only_rotation() {
    let mut nav = controller(0);
    // an obstacle 10 cm straight ahead of a forward move (scanner bearing 0)
    nav.collision_detector.lidar.store_scan(vec![ScanPoint::new(100_000, 0, true)], 20_000);
    nav.set_user_command(MoveCommand::new(400_000, 0, 200_000), 20_000);
    let out = nav.tick(20_100, None);
    assert_eq!(out.command, HolonomicWheelCommand::from_move(0, 0, 200_000));
    // once the scan is stale the move goes through
    nav.set_user_command(MoveCommand::new(400_000, 0, 200_000), 20_600);
    let out = nav.tick(20_600, None);
    assert_eq!(out.command, HolonomicWheelCommand::from_move(400_000, 0, 200_000));
}

#[test]
fn lidar_controls_through_controller() {
    let mut nav = controller(0);
    nav.stop_lidar();
    assert!(!nav.collision_detector.lidar.should_spin);
    nav.start_lidar();
    assert!(nav.collision_detector.lidar.should_spin);
    nav.clear_target();
    assert_eq!(nav.target, None);
}

#[test]
fn drive_gains_ignore_a_common_offset() {
    let current = Pose2d::new((0, 0), deg(30.0));
    let target = Pose2d::new((40_000, -25_000), deg(50.0));
    let moved_current = Pose2d::new((3 * MICRO, -7 * MICRO), deg(30.0));
    let moved_target = Pose2d::new((3 * MICRO + 40_000, -7 * MICRO - 25_000), deg(50.0));
    assert_eq!(
        calculate_drive_gains(&current, &target),
        calculate_drive_gains(&moved_current, &moved_target)
    );
}
