//! Poses, the proportional drive-gain law, and the controller that decides
//! each tick between manual control, seeking the target, and standing still.
use vstd::prelude::*;
use crate::angle::{angle_between, angle_from, is_angle, normalize_angle, wrap, MICRO};
use crate::fixed::div_floor;
use crate::holonomic_controller::{mixed, HolonomicWheelCommand, MoveCommand};
use crate::lidar::{is_fresh, Lidar};
use crate::simple_collision_detector::{current_scan, guard_allows, SimpleCollisionDetector};
use crate::trig::{abs, cos_of, cos_sin, sin_of};

verus! {

/// A position in micro-metres and a heading in micro-radians.
#[derive(Debug, Clone, Copy, PartialEq, Eq, Structural)]
pub struct Pose2d {
    pub x: i64,
    pub y: i64,
    pub rotation: i64,
}

impl Pose2d {
    /// The heading is normalised.
    pub open spec fn wf(self) -> bool {
        is_angle(self.rotation as int)
    }

    /// A pose at `position` with heading `rotation`, brought into (-pi, pi].
    pub fn new(position: (i64, i64), rotation: i64) -> (r: Pose2d)
        ensures
            r.x == position.0,
            r.y == position.1,
            r.rotation == wrap(rotation as int),
            r.wf(),
    {
        Pose2d { x: position.0, y: position.1, rotation: normalize_angle(rotation) }
    }

    pub fn position(&self) -> (r: (i64, i64))
        ensures
            r == (self.x, self.y),
    {
        (self.x, self.y)
    }

    pub fn rotation(&self) -> (r: i64)
        ensures
            r == self.rotation,
    {
        self.rotation
    }
}

/// Proportional gain on the position error (per metre, full scale).
pub const TRANSLATION_GAIN: i64 = 10;

/// Largest magnitude of each drive output: half of full scale.
pub const CLAMP: i64 = 500_000;

/// Outputs smaller than this in magnitude are snapped to zero.
pub const DEAD_BAND: i64 = 150_000;

pub open spec fn clamp(v: int, lo: int, hi: int) -> int {
    if v < lo {
        lo
    } else if v > hi {
        hi
    } else {
        v
    }
}

pub open spec fn dead_band(v: int) -> int {
    if abs(v) < DEAD_BAND {
        0
    } else {
        v
    }
}

/// The offset from `target` to `current`, turned into `current`'s own frame
/// (forward, left), in micro-metres rounded down.
pub open spec fn body_error(current: Pose2d, target: Pose2d) -> (int, int) {
    let tx = current.x - target.x;
    let ty = current.y - target.y;
    let c = cos_of(current.rotation as int);
    let s = sin_of(current.rotation as int);
    ((c * tx + s * ty) / (MICRO as int), (-s * tx + c * ty) / (MICRO as int))
}

/// The forward and strafe outputs before the dead band: the body-frame error
/// times the gain, clamped, reversed.
pub open spec fn raw_forward(current: Pose2d, target: Pose2d) -> int {
    -clamp(body_error(current, target).0 * TRANSLATION_GAIN, -CLAMP as int, CLAMP as int)
}

pub open spec fn raw_strafe(current: Pose2d, target: Pose2d) -> int {
    -clamp(body_error(current, target).1 * TRANSLATION_GAIN, -CLAMP as int, CLAMP as int)
}

/// The yaw output before the dead band: the shorter turn to the target
/// heading, clamped.
pub open spec fn raw_yaw(current: Pose2d, target: Pose2d) -> int {
    clamp(angle_between(current.rotation as int, target.rotation as int), -CLAMP as int, CLAMP as int)
}

/// The drive-gain law.
pub open spec fn drive_gains(current: Pose2d, target: Pose2d) -> MoveCommand {
    MoveCommand {
        forward: dead_band(raw_forward(current, target)) as i64,
        strafe: dead_band(raw_strafe(current, target)) as i64,
        yaw: dead_band(raw_yaw(current, target)) as i64,
    }
}

fn clamp_exec(v: i128, lo: i128, hi: i128) -> (r: i128)
    ensures
        r == clamp(v as int, lo as int, hi as int),
{
    if v < lo {
        lo
    } else if v > hi {
        hi
    } else {
        v
    }
}

fn dead_band_exec(v: i128) -> (r: i128)
    ensures
        r == dead_band(v as int),
{
    if -(DEAD_BAND as i128) < v && v < DEAD_BAND as i128 {
        0
    } else {
        v
    }
}

/// The move that takes `current` towards `target`: the drive-gain law.
pub fn calculate_drive_gains(current: &Pose2d, target: &Pose2d) -> (r: MoveCommand)
    requires
        current.wf(),
        target.wf(),
    ensures
        r == drive_gains(*current, *target),
        abs(raw_forward(*current, *target)) < DEAD_BAND ==> r.forward == 0,
        abs(raw_strafe(*current, *target)) < DEAD_BAND ==> r.strafe == 0,
        abs(raw_yaw(*current, *target)) < DEAD_BAND ==> r.yaw == 0,
        r.forward == 0 || abs(r.forward as int) >= DEAD_BAND,
        r.strafe == 0 || abs(r.strafe as int) >= DEAD_BAND,
        r.yaw == 0 || abs(r.yaw as int) >= DEAD_BAND,
        -CLAMP <= r.forward <= CLAMP,
        -CLAMP <= r.strafe <= CLAMP,
        -CLAMP <= r.yaw <= CLAMP,
        r.mixable(),
{
    let (c, s) = cos_sin(current.rotation);
    let tx: i128 = current.x as i128 - target.x as i128;
    let ty: i128 = current.y as i128 - target.y as i128;
    let c = c as i128;
    let s = s as i128;
    proof {
        assert(-2 * MICRO * 0x1_0000_0000_0000_0000 <= c * tx <= 2 * MICRO * 0x1_0000_0000_0000_0000)
            by (nonlinear_arith)
            requires -2 * MICRO <= c <= 2 * MICRO, -0x1_0000_0000_0000_0000 <= tx <= 0x1_0000_0000_0000_0000;
        assert(-2 * MICRO * 0x1_0000_0000_0000_0000 <= c * ty <= 2 * MICRO * 0x1_0000_0000_0000_0000)
            by (nonlinear_arith)
            requires -2 * MICRO <= c <= 2 * MICRO, -0x1_0000_0000_0000_0000 <= ty <= 0x1_0000_0000_0000_0000;
        assert(-2 * MICRO * 0x1_0000_0000_0000_0000 <= s * tx <= 2 * MICRO * 0x1_0000_0000_0000_0000)
            by (nonlinear_arith)
            requires -2 * MICRO <= s <= 2 * MICRO, -0x1_0000_0000_0000_0000 <= tx <= 0x1_0000_0000_0000_0000;
        assert(-2 * MICRO * 0x1_0000_0000_0000_0000 <= s * ty <= 2 * MICRO * 0x1_0000_0000_0000_0000)
            by (nonlinear_arith)
            requires -2 * MICRO <= s <= 2 * MICRO, -0x1_0000_0000_0000_0000 <= ty <= 0x1_0000_0000_0000_0000;
        assert(-s * tx == -(s * tx)) by (nonlinear_arith);
    }
    let bx = div_floor(c * tx + s * ty, MICRO as i128);
    let by = div_floor(-s * tx + c * ty, MICRO as i128);
    proof {
        let big: int = 0x4_0000_0000_0000_0000;
        assert(MICRO * big == 4 * MICRO * 0x1_0000_0000_0000_0000);
        assert(MICRO * -big == -4 * MICRO * 0x1_0000_0000_0000_0000);
        vstd::arithmetic::div_mod::lemma_div_multiples_vanish(big, MICRO as int);
        vstd::arithmetic::div_mod::lemma_div_multiples_vanish(-big, MICRO as int);
        vstd::arithmetic::div_mod::lemma_div_is_ordered(c * tx + s * ty, MICRO * big, MICRO as int);
        vstd::arithmetic::div_mod::lemma_div_is_ordered(MICRO * -big, c * tx + s * ty, MICRO as int);
        vstd::arithmetic::div_mod::lemma_div_is_ordered(-s * tx + c * ty, MICRO * big, MICRO as int);
        vstd::arithmetic::div_mod::lemma_div_is_ordered(MICRO * -big, -s * tx + c * ty, MICRO as int);
        assert(-10 * big <= bx * TRANSLATION_GAIN <= 10 * big) by (nonlinear_arith)
            requires -big <= bx <= big, TRANSLATION_GAIN == 10;
        assert(-10 * big <= by * TRANSLATION_GAIN <= 10 * big) by (nonlinear_arith)
            requires -big <= by <= big, TRANSLATION_GAIN == 10;
    }
    let forward = dead_band_exec(-clamp_exec(bx * (TRANSLATION_GAIN as i128), -(CLAMP as i128), CLAMP as i128));
    let strafe = dead_band_exec(-clamp_exec(by * (TRANSLATION_GAIN as i128), -(CLAMP as i128), CLAMP as i128));
    let turn = angle_from(current.rotation, target.rotation);
    let yaw = dead_band_exec(clamp_exec(turn as i128, -(CLAMP as i128), CLAMP as i128));
    MoveCommand { forward: forward as i64, strafe: strafe as i64, yaw: yaw as i64 }
}

/// Moving both poses by the same offset leaves the drive gains unchanged:
/// the law reads only their difference and the current heading.
pub proof fn lemma_drive_gains_shift(current: Pose2d, target: Pose2d, dx: int, dy: int)
    requires
        i64::MIN <= current.x + dx <= i64::MAX,
        i64::MIN <= current.y + dy <= i64::MAX,
        i64::MIN <= target.x + dx <= i64::MAX,
        i64::MIN <= target.y + dy <= i64::MAX,
    ensures
        drive_gains(
            Pose2d { x: (current.x + dx) as i64, y: (current.y + dy) as i64, rotation: current.rotation },
            Pose2d { x: (target.x + dx) as i64, y: (target.y + dy) as i64, rotation: target.rotation },
        ) == drive_gains(current, target),
{
    let c2 = Pose2d { x: (current.x + dx) as i64, y: (current.y + dy) as i64, rotation: current.rotation };
    let t2 = Pose2d { x: (target.x + dx) as i64, y: (target.y + dy) as i64, rotation: target.rotation };
    assert(c2.x - t2.x == current.x - target.x);
    assert(c2.y - t2.y == current.y - target.y);
    assert(body_error(c2, t2) == body_error(current, target));
}

/// A manual command steers the robot for this long after it was issued,
/// in milliseconds.
pub const USER_COMMAND_TIMEOUT: u64 = 1000;

/// What one tick asks of the outside: the wheel values to send, and the
/// poses to publish for visualisation (the robot's, when localised).
#[derive(Debug, Clone, Copy, PartialEq, Eq, Structural)]
pub struct TickOutput {
    pub command: HolonomicWheelCommand,
    pub robot_pose: Option<Pose2d>,
    pub target_pose: Option<Pose2d>,
}

/// The controller: the target, the latest manual command and when it came,
/// and the collision veto.
pub struct NavigationController {
    pub target: Option<Pose2d>,
    pub last_user_command: MoveCommand,
    pub last_user_command_time: u64,
    pub collision_detector: SimpleCollisionDetector,
}

/// A manual command issued at `time` is still in charge at `now`.
pub open spec fn manual_active(time: u64, now: u64) -> bool {
    is_fresh(time, now, USER_COMMAND_TIMEOUT)
}

/// The move a tick wants before the veto: the manual command while it is
/// recent, else the drive-gain law towards the target when localised, else
/// standing still.
pub open spec fn candidate_move(
    target: Option<Pose2d>,
    user_command: MoveCommand,
    user_command_time: u64,
    now: u64,
    pose: Option<Pose2d>,
) -> MoveCommand {
    if manual_active(user_command_time, now) {
        user_command
    } else {
        match (pose, target) {
            (Some(p), Some(t)) => drive_gains(p, t),
            _ => MoveCommand { forward: 0, strafe: 0, yaw: 0 },
        }
    }
}

/// The move after the veto: translation is dropped, turning kept, when the
/// veto refuses it.
pub open spec fn vetoed(allowed: bool, m: MoveCommand) -> MoveCommand {
    if allowed {
        m
    } else {
        MoveCommand { forward: 0, strafe: 0, yaw: m.yaw }
    }
}

impl NavigationController {
    pub open spec fn wf(self) -> bool {
        &&& self.last_user_command.mixable()
        &&& (self.target matches Some(t) ==> t.wf())
    }

    /// The move this controller's tick at `now` carries out, given the
    /// current pose.
    pub open spec fn planned_move(self, now: u64, pose: Option<Pose2d>) -> MoveCommand {
        let m = candidate_move(
            self.target,
            self.last_user_command,
            self.last_user_command_time,
            now,
            pose,
        );
        vetoed(guard_allows(current_scan(self.collision_detector.lidar, now), m), m)
    }

    /// A controller with no target and a stopped manual command issued at
    /// `now`.
    pub fn new(lidar: Lidar, now: u64) -> (r: NavigationController)
        ensures
            r.wf(),
            r.target is None,
            r.last_user_command == (MoveCommand { forward: 0, strafe: 0, yaw: 0 }),
            r.last_user_command_time == now,
            r.collision_detector.lidar == lidar,
    {
        NavigationController {
            target: None,
            last_user_command: MoveCommand::stopped(),
            last_user_command_time: now,
            collision_detector: SimpleCollisionDetector::new(lidar),
        }
    }

    pub fn set_target(&mut self, target: Pose2d)
        requires
            old(self).wf(),
            target.wf(),
        ensures
            final(self).wf(),
            final(self).target == Some(target),
            final(self).last_user_command == old(self).last_user_command,
            final(self).last_user_command_time == old(self).last_user_command_time,
            final(self).collision_detector == old(self).collision_detector,
    {
        self.target = Some(target);
    }

    pub fn clear_target(&mut self)
        requires
            old(self).wf(),
        ensures
            final(self).wf(),
            final(self).target is None,
            final(self).last_user_command == old(self).last_user_command,
            final(self).last_user_command_time == old(self).last_user_command_time,
            final(self).collision_detector == old(self).collision_detector,
    {
        self.target = None;
    }

    /// Records a manual command issued at `time`.
    pub fn set_user_command(&mut self, command: MoveCommand, time: u64)
        requires
            old(self).wf(),
            command.mixable(),
        ensures
            final(self).wf(),
            final(self).target == old(self).target,
            final(self).last_user_command == command,
            final(self).last_user_command_time == time,
            final(self).collision_detector == old(self).collision_detector,
    {
        self.last_user_command = command;
        self.last_user_command_time = time;
    }

    /// One control tick at `now`, given the pose the tracker reports as
    /// current. A recent manual command clears the target and is obeyed;
    /// otherwise the target is sought when localised; otherwise the robot
    /// stops. The veto is applied last.
    pub fn tick(&mut self, now: u64, pose: Option<Pose2d>) -> (r: TickOutput)
        requires
            old(self).wf(),
            pose matches Some(p) ==> p.wf(),
        ensures
            final(self).wf(),
            r.command == mixed(old(self).planned_move(now, pose)),
            final(self).target == if manual_active(old(self).last_user_command_time, now) {
                None
            } else {
                old(self).target
            },
            final(self).last_user_command == old(self).last_user_command,
            final(self).last_user_command_time == old(self).last_user_command_time,
            final(self).collision_detector == old(self).collision_detector,
            r.robot_pose == pose,
            r.target_pose == final(self).target,
    {
        let manual = now <= self.last_user_command_time || now - self.last_user_command_time
            < USER_COMMAND_TIMEOUT;
        if manual {
            self.clear_target();
        }
        let candidate = if manual {
            self.last_user_command
        } else {
            match (&pose, &self.target) {
                (Some(p), Some(t)) => calculate_drive_gains(p, t),
                _ => MoveCommand::stopped(),
            }
        };
        let chosen = if self.collision_detector.check_move_safe(&candidate, now) {
            candidate
        } else {
            candidate.with_rotation_only()
        };
        TickOutput {
            command: HolonomicWheelCommand::from_move_command(&chosen),
            robot_pose: pose,
            target_pose: self.target,
        }
    }

    pub fn start_lidar(&mut self)
        requires
            old(self).wf(),
        ensures
            final(self).wf(),
            final(self).collision_detector.lidar.should_spin,
            final(self).collision_detector.lidar.should_exit
                == old(self).collision_detector.lidar.should_exit,
            final(self).collision_detector.lidar.last_scan
                == old(self).collision_detector.lidar.last_scan,
            final(self).target == old(self).target,
            final(self).last_user_command == old(self).last_user_command,
            final(self).last_user_command_time == old(self).last_user_command_time,
    {
        self.collision_detector.start_lidar();
    }

    pub fn stop_lidar(&mut self)
        requires
            old(self).wf(),
        ensures
            final(self).wf(),
            !final(self).collision_detector.lidar.should_spin,
            final(self).collision_detector.lidar.should_exit
                == old(self).collision_detector.lidar.should_exit,
            final(self).collision_detector.lidar.last_scan
                == old(self).collision_detector.lidar.last_scan,
            final(self).target == old(self).target,
            final(self).last_user_command == old(self).last_user_command,
            final(self).last_user_command_time == old(self).last_user_command_time,
    {
        self.collision_detector.stop_lidar();
    }
}

/// While a manual command is recent it decides the move, whatever the
/// target and the pose; once it has aged past the timeout, a localised
/// robot with a target follows the drive-gain law again. Either way the veto
/// comes last.
pub proof fn lemma_manual_priority(nav: NavigationController, now: u64, pose: Option<Pose2d>)
    ensures
        manual_active(nav.last_user_command_time, now) ==> nav.planned_move(now, pose) == vetoed(
            guard_allows(current_scan(nav.collision_detector.lidar, now), nav.last_user_command),
            nav.last_user_command,
        ),
        !manual_active(nav.last_user_command_time, now) && pose is Some && nav.target is Some
            ==> nav.planned_move(now, pose) == vetoed(
            guard_allows(
                current_scan(nav.collision_detector.lidar, now),
                drive_gains(pose->0, nav.target->0),
            ),
            drive_gains(pose->0, nav.target->0),
        ),
        !manual_active(nav.last_user_command_time, now) && (pose is None || nav.target is None)
            ==> nav.planned_move(now, pose) == (MoveCommand { forward: 0, strafe: 0, yaw: 0 }),
{
}

} // verus!
