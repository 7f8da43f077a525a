//! The collision veto: a move is safe unless a current scan shows a close
//! obstacle inside the cone around the direction of travel.
use vstd::prelude::*;
use crate::angle::{angle_between, angle_from, is_angle, normalize_angle, wrap, HALF_TURN};
use crate::holonomic_controller::MoveCommand;
use crate::lidar::{is_fresh, Lidar, ScanPoint, SCAN_TIMEOUT};
use crate::trig::{abs, atan2, atan2_of};

verus! {

/// Readings closer than this (micro-metres) inside the cone veto a move.
pub const SAFE_DISTANCE: i64 = 300_000;

/// Half-width of the cone around the direction of travel: pi / 4.
pub const SCAN_AREA: i64 = 785_398;

/// The direction of travel of a move in the scanner's frame, which is turned
/// half a turn from the body frame and mirrored across its forward axis.
pub open spec fn move_direction_lidar(c: MoveCommand) -> int {
    wrap(atan2_of(c.strafe as int, -c.forward) + HALF_TURN)
}

/// A reading counts when it is usable and its bearing lies strictly within
/// the cone around `direction`.
pub open spec fn in_cone(p: ScanPoint, direction: int) -> bool {
    p.valid && abs(angle_between(direction, wrap(p.angle as int))) < SCAN_AREA
}

/// Every reading in the cone around the direction of travel is farther than
/// the safe distance.
pub open spec fn move_is_safe(scan: Seq<ScanPoint>, c: MoveCommand) -> bool {
    forall|i: int|
        0 <= i < scan.len() && #[trigger] in_cone(scan[i], move_direction_lidar(c))
            ==> scan[i].distance > SAFE_DISTANCE
}

/// The veto's decision: with no current scan every move is safe.
pub open spec fn guard_allows(scan: Option<Seq<ScanPoint>>, c: MoveCommand) -> bool {
    match scan {
        Some(s) => move_is_safe(s, c),
        None => true,
    }
}

/// Whether `command` is safe against the readings of `scan`.
pub fn collision_check(scan: &Vec<ScanPoint>, command: &MoveCommand) -> (r: bool)
    requires
        command.mixable(),
    ensures
        r == move_is_safe(scan@, *command),
{
    let heading = atan2(command.strafe, -command.forward);
    let direction = normalize_angle(heading + HALF_TURN);
    let mut i: usize = 0;
    while i < scan.len()
        invariant
            i <= scan@.len(),
            direction == move_direction_lidar(*command),
            is_angle(direction as int),
            forall|j: int|
                0 <= j < i && #[trigger] in_cone(scan@[j], direction as int) ==> scan@[j].distance
                    > SAFE_DISTANCE,
        decreases scan@.len() - i,
    {
        let p = scan[i];
        if p.valid {
            let bearing = normalize_angle(p.angle);
            let off = angle_from(direction, bearing);
            let off_abs: i64 = if off < 0 { -off } else { off };
            if off_abs < SCAN_AREA && p.distance <= SAFE_DISTANCE {
                assert(in_cone(scan@[i as int], direction as int));
                return false;
            }
        }
        i = i + 1;
    }
    true
}

/// The veto, reading the scanner's latest scan.
pub struct SimpleCollisionDetector {
    pub lidar: Lidar,
}

/// The scan the veto reads at `now`: the stored one while it is current.
pub open spec fn current_scan(lidar: Lidar, now: u64) -> Option<Seq<ScanPoint>> {
    match lidar.last_scan {
        Some(s) => if is_fresh(s.captured_at, now, SCAN_TIMEOUT) {
            Some(s.points@)
        } else {
            None
        },
        None => None,
    }
}

impl SimpleCollisionDetector {
    pub fn new(lidar: Lidar) -> (r: SimpleCollisionDetector)
        ensures
            r.lidar == lidar,
    {
        SimpleCollisionDetector { lidar }
    }

    /// Whether `command` may be carried out at `now`: true when no current
    /// scan exists, else as `collision_check` decides.
    pub fn check_move_safe(&self, command: &MoveCommand, now: u64) -> (r: bool)
        requires
            command.mixable(),
        ensures
            r == guard_allows(current_scan(self.lidar, now), *command),
    {
        match self.lidar.get_last_scan(now) {
            Some(scan) => collision_check(scan, command),
            None => true,
        }
    }

    pub fn start_lidar(&mut self)
        ensures
            final(self).lidar.should_spin,
            final(self).lidar.should_exit == old(self).lidar.should_exit,
            final(self).lidar.last_scan == old(self).lidar.last_scan,
    {
        self.lidar.start_motor();
    }

    pub fn stop_lidar(&mut self)
        ensures
            !final(self).lidar.should_spin,
            final(self).lidar.should_exit == old(self).lidar.should_exit,
            final(self).lidar.last_scan == old(self).lidar.last_scan,
    {
        self.lidar.stop_motor();
    }
}

/// With no current scan every move is safe.
pub proof fn lemma_no_scan_is_safe(c: MoveCommand)
    ensures
        guard_allows(None, c),
{
}

/// A usable reading closer than the safe distance, straight along the
/// direction of travel, makes the move unsafe.
pub proof fn lemma_obstacle_ahead_is_unsafe(scan: Seq<ScanPoint>, c: MoveCommand, i: int)
    requires
        0 <= i < scan.len(),
        scan[i].valid,
        wrap(scan[i].angle as int) == move_direction_lidar(c),
        scan[i].distance <= SAFE_DISTANCE,
    ensures
        !move_is_safe(scan, c),
        !guard_allows(Some(scan), c),
{
    crate::angle::lemma_wrap_is_angle(atan2_of(c.strafe as int, -c.forward) + HALF_TURN);
    crate::angle::lemma_wrap_identity(0);
    assert(angle_between(move_direction_lidar(c), wrap(scan[i].angle as int)) == 0);
    assert(in_cone(scan[i], move_direction_lidar(c)));
}

/// A reading outside the cone changes nothing: adding it to a scan keeps
/// the verdict.
pub proof fn lemma_outside_cone_ignored(scan: Seq<ScanPoint>, c: MoveCommand, p: ScanPoint)
    requires
        !in_cone(p, move_direction_lidar(c)),
    ensures
        move_is_safe(scan.push(p), c) == move_is_safe(scan, c),
{
    let s2 = scan.push(p);
    if move_is_safe(scan, c) {
        assert forall|i: int|
            0 <= i < s2.len() && #[trigger] in_cone(s2[i], move_direction_lidar(c)) implies s2[i].distance
            > SAFE_DISTANCE by {
            if i < scan.len() {
                assert(s2[i] == scan[i]);
            }
        }
    }
    if move_is_safe(s2, c) {
        assert forall|i: int|
            0 <= i < scan.len() && #[trigger] in_cone(scan[i], move_direction_lidar(c)) implies scan[i].distance
            > SAFE_DISTANCE by {
            assert(s2[i] == scan[i]);
        }
    }
}

} // verus!
