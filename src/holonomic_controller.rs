//! High-level motion intents and the holonomic mixing law that turns them
//! into four wheel drive values.
use vstd::prelude::*;
use crate::fixed::div_floor;

verus! {

/// Largest magnitude of an intent component that can be mixed without
/// overflow: three of them must sum inside `i64`.
pub const COMMAND_LIMIT: i64 = 3_000_000_000_000_000_000;

/// A motion intent in millionths of full scale: forward, sideways (strafe)
/// and turning (yaw).
#[derive(Debug, Clone, Copy, PartialEq, Eq, Structural)]
pub struct MoveCommand {
    pub forward: i64,
    pub strafe: i64,
    pub yaw: i64,
}

/// Four independent wheel drive values.
#[derive(Debug, Clone, Copy, PartialEq, Eq, Structural)]
pub struct HolonomicWheelCommand {
    pub left_front: i64,
    pub right_front: i64,
    pub left_rear: i64,
    pub right_rear: i64,
}

impl MoveCommand {
    /// Each component fits the mixing law.
    pub open spec fn mixable(self) -> bool {
        -COMMAND_LIMIT <= self.forward <= COMMAND_LIMIT && -COMMAND_LIMIT <= self.strafe
            <= COMMAND_LIMIT && -COMMAND_LIMIT <= self.yaw <= COMMAND_LIMIT
    }

    pub fn new(forward: i64, strafe: i64, yaw: i64) -> (r: MoveCommand)
        ensures
            r == (MoveCommand { forward, strafe, yaw }),
    {
        MoveCommand { forward, strafe, yaw }
    }

    /// The intent that does not move at all.
    pub fn stopped() -> (r: MoveCommand)
        ensures
            r == (MoveCommand { forward: 0, strafe: 0, yaw: 0 }),
    {
        MoveCommand { forward: 0, strafe: 0, yaw: 0 }
    }

    pub fn forward(&self) -> (r: i64)
        ensures
            r == self.forward,
    {
        self.forward
    }

    pub fn strafe(&self) -> (r: i64)
        ensures
            r == self.strafe,
    {
        self.strafe
    }

    pub fn yaw(&self) -> (r: i64)
        ensures
            r == self.yaw,
    {
        self.yaw
    }

    /// The same intent with its translation removed: it may still turn on
    /// the spot.
    pub fn with_rotation_only(&self) -> (r: MoveCommand)
        ensures
            r == (MoveCommand { forward: 0, strafe: 0, yaw: self.yaw }),
    {
        MoveCommand { forward: 0, strafe: 0, yaw: self.yaw }
    }
}

/// The mixing law: wheel values for an intent.
pub open spec fn mixed(m: MoveCommand) -> HolonomicWheelCommand {
    HolonomicWheelCommand {
        left_front: (m.forward - m.yaw - m.strafe) as i64,
        right_front: (m.forward + m.yaw + m.strafe) as i64,
        left_rear: (m.forward - m.yaw + m.strafe) as i64,
        right_rear: (m.forward + m.yaw - m.strafe) as i64,
    }
}

/// The inverse of the mixing matrix, each component rounded down.
pub open spec fn unmixed(w: HolonomicWheelCommand) -> MoveCommand {
    MoveCommand {
        forward: ((w.left_front + w.right_front + w.left_rear + w.right_rear) / 4) as i64,
        strafe: ((w.right_front + w.left_rear - w.left_front - w.right_rear) / 4) as i64,
        yaw: ((w.right_front + w.right_rear - w.left_front - w.left_rear) / 4) as i64,
    }
}

impl HolonomicWheelCommand {
    pub fn new(left_front: i64, right_front: i64, left_rear: i64, right_rear: i64) -> (r:
        HolonomicWheelCommand)
        ensures
            r == (HolonomicWheelCommand { left_front, right_front, left_rear, right_rear }),
    {
        HolonomicWheelCommand { left_front, right_front, left_rear, right_rear }
    }

    /// All four wheels at rest.
    pub fn stopped() -> (r: HolonomicWheelCommand)
        ensures
            r == mixed(MoveCommand { forward: 0, strafe: 0, yaw: 0 }),
            r == (HolonomicWheelCommand { left_front: 0, right_front: 0, left_rear: 0, right_rear: 0 }),
    {
        HolonomicWheelCommand { left_front: 0, right_front: 0, left_rear: 0, right_rear: 0 }
    }

    /// Wheel values for a forward, strafe and yaw intent.
    pub fn from_move(forward: i64, strafe: i64, yaw: i64) -> (r: HolonomicWheelCommand)
        requires
            (MoveCommand { forward, strafe, yaw }).mixable(),
        ensures
            r == mixed(MoveCommand { forward, strafe, yaw }),
    {
        HolonomicWheelCommand::new(
            forward - yaw - strafe,
            forward + yaw + strafe,
            forward - yaw + strafe,
            forward + yaw - strafe,
        )
    }

    /// Wheel values for an intent.
    pub fn from_move_command(command: &MoveCommand) -> (r: HolonomicWheelCommand)
        requires
            command.mixable(),
        ensures
            r == mixed(*command),
    {
        HolonomicWheelCommand::from_move(command.forward, command.strafe, command.yaw)
    }

    /// The intent these wheel values stand for, through the inverse of the
    /// mixing matrix.
    pub fn to_move_command(&self) -> (r: MoveCommand)
        ensures
            r == unmixed(*self),
    {
        let lf = self.left_front as i128;
        let rf = self.right_front as i128;
        let lr = self.left_rear as i128;
        let rr = self.right_rear as i128;
        let forward = div_floor(lf + rf + lr + rr, 4);
        let strafe = div_floor(rf + lr - lf - rr, 4);
        let yaw = div_floor(rf + rr - lf - lr, 4);
        MoveCommand { forward: forward as i64, strafe: strafe as i64, yaw: yaw as i64 }
    }

    pub fn left_front(&self) -> (r: i64)
        ensures
            r == self.left_front,
    {
        self.left_front
    }

    pub fn right_front(&self) -> (r: i64)
        ensures
            r == self.right_front,
    {
        self.right_front
    }

    pub fn left_rear(&self) -> (r: i64)
        ensures
            r == self.left_rear,
    {
        self.left_rear
    }

    pub fn right_rear(&self) -> (r: i64)
        ensures
            r == self.right_rear,
    {
        self.right_rear
    }
}

/// Mixing an intent into wheel values and taking the inverse of the mixing
/// matrix gives the intent back exactly.
pub proof fn lemma_mixing_round_trip(m: MoveCommand)
    requires
        m.mixable(),
    ensures
        unmixed(mixed(m)) == m,
{
    let w = mixed(m);
    assert(w.left_front + w.right_front + w.left_rear + w.right_rear == 4 * m.forward);
    assert(w.right_front + w.left_rear - w.left_front - w.right_rear == 4 * m.strafe);
    assert(w.right_front + w.right_rear - w.left_front - w.left_rear == 4 * m.yaw);
}

} // verus!
