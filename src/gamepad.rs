//! Gamepad buttons and axes, as the gamepad bridge names them.
use vstd::prelude::*;

verus! {

#[derive(Debug, PartialEq, Eq, Hash, PartialOrd, Ord, Clone, Copy, Structural)]
pub enum Button {
    South,
    East,
    North,
    West,
    C,
    Z,
    LeftTrigger,
    LeftTrigger2,
    RightTrigger,
    RightTrigger2,
    Select,
    Start,
    Mode,
    LeftThumb,
    RightThumb,
    DPadUp,
    DPadDown,
    DPadLeft,
    DPadRight,
    Unknown,
}

#[derive(Debug, PartialEq, Eq, Hash, PartialOrd, Ord, Clone, Copy, Structural)]
pub enum Axis {
    LeftStickX,
    LeftStickY,
    LeftZ,
    RightStickX,
    RightStickY,
    RightZ,
    DPadX,
    DPadY,
    Unknown,
}

impl Axis {
    /// Every known axis, in declaration order (without `Unknown`).
    pub fn all_axes() -> (r: Vec<Axis>)
        ensures
            r@ == seq![
                Axis::LeftStickX,
                Axis::LeftStickY,
                Axis::LeftZ,
                Axis::RightStickX,
                Axis::RightStickY,
                Axis::RightZ,
                Axis::DPadX,
                Axis::DPadY,
            ],
    {
        vec![
            Axis::LeftStickX,
            Axis::LeftStickY,
            Axis::LeftZ,
            Axis::RightStickX,
            Axis::RightStickY,
            Axis::RightZ,
            Axis::DPadX,
            Axis::DPadY,
        ]
    }
}

} // verus!
