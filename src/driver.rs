//! Plain data shared with the motor-driver backends.
use vstd::prelude::*;

verus! {

/// Which motor-driver backend drives the wheels.
#[derive(Debug, Clone, Copy, PartialEq, Eq, Structural, Default)]
pub enum DriverType {
    #[default]
    Arduino,
    LSS,
}

/// Where one wheel's motor sits on the bus, and whether it turns the other
/// way.
#[derive(Debug, Clone, Copy, PartialEq, Eq, Structural)]
pub struct MotorConfig {
    pub id: u8,
    pub inverted: bool,
}

impl MotorConfig {
    pub fn new(id: u8, inverted: bool) -> (r: MotorConfig)
        ensures
            r == (MotorConfig { id, inverted }),
    {
        MotorConfig { id, inverted }
    }
}

/// Failures of a motor-driver backend.
#[derive(Debug, Clone, Copy, PartialEq, Eq, Structural)]
#[non_exhaustive]
pub enum HamiltonError {
    CommError,
    FailedOpeningSerialPort,
}

/// The wire framing of the direct-current motor board.
#[derive(Debug, Clone, Copy, PartialEq, Eq, Structural)]
pub struct HamiltonProtocol;

/// The serial device used when the configuration names none.
pub fn default_port() -> (r: String)
    ensures
        r@ == "/dev/hamilton_dc_motors"@,
{
    proof {
        reveal_strlit("/dev/hamilton_dc_motors");
    }
    "/dev/hamilton_dc_motors".to_string()
}

} // verus!
