//! The range scanner: the shared slot that holds the latest scan, its
//! freshness rule, the motor controls, and the decisions of the scanning
//! worker. The worker's device calls and sleeps happen outside; it asks
//! `plan_step` what to do next and reports each grab to `record_grab`.
use vstd::prelude::*;

verus! {

/// How long a scan counts as current, in milliseconds.
pub const SCAN_TIMEOUT: u64 = 500;

/// One range reading: distance in micro-metres, bearing in micro-radians in
/// the scanner's own frame, and whether the device marked it usable.
#[derive(Debug, Clone, Copy, PartialEq, Eq, Structural)]
pub struct ScanPoint {
    pub distance: i64,
    pub angle: i64,
    pub valid: bool,
}

impl ScanPoint {
    pub fn new(distance: i64, angle: i64, valid: bool) -> (r: ScanPoint)
        ensures
            r == (ScanPoint { distance, angle, valid }),
    {
        ScanPoint { distance, angle, valid }
    }

    pub fn is_valid(&self) -> (r: bool)
        ensures
            r == self.valid,
    {
        self.valid
    }
}

/// A full scan and the time (milliseconds) at which it was stored.
pub struct LidarScan {
    pub points: Vec<ScanPoint>,
    pub captured_at: u64,
}

/// Where the scanner device is found.
#[derive(Debug)]
pub struct LidarConfig {
    pub port: String,
}

/// The device path used when the configuration names none.
pub fn default_lidar_port() -> (r: String)
    ensures
        r@ == "/dev/rplidar"@,
{
    proof {
        reveal_strlit("/dev/rplidar");
    }
    "/dev/rplidar".to_string()
}

impl LidarConfig {
    pub fn new(port: String) -> (r: LidarConfig)
        ensures
            r.port@ == port@,
    {
        LidarConfig { port }
    }
}

/// A scan stored at `captured_at` is current at `now` while less than the
/// timeout has passed (a time stamp from the future counts as no time).
pub open spec fn is_fresh(captured_at: u64, now: u64, timeout: u64) -> bool {
    now <= captured_at || now - captured_at < timeout
}

/// The scanner's shared state: the two controls the worker obeys and the
/// latest scan.
pub struct Lidar {
    pub should_exit: bool,
    pub should_spin: bool,
    pub last_scan: Option<LidarScan>,
}

impl Lidar {
    /// A scanner that should spin and has no scan yet.
    pub fn open() -> (r: Lidar)
        ensures
            !r.should_exit,
            r.should_spin,
            r.last_scan is None,
    {
        Lidar { should_exit: false, should_spin: true, last_scan: None }
    }

    pub fn stop_motor(&mut self)
        ensures
            !final(self).should_spin,
            final(self).should_exit == old(self).should_exit,
            final(self).last_scan == old(self).last_scan,
    {
        self.should_spin = false;
    }

    pub fn start_motor(&mut self)
        ensures
            final(self).should_spin,
            final(self).should_exit == old(self).should_exit,
            final(self).last_scan == old(self).last_scan,
    {
        self.should_spin = true;
    }

    /// Asks the worker to stop the motor and end at its next check.
    pub fn shutdown(&mut self)
        ensures
            !final(self).should_spin,
            final(self).should_exit,
            final(self).last_scan == old(self).last_scan,
    {
        self.should_spin = false;
        self.should_exit = true;
    }

    /// Replaces the stored scan with `points`, stamped `now`.
    pub fn store_scan(&mut self, points: Vec<ScanPoint>, now: u64)
        ensures
            final(self).last_scan matches Some(s) && s.points@ == points@ && s.captured_at == now,
            final(self).should_spin == old(self).should_spin,
            final(self).should_exit == old(self).should_exit,
    {
        self.last_scan = Some(LidarScan { points, captured_at: now });
    }

    /// The stored scan while it is current at `now`.
    pub fn get_last_scan(&self, now: u64) -> (r: Option<&Vec<ScanPoint>>)
        ensures
            match self.last_scan {
                Some(s) => if is_fresh(s.captured_at, now, SCAN_TIMEOUT) {
                    r matches Some(p) && p@ == s.points@
                } else {
                    r is None
                },
                None => r is None,
            },
    {
        match &self.last_scan {
            Some(scan) => {
                if now <= scan.captured_at || now - scan.captured_at < SCAN_TIMEOUT {
                    Some(&scan.points)
                } else {
                    None
                }
            },
            None => None,
        }
    }
}

/// What the scanning worker does in one pass of its inner loop.
#[derive(Debug, Clone, Copy, PartialEq, Eq, Structural)]
pub enum LidarStep {
    /// Leave the worker for good.
    Exit,
    /// Take one scan; first start the motor and the scan if `restart`.
    Grab { restart: bool },
    /// Sleep before the next check; first stop the motor and the scan if
    /// `halt`.
    Rest { halt: bool },
}

/// The next pass of the inner loop, and whether the motor runs after it.
pub open spec fn next_step(is_spinning: bool, should_exit: bool, should_spin: bool) -> (
    LidarStep,
    bool,
) {
    if should_exit {
        (LidarStep::Exit, is_spinning)
    } else if should_spin {
        (LidarStep::Grab { restart: !is_spinning }, true)
    } else {
        (LidarStep::Rest { halt: is_spinning }, false)
    }
}

pub fn plan_step(is_spinning: bool, should_exit: bool, should_spin: bool) -> (r: (
    LidarStep,
    bool,
))
    ensures
        r == next_step(is_spinning, should_exit, should_spin),
{
    if should_exit {
        (LidarStep::Exit, is_spinning)
    } else if should_spin {
        (LidarStep::Grab { restart: !is_spinning }, true)
    } else {
        (LidarStep::Rest { halt: is_spinning }, false)
    }
}

/// What one grab from the device gave.
pub enum GrabOutcome {
    /// A full scan, already in angular order.
    Scan(Vec<ScanPoint>),
    /// The device had no scan ready in time: not an error.
    Timeout,
    /// Any other device error.
    Failed,
}

/// Stores a grabbed scan; returns whether the inner loop goes on (false: the
/// device is reopened).
pub fn record_grab(lidar: &mut Lidar, outcome: GrabOutcome, now: u64) -> (r: bool)
    ensures
        r == !(outcome is Failed),
        final(lidar).should_spin == old(lidar).should_spin,
        final(lidar).should_exit == old(lidar).should_exit,
        match outcome {
            GrabOutcome::Scan(points) => final(lidar).last_scan matches Some(s) && s.points@
                == points@ && s.captured_at == now,
            _ => final(lidar).last_scan == old(lidar).last_scan,
        },
{
    match outcome {
        GrabOutcome::Scan(points) => {
            lidar.store_scan(points, now);
            true
        },
        GrabOutcome::Timeout => true,
        GrabOutcome::Failed => false,
    }
}

} // verus!
