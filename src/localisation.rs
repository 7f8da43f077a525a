//! The pose tracker: turns a stream of marker frames, or of poses from
//! another localisation source, into the current pose, exposed only while it
//! is fresh. The channel that carries the frames lives outside; each query
//! hands over what was queued and whether the sender is gone.
use vstd::prelude::*;
use crate::ir_tracker_localiser::IrTrackers;
use crate::navigation::Pose2d;

verus! {

/// A pose counts as current for this long after it was found, in
/// milliseconds.
pub const LOCALISATION_TIMEOUT: u64 = 1000;

/// The localisation backends.
#[derive(Debug, Clone, Copy, PartialEq, Eq, Structural)]
pub enum LocaliserType {
    IrMarker,
    OpenVr,
}

/// The classes of tracked devices a virtual-reality source reports.
#[derive(Debug, Clone, Copy, PartialEq, Eq, Structural)]
pub enum VrDeviceClass {
    Controller,
    LeftController,
    RightController,
    Tracker,
    HMD,
    Sensor,
    Other,
}

#[derive(Debug, Clone, Copy, PartialEq, Eq, Structural)]
pub enum LocalisationError {
    /// The source of frames has gone away.
    Disconnected,
}

/// The latest pose found and when it was found (`None`: never).
pub struct LocalisationManager {
    pub last_pose: Pose2d,
    pub last_update_time: Option<u64>,
}

/// A pose found at `updated` is current at `now` unless more than the
/// timeout has passed.
pub open spec fn pose_is_fresh(updated: Option<u64>, now: u64) -> bool {
    match updated {
        Some(t) => now <= t || now - t <= LOCALISATION_TIMEOUT,
        None => false,
    }
}

/// The tracker's state after taking `frames` in order at `now`: each frame
/// that gives a pose replaces the stored one.
pub open spec fn after_frames(
    frames: Seq<IrTrackers>,
    pose: Pose2d,
    updated: Option<u64>,
    now: u64,
) -> (Pose2d, Option<u64>)
    decreases frames.len(),
{
    if frames.len() == 0 {
        (pose, updated)
    } else {
        let (p, u) = after_frames(frames.drop_last(), pose, updated, now);
        match frames.last().tracker_pose() {
            Some(q) => (q, Some(now)),
            None => (p, u),
        }
    }
}

impl LocalisationManager {
    pub open spec fn wf(&self) -> bool {
        self.last_pose.wf()
    }

    /// What `latest_pose` reports at `now`.
    pub open spec fn reported(&self, now: u64) -> Option<Pose2d> {
        if pose_is_fresh(self.last_update_time, now) {
            Some(self.last_pose)
        } else {
            None
        }
    }

    /// A tracker for the chosen backend, with no pose yet. Only the marker
    /// backend exists; asking for another is a caller's error.
    pub fn new(localiser_type: LocaliserType) -> (r: LocalisationManager)
        requires
            localiser_type is IrMarker,
        ensures
            r.wf(),
            r.last_update_time is None,
            r.last_pose == (Pose2d { x: 0, y: 0, rotation: 0 }),
    {
        LocalisationManager { last_pose: Pose2d { x: 0, y: 0, rotation: 0 }, last_update_time: None }
    }

    /// Stores a pose found at `now`.
    pub fn update_pose(&mut self, pose: Pose2d, now: u64)
        requires
            pose.wf(),
        ensures
            final(self).last_pose == pose,
            final(self).last_update_time == Some(now),
            final(self).wf(),
    {
        self.last_pose = pose;
        self.last_update_time = Some(now);
    }

    /// Takes one marker frame received at `now`.
    pub fn apply_frame(&mut self, frame: &IrTrackers, now: u64)
        requires
            old(self).wf(),
        ensures
            final(self).wf(),
            match frame.tracker_pose() {
                Some(p) => final(self).last_pose == p && final(self).last_update_time == Some(now),
                None => final(self).last_pose == old(self).last_pose
                    && final(self).last_update_time == old(self).last_update_time,
            },
    {
        if let Some(pose) = frame.find_tracker_pose() {
            self.update_pose(pose, now);
        }
    }

    /// The stored pose while it is current at `now`.
    pub fn latest_pose(&self, now: u64) -> (r: Option<Pose2d>)
        ensures
            r == self.reported(now),
    {
        match self.last_update_time {
            Some(t) => {
                if now <= t || now - t <= LOCALISATION_TIMEOUT {
                    Some(self.last_pose)
                } else {
                    None
                }
            },
            None => None,
        }
    }

    /// Takes every frame that was queued, in order, then reports the
    /// current pose; fails when the sender is gone.
    pub fn get_latest_pose(&mut self, frames: Vec<IrTrackers>, disconnected: bool, now: u64) -> (r:
        Result<Option<Pose2d>, LocalisationError>)
        requires
            old(self).wf(),
        ensures
            final(self).wf(),
            (final(self).last_pose, final(self).last_update_time) == after_frames(
                frames@,
                old(self).last_pose,
                old(self).last_update_time,
                now,
            ),
            r == if disconnected {
                Err::<Option<Pose2d>, _>(LocalisationError::Disconnected)
            } else {
                Ok(final(self).reported(now))
            },
    {
        let mut i: usize = 0;
        while i < frames.len()
            invariant
                i <= frames@.len(),
                self.wf(),
                (self.last_pose, self.last_update_time) == after_frames(
                    frames@.take(i as int),
                    old(self).last_pose,
                    old(self).last_update_time,
                    now,
                ),
            decreases frames@.len() - i,
        {
            proof {
                assert(frames@.take(i + 1).drop_last() =~= frames@.take(i as int));
                assert(frames@.take(i + 1).last() == frames@[i as int]);
            }
            self.apply_frame(&frames[i], now);
            i = i + 1;
        }
        assert(frames@.take(frames@.len() as int) =~= frames@);
        if disconnected {
            Err(LocalisationError::Disconnected)
        } else {
            Ok(self.latest_pose(now))
        }
    }
}

/// A stored pose older than the timeout is not reported, though it is still
/// held; a pose within the timeout is reported unchanged.
pub proof fn lemma_pose_freshness(m: LocalisationManager, now: u64)
    ensures
        m.last_update_time matches Some(t) && now > t && now - t > LOCALISATION_TIMEOUT
            ==> m.reported(now) is None,
        m.last_update_time matches Some(t) && (now <= t || now - t <= LOCALISATION_TIMEOUT)
            ==> m.reported(now) == Some(m.last_pose),
        m.last_update_time is None ==> m.reported(now) is None,
{
}

} // verus!
