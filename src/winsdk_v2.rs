//! The second-generation SDK backend: twenty-five driver joints become the
//! twenty base joints plus the seven extended ones.
//!
//! The base skeleton's hip-center and shoulder-center have no driver joint of
//! their own: they are the midpoints of the left and right hips and shoulders.
//! Those midpoints are taken in the driver's space, then converted like any
//! other joint; the caller computes them and hands them in.
use crate::coords::Vector3;
use crate::skeleton::{
    Joint, KinectExtendedSkeletonBones, KinectSkeleton, KinectSkeletonBones,
    KinectTrackedExtendedSkeleton, KinectTrackedSkeleton, SKELETON_BONE_COUNT,
};
use crate::tracking::{lock_step, LockStep, SkeletonLock};
use vstd::prelude::*;

verus! {

pub const BONE_COUNT: usize = 25;

pub fn convert_kinect_coordinate_space_to_gmod(vector: Vector3) -> (r: Joint)
    ensures
        r == vector.host(),
{
    vector.into_gmod()
}

/// The driver's twenty-five joints of one body, in the driver's order:
/// spine base, spine mid, neck, head, the left arm (shoulder, elbow, wrist,
/// hand), the right arm, the left leg (hip, knee, ankle, foot), the right leg,
/// spine shoulder, left hand tip, left thumb, right hand tip, right thumb.
#[derive(Clone, Copy, Debug)]
pub struct SensorBones {
    pub raw: [Vector3; BONE_COUNT],
}

/// One driver event: a body slot, and its joints if the slot is tracked.
#[derive(Clone, Copy, Debug)]
pub struct WinSdkKinectV2SkeletonUpdate {
    pub skeleton_index: usize,
    pub skeleton: Option<SensorBones>,
}

impl WinSdkKinectV2SkeletonUpdate {
    pub fn skeleton(&self) -> (r: Option<&SensorBones>)
        ensures
            r == match self.skeleton {
                Some(s) => Some(&s),
                None => None::<&SensorBones>,
            },
    {
        match &self.skeleton {
            Some(s) => Some(s),
            None => None,
        }
    }
}

/// The base joints built from driver joints `raw`, with the driver-space
/// midpoints `hip_center` and `shoulder_center`.
pub open spec fn base_host_bones(raw: Seq<Vector3>, hip_center: Vector3, shoulder_center: Vector3) -> Seq<Joint> {
    Seq::new(
        SKELETON_BONE_COUNT as nat,
        |i: int|
            if i == 0 {
                hip_center.host()
            } else if i == 2 {
                shoulder_center.host()
            } else {
                raw[i].host()
            },
    )
}

/// The extended joints built from driver joints `raw`.
pub open spec fn extended_host_bones(raw: Seq<Vector3>) -> Seq<Joint> {
    seq![
        raw[0].host(),
        raw[2].host(),
        raw[20].host(),
        raw[21].host(),
        raw[22].host(),
        raw[23].host(),
        raw[24].host(),
    ]
}

/// Builds the host frame of one tracked body. `hip_center` and
/// `shoulder_center` are the driver-space midpoints of the left and right
/// hips and shoulders.
pub fn convert_skeleton(bones: &SensorBones, hip_center: Vector3, shoulder_center: Vector3) -> (r:
    KinectSkeleton)
    ensures
        r is TrackedExtended,
        r.base_bones() == Some(base_host_bones(bones.raw@, hip_center, shoulder_center)),
        r.extended_bones() == Some(extended_host_bones(bones.raw@)),
{
    let b = &bones.raw;
    let named = KinectSkeletonBones {
        hip_center: hip_center.into_gmod(),
        spine: b[1].into_gmod(),
        shoulder_center: shoulder_center.into_gmod(),
        head: b[3].into_gmod(),
        shoulder_left: b[4].into_gmod(),
        elbow_left: b[5].into_gmod(),
        wrist_left: b[6].into_gmod(),
        hand_left: b[7].into_gmod(),
        shoulder_right: b[8].into_gmod(),
        elbow_right: b[9].into_gmod(),
        wrist_right: b[10].into_gmod(),
        hand_right: b[11].into_gmod(),
        hip_left: b[12].into_gmod(),
        knee_left: b[13].into_gmod(),
        ankle_left: b[14].into_gmod(),
        foot_left: b[15].into_gmod(),
        hip_right: b[16].into_gmod(),
        knee_right: b[17].into_gmod(),
        ankle_right: b[18].into_gmod(),
        foot_right: b[19].into_gmod(),
    };
    let extended = KinectExtendedSkeletonBones {
        spine_base: b[0].into_gmod(),
        neck: b[2].into_gmod(),
        spine_shoulder: b[20].into_gmod(),
        hand_tip_left: b[21].into_gmod(),
        thumb_left: b[22].into_gmod(),
        hand_tip_right: b[23].into_gmod(),
        thumb_right: b[24].into_gmod(),
    };
    assert(named.as_seq() =~= base_host_bones(bones.raw@, hip_center, shoulder_center));
    assert(extended.as_seq() =~= extended_host_bones(bones.raw@));
    KinectSkeleton::TrackedExtended(
        KinectTrackedSkeleton::from_named_bones(named),
        KinectTrackedExtendedSkeleton::from_named_bones(extended),
    )
}

/// What the backend reports for driver events, given the body it follows.
pub struct WinSdkKinectBackend {
    pub lock: SkeletonLock,
}

impl WinSdkKinectBackend {
    pub fn new() -> (r: Self)
        ensures
            r.lock.skeleton is None,
    {
        WinSdkKinectBackend { lock: SkeletonLock::new() }
    }

    /// Turns one driver event into what `poll` reports: the converted frame
    /// of the followed body, `Untracked` once when it is lost, or nothing.
    /// `hip_center` and `shoulder_center` are the driver-space midpoints of
    /// the event's skeleton; they are not read when it has none.
    pub fn poll_event(
        &mut self,
        event: &WinSdkKinectV2SkeletonUpdate,
        hip_center: Vector3,
        shoulder_center: Vector3,
    ) -> (r: Option<KinectSkeleton>)
        ensures
            ({
                let (next, step) = lock_step(
                    old(self).lock.skeleton,
                    event.skeleton_index,
                    event.skeleton is Some,
                );
                &&& final(self).lock.skeleton == next
                &&& step == LockStep::Emit ==> r is Some && r.unwrap() is TrackedExtended
                    && r.unwrap().base_bones() == Some(
                    base_host_bones(event.skeleton.unwrap().raw@, hip_center, shoulder_center),
                ) && r.unwrap().extended_bones() == Some(
                    extended_host_bones(event.skeleton.unwrap().raw@),
                )
                &&& step == LockStep::Lost ==> r is Some && r.unwrap() is Untracked
                &&& step == LockStep::Ignore ==> r is None
            }),
    {
        let step = self.lock.step(event.skeleton_index, event.skeleton.is_some());
        match step {
            LockStep::Emit => match &event.skeleton {
                Some(s) => Some(convert_skeleton(s, hip_center, shoulder_center)),
                None => None,
            },
            LockStep::Lost => Some(KinectSkeleton::Untracked),
            LockStep::Ignore => None,
        }
    }
}

} // verus!
