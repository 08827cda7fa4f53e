//! The first-generation SDK backend: twenty joints per body, converted one
//! for one.
use crate::coords::{host_joint, Vector4};
use crate::skeleton::{
    Joint, KinectSkeleton, KinectSkeletonRawBones, KinectTrackedSkeleton, SKELETON_BONE_COUNT,
};
use crate::tracking::{lock_step, LockStep, SkeletonLock};
use vstd::prelude::*;

verus! {

pub const BONE_COUNT: usize = 20;

pub fn convert_kinect_coordinate_space_to_gmod(vector: &Vector4) -> (r: Joint)
    ensures
        r == vector.host(),
{
    host_joint(vector.x, vector.y, vector.z)
}

/// The host joints of a first-generation skeleton, position for position.
pub open spec fn host_bones(raw: Seq<Vector4>) -> Seq<Joint> {
    Seq::new(raw.len(), |i: int| raw[i].host())
}

/// The driver's joints of one body.
#[derive(Clone, Copy, Debug)]
pub struct WinSdkKinectV1Skeleton {
    pub raw: [Vector4; BONE_COUNT],
}

impl WinSdkKinectV1Skeleton {
    pub fn raw_bones(&self) -> (r: &[Vector4; BONE_COUNT])
        ensures
            r@ == self.raw@,
    {
        &self.raw
    }
}

/// One driver event: a body slot, and its skeleton if the slot is tracked.
#[derive(Clone, Copy, Debug)]
pub struct WinSdkKinectV1SkeletonUpdate {
    pub skeleton_index: usize,
    pub skeleton: Option<WinSdkKinectV1Skeleton>,
}

impl WinSdkKinectV1SkeletonUpdate {
    pub fn skeleton(&self) -> (r: Option<&WinSdkKinectV1Skeleton>)
        ensures
            r == match self.skeleton {
                Some(s) => Some(&s),
                None => None::<&WinSdkKinectV1Skeleton>,
            },
    {
        match &self.skeleton {
            Some(s) => Some(s),
            None => None,
        }
    }
}

/// Converts every joint of a driver skeleton into host space.
pub fn convert_skeleton(skeleton: &WinSdkKinectV1Skeleton) -> (r: KinectTrackedSkeleton)
    ensures
        r@ == host_bones(skeleton.raw@),
{
    let mut raw_bones: KinectSkeletonRawBones = [Joint::origin(); SKELETON_BONE_COUNT];
    let mut i: usize = 0;
    while i < SKELETON_BONE_COUNT
        invariant
            i <= SKELETON_BONE_COUNT,
            raw_bones@.len() == SKELETON_BONE_COUNT,
            forall|k: int| 0 <= k < i ==> raw_bones@[k] == skeleton.raw@[k].host(),
        decreases SKELETON_BONE_COUNT - i,
    {
        raw_bones[i] = convert_kinect_coordinate_space_to_gmod(&skeleton.raw[i]);
        i = i + 1;
    }
    assert(raw_bones@ =~= host_bones(skeleton.raw@));
    KinectTrackedSkeleton::from_raw_bones(raw_bones)
}

/// What the backend reports for driver events, given the body it follows.
pub struct WinSdkKinectBackend {
    pub lock: SkeletonLock,
}

impl WinSdkKinectBackend {
    pub fn new() -> (r: Self)
        ensures
            r.lock.skeleton is None,
    {
        WinSdkKinectBackend { lock: SkeletonLock::new() }
    }

    /// Turns one driver event into what `poll` reports: the converted
    /// skeleton of the followed body, `Untracked` once when it is lost, or
    /// nothing.
    pub fn poll_event(&mut self, event: &WinSdkKinectV1SkeletonUpdate) -> (r: Option<KinectSkeleton>)
        ensures
            ({
                let (next, step) = lock_step(
                    old(self).lock.skeleton,
                    event.skeleton_index,
                    event.skeleton is Some,
                );
                &&& final(self).lock.skeleton == next
                &&& step == LockStep::Emit ==> r is Some && r.unwrap() is TrackedBody
                    && r.unwrap().base_bones() == Some(host_bones(event.skeleton.unwrap().raw@))
                &&& step == LockStep::Lost ==> r is Some && r.unwrap() is Untracked
                &&& step == LockStep::Ignore ==> r is None
            }),
    {
        let step = self.lock.step(event.skeleton_index, event.skeleton.is_some());
        match step {
            LockStep::Emit => match &event.skeleton {
                Some(s) => Some(KinectSkeleton::TrackedBody(convert_skeleton(s))),
                None => None,
            },
            LockStep::Lost => Some(KinectSkeleton::Untracked),
            LockStep::Ignore => None,
        }
    }
}

} // verus!
