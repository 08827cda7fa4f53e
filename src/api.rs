//! Joint queries of the scripting surface: base joints have indices
//! `0..20`, extended joints `20..27`.
use crate::skeleton::{
    Joint, KinectSkeleton, EXTENDED_SKELETON_BONE_COUNT, SKELETON_BONE_COUNT,
};
use vstd::prelude::*;

verus! {

/// The joint at index `bone` of `skeleton`, if tracking is `active` and the
/// frame has that joint.
pub open spec fn bone_of(active: bool, skeleton: KinectSkeleton, bone: int) -> Option<Joint> {
    if !active || bone < 0 {
        None
    } else if bone < SKELETON_BONE_COUNT {
        match skeleton.base_bones() {
            Some(b) => Some(b[bone]),
            None => None,
        }
    } else if bone < SKELETON_BONE_COUNT + EXTENDED_SKELETON_BONE_COUNT {
        match skeleton.extended_bones() {
            Some(e) => Some(e[bone - SKELETON_BONE_COUNT]),
            None => None,
        }
    } else {
        None
    }
}

/// The local player's joint `bone`; `None` means the host answers with the
/// origin.
pub fn motion_sensor_pos(active: bool, skeleton: &KinectSkeleton, bone: isize) -> (r: Option<Joint>)
    ensures
        r == bone_of(active, *skeleton, bone as int),
{
    if !active || bone < 0 {
        return None;
    }
    let bone = bone as usize;
    if bone < SKELETON_BONE_COUNT {
        match skeleton {
            KinectSkeleton::TrackedBody(s) => Some(s.raw_bones()[bone]),
            KinectSkeleton::TrackedExtended(s, _) => Some(s.raw_bones()[bone]),
            KinectSkeleton::Untracked => None,
        }
    } else if bone < SKELETON_BONE_COUNT + EXTENDED_SKELETON_BONE_COUNT {
        match skeleton {
            KinectSkeleton::TrackedExtended(_, e) => Some(e.raw_bones()[bone - SKELETON_BONE_COUNT]),
            _ => None,
        }
    } else {
        None
    }
}

} // verus!
