//! Events of the open first-generation driver: a body slot, how well it is
//! tracked, and what was measured.
use crate::coords::Vector4;
use vstd::prelude::*;

verus! {

/// How well the driver tracks a body slot.
#[derive(Clone, Copy, PartialEq, Eq, Structural, Debug)]
pub enum SkeletonTrackingState {
    NotTracked,
    PositionOnly,
    /// The body and all its joints are tracked.
    FullyTracked,
}

/// A body whose position alone is known.
#[derive(Clone, Copy, Debug)]
pub struct SkeletonPositionOnly {
    pub position: Vector4,
}

impl SkeletonPositionOnly {
    pub fn pos(&self) -> (r: &Vector4)
        ensures
            *r == self.position,
    {
        &self.position
    }
}

/// A body with its position and twenty joints.
#[derive(Clone, Copy, Debug)]
pub struct SkeletonTracked {
    pub position: Vector4,
    pub bones: [Vector4; 20],
}

impl SkeletonTracked {
    pub fn pos(&self) -> (r: &Vector4)
        ensures
            *r == self.position,
    {
        &self.position
    }

    pub fn raw_bones(&self) -> (r: &[Vector4; 20])
        ensures
            r@ == self.bones@,
    {
        &self.bones
    }
}

/// What a driver event says of its body.
#[derive(Clone, Copy, Debug)]
pub enum KinectV1Skeleton {
    PositionOnly(SkeletonPositionOnly),
    FullyTracked(SkeletonTracked),
}

/// One driver event. `position` and `bones` hold what the driver measured;
/// `state` says how much of it is meaningful.
#[derive(Clone, Copy, Debug)]
pub struct KinectV1SkeletonUpdate {
    pub skeleton_index: usize,
    pub state: SkeletonTrackingState,
    pub position: Vector4,
    pub bones: [Vector4; 20],
}

impl KinectV1SkeletonUpdate {
    /// The body as far as it is tracked: nothing, its position, or its
    /// position and joints.
    pub fn pos(&self) -> (r: Option<KinectV1Skeleton>)
        ensures
            self.state == SkeletonTrackingState::NotTracked ==> r is None,
            self.state == SkeletonTrackingState::PositionOnly ==> (r matches Some(
                KinectV1Skeleton::PositionOnly(p),
            ) && p.position == self.position),
            self.state == SkeletonTrackingState::FullyTracked ==> (r matches Some(
                KinectV1Skeleton::FullyTracked(t),
            ) && t.position == self.position && t.bones == self.bones),
    {
        match self.state {
            SkeletonTrackingState::NotTracked => None,
            SkeletonTrackingState::PositionOnly => Some(
                KinectV1Skeleton::PositionOnly(SkeletonPositionOnly { position: self.position }),
            ),
            SkeletonTrackingState::FullyTracked => Some(
                KinectV1Skeleton::FullyTracked(
                    SkeletonTracked { position: self.position, bones: self.bones },
                ),
            ),
        }
    }
}

} // verus!
