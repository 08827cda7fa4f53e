//! Skeleton frames: twenty base joints, optionally seven extended joints.
//!
//! A coordinate is held as the bit pattern of an IEEE-754 single-precision
//! value (what `f32::to_bits` gives), so frames travel through the library
//! unchanged, bit for bit.
use vstd::prelude::*;

verus! {

/// Number of joints in a base skeleton.
pub const SKELETON_BONE_COUNT: usize = 20;

/// Number of joints in the extended set.
pub const EXTENDED_SKELETON_BONE_COUNT: usize = 7;

/// A position in the host's coordinate space; each field is the bit pattern
/// of an `f32`.
#[derive(Clone, Copy, PartialEq, Eq, Structural, Debug)]
pub struct Joint {
    pub x: u32,
    pub y: u32,
    pub z: u32,
}

impl Joint {
    /// The origin: positive zero on every axis.
    pub open spec fn spec_origin() -> Joint {
        Joint { x: 0, y: 0, z: 0 }
    }

    pub fn origin() -> (r: Joint)
        ensures
            r == Joint::spec_origin(),
    {
        Joint { x: 0, y: 0, z: 0 }
    }
}

/// The base joints in positional order.
pub type KinectSkeletonRawBones = [Joint; SKELETON_BONE_COUNT];

/// The extended joints in positional order.
pub type KinectExtendedSkeletonRawBones = [Joint; EXTENDED_SKELETON_BONE_COUNT];

/// Base joints by name; `as_seq` gives the positional order.
#[derive(Clone, Copy, Debug)]
pub struct KinectSkeletonBones {
    pub hip_center: Joint,
    pub spine: Joint,
    pub shoulder_center: Joint,
    pub head: Joint,
    pub shoulder_left: Joint,
    pub elbow_left: Joint,
    pub wrist_left: Joint,
    pub hand_left: Joint,
    pub shoulder_right: Joint,
    pub elbow_right: Joint,
    pub wrist_right: Joint,
    pub hand_right: Joint,
    pub hip_left: Joint,
    pub knee_left: Joint,
    pub ankle_left: Joint,
    pub foot_left: Joint,
    pub hip_right: Joint,
    pub knee_right: Joint,
    pub ankle_right: Joint,
    pub foot_right: Joint,
}

impl KinectSkeletonBones {
    /// The named joints at their positional indices.
    pub open spec fn as_seq(self) -> Seq<Joint> {
        seq![
            self.hip_center,
            self.spine,
            self.shoulder_center,
            self.head,
            self.shoulder_left,
            self.elbow_left,
            self.wrist_left,
            self.hand_left,
            self.shoulder_right,
            self.elbow_right,
            self.wrist_right,
            self.hand_right,
            self.hip_left,
            self.knee_left,
            self.ankle_left,
            self.foot_left,
            self.hip_right,
            self.knee_right,
            self.ankle_right,
            self.foot_right,
        ]
    }
}

/// Extended joints by name; `as_seq` gives the positional order.
#[derive(Clone, Copy, Debug)]
pub struct KinectExtendedSkeletonBones {
    pub spine_base: Joint,
    pub neck: Joint,
    pub spine_shoulder: Joint,
    pub hand_tip_left: Joint,
    pub thumb_left: Joint,
    pub hand_tip_right: Joint,
    pub thumb_right: Joint,
}

impl KinectExtendedSkeletonBones {
    /// The named joints at their positional indices.
    pub open spec fn as_seq(self) -> Seq<Joint> {
        seq![
            self.spine_base,
            self.neck,
            self.spine_shoulder,
            self.hand_tip_left,
            self.thumb_left,
            self.hand_tip_right,
            self.thumb_right,
        ]
    }
}

/// The twenty base joints of a tracked body.
#[derive(Clone, Copy, Debug)]
pub struct KinectTrackedSkeleton {
    raw_bones: KinectSkeletonRawBones,
}

impl View for KinectTrackedSkeleton {
    type V = Seq<Joint>;

    closed spec fn view(&self) -> Seq<Joint> {
        self.raw_bones@
    }
}

impl KinectTrackedSkeleton {
    pub fn from_raw_bones(raw_bones: KinectSkeletonRawBones) -> (r: Self)
        ensures
            r@ == raw_bones@,
    {
        KinectTrackedSkeleton { raw_bones }
    }

    pub fn from_named_bones(bones: KinectSkeletonBones) -> (r: Self)
        ensures
            r@ == bones.as_seq(),
    {
        let raw_bones = [
            bones.hip_center,
            bones.spine,
            bones.shoulder_center,
            bones.head,
            bones.shoulder_left,
            bones.elbow_left,
            bones.wrist_left,
            bones.hand_left,
            bones.shoulder_right,
            bones.elbow_right,
            bones.wrist_right,
            bones.hand_right,
            bones.hip_left,
            bones.knee_left,
            bones.ankle_left,
            bones.foot_left,
            bones.hip_right,
            bones.knee_right,
            bones.ankle_right,
            bones.foot_right,
        ];
        assert(raw_bones@ =~= bones.as_seq());
        KinectTrackedSkeleton { raw_bones }
    }

    pub fn raw_bones(&self) -> (r: &KinectSkeletonRawBones)
        ensures
            r@ == self@,
    {
        &self.raw_bones
    }

    pub fn bones(&self) -> (r: KinectSkeletonBones)
        ensures
            r.as_seq() == self@,
    {
        let b = &self.raw_bones;
        let r = KinectSkeletonBones {
            hip_center: b[0],
            spine: b[1],
            shoulder_center: b[2],
            head: b[3],
            shoulder_left: b[4],
            elbow_left: b[5],
            wrist_left: b[6],
            hand_left: b[7],
            shoulder_right: b[8],
            elbow_right: b[9],
            wrist_right: b[10],
            hand_right: b[11],
            hip_left: b[12],
            knee_left: b[13],
            ankle_left: b[14],
            foot_left: b[15],
            hip_right: b[16],
            knee_right: b[17],
            ankle_right: b[18],
            foot_right: b[19],
        };
        assert(r.as_seq() =~= self@);
        r
    }
}

impl Default for KinectTrackedSkeleton {
    fn default() -> (r: Self)
        ensures
            r@ == Seq::new(SKELETON_BONE_COUNT as nat, |i: int| Joint::spec_origin()),
    {
        let raw_bones = [Joint::origin(); SKELETON_BONE_COUNT];
        assert(raw_bones@ =~= Seq::new(SKELETON_BONE_COUNT as nat, |i: int| Joint::spec_origin()));
        KinectTrackedSkeleton { raw_bones }
    }
}

/// The seven extended joints of a tracked body.
#[derive(Clone, Copy, Debug)]
pub struct KinectTrackedExtendedSkeleton {
    raw_bones: KinectExtendedSkeletonRawBones,
}

impl View for KinectTrackedExtendedSkeleton {
    type V = Seq<Joint>;

    closed spec fn view(&self) -> Seq<Joint> {
        self.raw_bones@
    }
}

impl KinectTrackedExtendedSkeleton {
    pub fn from_raw_bones(raw_bones: KinectExtendedSkeletonRawBones) -> (r: Self)
        ensures
            r@ == raw_bones@,
    {
        KinectTrackedExtendedSkeleton { raw_bones }
    }

    pub fn from_named_bones(bones: KinectExtendedSkeletonBones) -> (r: Self)
        ensures
            r@ == bones.as_seq(),
    {
        let raw_bones = [
            bones.spine_base,
            bones.neck,
            bones.spine_shoulder,
            bones.hand_tip_left,
            bones.thumb_left,
            bones.hand_tip_right,
            bones.thumb_right,
        ];
        assert(raw_bones@ =~= bones.as_seq());
        KinectTrackedExtendedSkeleton { raw_bones }
    }

    pub fn raw_bones(&self) -> (r: &KinectExtendedSkeletonRawBones)
        ensures
            r@ == self@,
    {
        &self.raw_bones
    }

    pub fn bones(&self) -> (r: KinectExtendedSkeletonBones)
        ensures
            r.as_seq() == self@,
    {
        let b = &self.raw_bones;
        let r = KinectExtendedSkeletonBones {
            spine_base: b[0],
            neck: b[1],
            spine_shoulder: b[2],
            hand_tip_left: b[3],
            thumb_left: b[4],
            hand_tip_right: b[5],
            thumb_right: b[6],
        };
        assert(r.as_seq() =~= self@);
        r
    }
}

impl Default for KinectTrackedExtendedSkeleton {
    fn default() -> (r: Self)
        ensures
            r@ == Seq::new(EXTENDED_SKELETON_BONE_COUNT as nat, |i: int| Joint::spec_origin()),
    {
        let raw_bones = [Joint::origin(); EXTENDED_SKELETON_BONE_COUNT];
        assert(raw_bones@ =~= Seq::new(
            EXTENDED_SKELETON_BONE_COUNT as nat,
            |i: int| Joint::spec_origin(),
        ));
        KinectTrackedExtendedSkeleton { raw_bones }
    }
}

/// One frame from a backend.
#[derive(Clone, Copy, Debug)]
pub enum KinectSkeleton {
    Untracked,
    TrackedBody(KinectTrackedSkeleton),
    TrackedExtended(KinectTrackedSkeleton, KinectTrackedExtendedSkeleton),
}

impl KinectSkeleton {
    /// The base joints of a tracked frame, or `None` for an untracked one.
    pub open spec fn base_bones(self) -> Option<Seq<Joint>> {
        match self {
            KinectSkeleton::Untracked => None,
            KinectSkeleton::TrackedBody(s) => Some(s@),
            KinectSkeleton::TrackedExtended(s, _) => Some(s@),
        }
    }

    /// The extended joints, where the frame carries them.
    pub open spec fn extended_bones(self) -> Option<Seq<Joint>> {
        match self {
            KinectSkeleton::TrackedExtended(_, e) => Some(e@),
            _ => None,
        }
    }
}

impl Default for KinectSkeleton {
    fn default() -> (r: Self)
        ensures
            r is Untracked,
    {
        KinectSkeleton::Untracked
    }
}

} // verus!
