//! What the client does with each outgoing user command: it attaches the
//! base joints, and, where the server takes extended joints, sends those in
//! a separate message, or one message saying they were cleared.
use crate::skeleton::{
    Joint, KinectExtendedSkeletonRawBones, KinectSkeleton, KinectSkeletonRawBones,
    SKELETON_BONE_COUNT,
};
use vstd::prelude::*;

verus! {

/// A message about the extended joints.
#[derive(Clone, Copy, Debug)]
pub enum ExtendedBonesMessage {
    /// The extended joints for command `cmd_number`.
    Bones { cmd_number: isize, bones: KinectExtendedSkeletonRawBones },
    /// No extended joints from command `cmd_number` on.
    Cleared { cmd_number: isize },
}

/// What to do with one user command.
#[derive(Clone, Copy, Debug)]
pub struct StartCommand {
    /// The joints to attach: the frame's base joints, or the origin for all
    /// when untracked.
    pub positions: KinectSkeletonRawBones,
    pub message: Option<ExtendedBonesMessage>,
}

/// Whether the server takes extended joints, and whether it was last told
/// that there are none.
pub struct ExtendedBonesSync {
    pub send_extended_bones: bool,
    pub extended_bones_cleared: bool,
}

impl ExtendedBonesSync {
    /// Extended joints are not sent until the server says it takes them.
    pub fn new() -> (r: Self)
        ensures
            !r.send_extended_bones,
            r.extended_bones_cleared,
    {
        ExtendedBonesSync { send_extended_bones: false, extended_bones_cleared: true }
    }

    pub fn extended_bones_supported(&mut self, is_supported: bool)
        ensures
            final(self).send_extended_bones == is_supported,
            final(self).extended_bones_cleared == old(self).extended_bones_cleared,
    {
        self.send_extended_bones = is_supported;
    }

    /// Decides for command `cmd_number`, given whether tracking is `active`
    /// and the current frame. A tracked frame's base joints are attached;
    /// an extended frame's extended joints are sent for a positive command
    /// number while tracking is active; once the frame is untracked, the
    /// server is told once, for a nonzero command number, that the extended
    /// joints are gone.
    pub fn start_command(&mut self, cmd_number: isize, active: bool, skeleton: &KinectSkeleton) -> (r:
        StartCommand)
        ensures
            final(self).send_extended_bones == old(self).send_extended_bones,
            match skeleton.base_bones() {
                Some(b) => {
                    &&& r.positions@ == b
                    &&& if cmd_number >= 1 && old(self).send_extended_bones && active
                        && skeleton is TrackedExtended {
                        &&& !final(self).extended_bones_cleared
                        &&& r.message matches Some(ExtendedBonesMessage::Bones { cmd_number: n, bones: e })
                            && n == cmd_number && Some(e@) == skeleton.extended_bones()
                    } else {
                        &&& final(self).extended_bones_cleared == old(self).extended_bones_cleared
                        &&& r.message is None
                    }
                },
                None => {
                    &&& r.positions@ == Seq::new(SKELETON_BONE_COUNT as nat, |i: int| Joint::spec_origin())
                    &&& if cmd_number != 0 && old(self).send_extended_bones
                        && !old(self).extended_bones_cleared {
                        &&& final(self).extended_bones_cleared
                        &&& r.message matches Some(ExtendedBonesMessage::Cleared { cmd_number: n })
                            && n == cmd_number
                    } else {
                        &&& final(self).extended_bones_cleared == old(self).extended_bones_cleared
                        &&& r.message is None
                    }
                },
            },
    {
        match skeleton {
            KinectSkeleton::TrackedExtended(s, e) => {
                let message = if cmd_number >= 1 && self.send_extended_bones && active {
                    self.extended_bones_cleared = false;
                    Some(ExtendedBonesMessage::Bones { cmd_number, bones: *e.raw_bones() })
                } else {
                    None
                };
                StartCommand { positions: *s.raw_bones(), message }
            },
            KinectSkeleton::TrackedBody(s) => StartCommand { positions: *s.raw_bones(), message: None },
            KinectSkeleton::Untracked => {
                let positions = [Joint::origin(); SKELETON_BONE_COUNT];
                assert(positions@ =~= Seq::new(
                    SKELETON_BONE_COUNT as nat,
                    |i: int| Joint::spec_origin(),
                ));
                let message = if cmd_number != 0 && self.send_extended_bones
                    && !self.extended_bones_cleared {
                    self.extended_bones_cleared = true;
                    Some(ExtendedBonesMessage::Cleared { cmd_number })
                } else {
                    None
                };
                StartCommand { positions, message }
            },
        }
    }
}

} // verus!
