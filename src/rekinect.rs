//! The client module's view of tracking: whether it was asked to run, the
//! newest frame, and how many loaders hold the module open.
use crate::backend::{poll_result, Kinect, KinectBackend};
use crate::skeleton::KinectSkeleton;
use vstd::prelude::*;

verus! {

/// The backends, whether tracking was requested, and the newest frame.
pub struct KinectState<B> {
    pub inner: Kinect<B>,
    pub active: bool,
    pub skeleton: KinectSkeleton,
}

impl<B: KinectBackend> KinectState<B> {
    /// Starts inactive and untracked.
    pub fn new(inner: Kinect<B>) -> (r: Self)
        ensures
            !r.active,
            r.skeleton is Untracked,
    {
        KinectState { inner, active: false, skeleton: KinectSkeleton::Untracked }
    }

    /// Takes the result of a poll: a frame replaces the current one, no
    /// frame keeps it.
    pub fn apply(&mut self, frame: Option<KinectSkeleton>)
        ensures
            final(self).active == old(self).active,
            final(self).inner == old(self).inner,
            final(self).skeleton == match frame {
                Some(f) => f,
                None => old(self).skeleton,
            },
    {
        if let Some(f) = frame {
            self.skeleton = f;
        }
    }

    /// One tick: while active, polls the backends and keeps what they give;
    /// while inactive, nothing changes.
    pub fn update(&mut self)
        ensures
            final(self).active == old(self).active,
            !old(self).active ==> final(self).skeleton == old(self).skeleton,
            old(self).active ==> final(self).skeleton == match poll_result(final(self).inner.polled()) {
                Some(f) => f,
                None => old(self).skeleton,
            },
    {
        if !self.active {
            return ;
        }
        let frame = self.inner.poll();
        self.apply(frame);
    }

    /// Whether any backend reports its device present; the backends are
    /// asked in priority order until one says yes.
    pub fn available(&mut self) -> (r: bool)
        ensures
            final(self).active == old(self).active,
            final(self).skeleton == old(self).skeleton,
            final(self).inner.backends() == old(self).inner.backends(),
            r == exists|j: int|
                0 <= j < final(self).inner.answers().len() && #[trigger] final(self).inner.answers()[j],
            !r ==> final(self).inner.answers().len() == old(self).inner.backends().len(),
    {
        let r = self.inner.available();
        assert(r == exists|j: int|
            0 <= j < self.inner.answers().len() && #[trigger] self.inner.answers()[j]);
        r
    }
}

/// How many loaders hold the module open. The first `init` creates the
/// tracking state; the `shutdown` that brings the count to zero drops it.
pub struct InitRefCount {
    count: usize,
}

impl InitRefCount {
    pub closed spec fn count(&self) -> nat {
        self.count as nat
    }

    pub fn new() -> (r: Self)
        ensures
            r.count() == 0,
    {
        InitRefCount { count: 0 }
    }

    /// Counts one more holder; true when this is the first, which creates
    /// the state. The count stops at the largest `usize`.
    pub fn init(&mut self) -> (first: bool)
        ensures
            final(self).count() == if old(self).count() == usize::MAX {
                old(self).count()
            } else {
                old(self).count() + 1
            },
            first == (old(self).count() == 0),
    {
        self.count = self.count.saturating_add(1);
        self.count == 1
    }

    /// Counts one holder less, never below zero; true when none is left,
    /// which drops the state.
    pub fn shutdown(&mut self) -> (last: bool)
        ensures
            final(self).count() == if old(self).count() == 0 {
                0
            } else {
                old(self).count() - 1
            },
            last == (final(self).count() == 0),
    {
        self.count = self.count.saturating_sub(1);
        self.count == 0
    }

    pub fn already_initialized(&self) -> (r: bool)
        ensures
            r == (self.count() != 0),
    {
        self.count != 0
    }
}

} // verus!
