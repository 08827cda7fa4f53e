//! Backends and the registry that holds the ones that loaded.
use crate::skeleton::KinectSkeleton;
use vstd::prelude::*;

verus! {

/// A source of frames: one sensor driver behind a polling interface.
pub trait KinectBackend {
    /// The newest frame since the last call, if any; never blocks.
    fn poll(&mut self) -> Option<KinectSkeleton>;

    /// Whether the device is present.
    fn available(&self) -> bool;
}

/// Why no registry could be made.
#[derive(Clone, Copy, PartialEq, Eq, Structural, Debug)]
pub enum KinectError {
    /// No backend loaded.
    NoBackend,
}

/// What a poll returns, given the answers of the backends it asked, in
/// order: the last answer, which is the only one that can be a frame.
pub open spec fn poll_result(polled: Seq<Option<KinectSkeleton>>) -> Option<KinectSkeleton> {
    if polled.len() == 0 {
        None
    } else {
        polled.last()
    }
}

/// The backends that loaded, highest priority first, and the answers that
/// the last poll and the last availability query got from them.
pub struct Kinect<B> {
    backends: Vec<B>,
    polled: Ghost<Seq<Option<KinectSkeleton>>>,
    answers: Ghost<Seq<bool>>,
}

impl<B> Kinect<B> {
    /// The backends, highest priority first.
    pub closed spec fn backends(&self) -> Seq<B> {
        self.backends@
    }

    /// The answers of the backends that the last poll asked, in priority
    /// order.
    pub closed spec fn polled(&self) -> Seq<Option<KinectSkeleton>> {
        self.polled@
    }

    /// The answers of the backends that the last availability query asked,
    /// in priority order.
    pub closed spec fn answers(&self) -> Seq<bool> {
        self.answers@
    }

    pub fn backend_count(&self) -> (r: usize)
        ensures
            r == self.backends().len(),
    {
        self.backends.len()
    }
}

impl<B: KinectBackend> Kinect<B> {
    /// A registry of `backends`, given in priority order; it fails when none
    /// loaded.
    pub fn new(backends: Vec<B>) -> (r: Result<Self, KinectError>)
        ensures
            r is Ok <==> backends@.len() > 0,
            r is Ok ==> r.unwrap().backends() == backends@,
            r is Err ==> r == Err::<Self, KinectError>(KinectError::NoBackend),
    {
        if backends.len() > 0 {
            Ok(Kinect { backends, polled: Ghost(Seq::empty()), answers: Ghost(Seq::empty()) })
        } else {
            Err(KinectError::NoBackend)
        }
    }

    /// Polls the backends in priority order and returns the first frame that
    /// one of them has; the backends after it are not polled on this call.
    pub fn poll(&mut self) -> (r: Option<KinectSkeleton>)
        ensures
            final(self).backends().len() == old(self).backends().len(),
            final(self).polled().len() <= old(self).backends().len(),
            forall|j: int|
                0 <= j < final(self).polled().len() - 1 ==> (#[trigger] final(self).polled()[j]) is None,
            forall|j: int|
                final(self).polled().len() <= j < old(self).backends().len() ==> #[trigger] final(self).backends()[j]
                    == old(self).backends()[j],
            r == poll_result(final(self).polled()),
            r is None ==> final(self).polled().len() == old(self).backends().len(),
    {
        let n = self.backends.len();
        self.polled = Ghost(Seq::empty());
        let mut i: usize = 0;
        while i < n
            invariant
                n == self.backends@.len(),
                n == old(self).backends@.len(),
                i <= n,
                self.polled@.len() == i,
                forall|j: int| 0 <= j < i ==> (#[trigger] self.polled@[j]) is None,
                forall|j: int| i <= j < n ==> #[trigger] self.backends@[j] == old(self).backends@[j],
            decreases n - i,
        {
            let r = self.backends[i].poll();
            self.polled = Ghost(self.polled@.push(r));
            if r.is_some() {
                return r;
            }
            i = i + 1;
        }
        None
    }

    /// Whether any backend reports its device present. The backends are
    /// asked in priority order until one says yes.
    pub fn available(&mut self) -> (r: bool)
        ensures
            final(self).backends() == old(self).backends(),
            final(self).polled() == old(self).polled(),
            final(self).answers().len() <= old(self).backends().len(),
            forall|j: int|
                0 <= j < final(self).answers().len() - 1 ==> !(#[trigger] final(self).answers()[j]),
            r == (final(self).answers().len() > 0 && final(self).answers().last()),
            r == exists|j: int| 0 <= j < final(self).answers().len() && #[trigger] final(self).answers()[j],
            !r ==> final(self).answers().len() == old(self).backends().len(),
    {
        self.answers = Ghost(Seq::empty());
        let mut i: usize = 0;
        while i < self.backends.len()
            invariant
                i <= self.backends@.len(),
                self.backends@ == old(self).backends@,
                self.polled@ == old(self).polled@,
                self.answers@.len() == i,
                forall|j: int| 0 <= j < i ==> !(#[trigger] self.answers@[j]),
            decreases self.backends@.len() - i,
        {
            let a = self.backends[i].available();
            self.answers = Ghost(self.answers@.push(a));
            if a {
                assert(self.answers@[i as int]);
                return true;
            }
            i = i + 1;
        }
        false
    }
}

/// The platforms that backend modules are built for.
#[derive(Clone, Copy, PartialEq, Eq, Structural, Debug)]
pub enum Platform {
    Windows64,
    Windows32,
    Other,
}

/// The backend modules to try, highest priority (newest sensor interface)
/// first; each is looked for first in the host's module directory, then in
/// the working directory.
pub fn backend_candidates(platform: Platform) -> (r: Vec<[&'static str; 2]>)
    ensures
        platform == Platform::Other ==> r@.len() == 0,
        platform == Platform::Windows64 ==> {
            &&& r@.len() == 2
            &&& r@[0][0]@ == "garrysmod/lua/bin/rekinect_winsdk_v2_win64.dll"@
            &&& r@[0][1]@ == "rekinect_winsdk_v2_win64.dll"@
            &&& r@[1][0]@ == "garrysmod/lua/bin/rekinect_winsdk_v1_win64.dll"@
            &&& r@[1][1]@ == "rekinect_winsdk_v1_win64.dll"@
        },
        platform == Platform::Windows32 ==> {
            &&& r@.len() == 2
            &&& r@[0][0]@ == "garrysmod/lua/bin/rekinect_winsdk_v2_win32.dll"@
            &&& r@[0][1]@ == "rekinect_winsdk_v2_win32.dll"@
            &&& r@[1][0]@ == "garrysmod/lua/bin/rekinect_winsdk_v1_win32.dll"@
            &&& r@[1][1]@ == "rekinect_winsdk_v1_win32.dll"@
        },
{
    let mut r: Vec<[&'static str; 2]> = Vec::new();
    match platform {
        Platform::Windows64 => {
            r.push(["garrysmod/lua/bin/rekinect_winsdk_v2_win64.dll", "rekinect_winsdk_v2_win64.dll"]);
            r.push(["garrysmod/lua/bin/rekinect_winsdk_v1_win64.dll", "rekinect_winsdk_v1_win64.dll"]);
        },
        Platform::Windows32 => {
            r.push(["garrysmod/lua/bin/rekinect_winsdk_v2_win32.dll", "rekinect_winsdk_v2_win32.dll"]);
            r.push(["garrysmod/lua/bin/rekinect_winsdk_v1_win32.dll", "rekinect_winsdk_v1_win32.dll"]);
        },
        Platform::Other => {},
    }
    r
}

} // verus!
