//! The synchronisation engine: one process writes frames into the shared
//! record, the others read them, and a reader takes over the writer role when
//! the writer leaves.
//!
//! The engine works on the record's bytes as the caller hands them in (the
//! mapped region) and says which byte ranges must be flushed after a call; the
//! caller maps the region and flushes.
use crate::backend::{Kinect, KinectBackend};
use crate::record::{
    bones_at, lemma_bones_unchanged, read_bones, read_u16, same_outside, sync_of, u16_from_bytes, write_bones, write_u16,
    MMAP_ACTIVE, MMAP_FILE_SIZE, MMAP_KINECT_SKELETON_NONE, MMAP_KINECT_SKELETON_TRACKED,
    MMAP_SHUTDOWN, MMAP_SKELETON, MMAP_SKELETON_BONES, MMAP_SYNC,
};
use crate::skeleton::{Joint, KinectSkeleton, KinectSkeletonRawBones, SKELETON_BONE_COUNT};
use vstd::endian::endianness;
use vstd::prelude::*;

verus! {

/// A byte range of the record that must reach the backing file.
#[derive(Clone, Copy, PartialEq, Eq, Structural, Debug)]
pub struct FlushRange {
    pub start: usize,
    pub len: usize,
}

/// What the caller does after `update`.
#[derive(Clone, Copy, PartialEq, Eq, Structural, Debug)]
pub enum Tick {
    /// Nothing to flush.
    Idle,
    /// Flush this range.
    Flush(FlushRange),
    /// The writer has left: start the backends and call `promote`, or stay a
    /// reader if they cannot start.
    Promote,
}

/// How a promotion attempt ended.
#[derive(Clone, Copy, PartialEq, Eq, Structural, Debug)]
pub enum Promotion {
    /// This process is the writer now; flush the range (the cleared shutdown
    /// flag) and call `update` again.
    Claimed(FlushRange),
    /// Another reader claimed the role first; this process stays a reader.
    Lost,
}

/// The role of this process.
#[allow(inconsistent_fields)]
pub enum KinectStateKind<B> {
    /// The writer, with its backends and the last counter it published.
    Server { inner: Kinect<B>, sync: u16 },
    /// A reader, with the last counter it saw.
    Client { sync: Option<u16> },
}

/// One process's side of the shared record: its role and its copy of the
/// current skeleton. Multi-byte fields are in the machine's byte order.
pub struct KinectState<B> {
    skeleton: Option<KinectSkeletonRawBones>,
    kind: KinectStateKind<B>,
}

/// The counter after `sync`, wrapping from the largest value to 0.
pub open spec fn next_sync(sync: u16) -> u16 {
    if sync == u16::MAX {
        0
    } else {
        (sync + 1) as u16
    }
}

/// The range that a publish of `bones` flushes: the present flag, the counter
/// and, for a tracked frame, the joints.
pub open spec fn publish_range(bones: Option<Seq<Joint>>) -> FlushRange {
    if bones is Some {
        FlushRange { start: MMAP_SKELETON, len: (MMAP_FILE_SIZE - MMAP_SKELETON) as usize }
    } else {
        FlushRange { start: MMAP_SKELETON, len: (MMAP_SKELETON_BONES - MMAP_SKELETON) as usize }
    }
}

/// `after` is `before` with a frame published under counter `sync`: the
/// present flag and the counter are set, the joints are written for a
/// tracked frame (`bones` is `Some`) and left as they were otherwise, and the
/// shutdown and active flags are unchanged.
pub open spec fn published(
    before: Seq<u8>,
    after: Seq<u8>,
    sync: u16,
    bones: Option<Seq<Joint>>,
    little: bool,
) -> bool {
    &&& sync_of(after, little) == sync
    &&& after[MMAP_SKELETON as int] == if bones is Some {
        MMAP_KINECT_SKELETON_TRACKED
    } else {
        MMAP_KINECT_SKELETON_NONE
    }
    &&& match bones {
        Some(b) => {
            &&& bones_at(after, little) == b
            &&& same_outside(before, after, MMAP_SKELETON as int, MMAP_FILE_SIZE as int)
        },
        None => same_outside(before, after, MMAP_SKELETON as int, MMAP_SKELETON_BONES as int),
    }
}

/// What a reader that last saw counter `last` and holds `cache` has after
/// looking at `mem` (whose shutdown flag is clear): a counter other than
/// `last` is news, and then the joints are read if the present flag says so.
pub open spec fn refresh(
    last: Option<u16>,
    cache: Option<Seq<Joint>>,
    mem: Seq<u8>,
    little: bool,
) -> (Option<u16>, Option<Seq<Joint>>) {
    let counter = sync_of(mem, little);
    if last == Some(counter) {
        (last, cache)
    } else if mem[MMAP_SKELETON as int] == MMAP_KINECT_SKELETON_TRACKED {
        (Some(counter), Some(bones_at(mem, little)))
    } else {
        (Some(counter), None)
    }
}

/// The counter a promoted reader goes on from.
pub open spec fn promoted_sync(last: Option<u16>) -> u16 {
    match last {
        Some(s) => s,
        None => 0,
    }
}

/// Whether this machine stores multi-byte values least significant first.
pub open spec fn native_little() -> bool {
    endianness() is Little
}

/// Relies on `u16::from_ne_bytes`: the two bytes are read in the byte order
/// of the machine the code runs on.
#[verifier::external_body]
fn native_u16(bytes: [u8; 2]) -> (r: u16)
    ensures
        r == if native_little() {
            u16_from_bytes(bytes[0], bytes[1])
        } else {
            u16_from_bytes(bytes[1], bytes[0])
        },
{
    u16::from_ne_bytes(bytes)
}

/// Whether this machine stores multi-byte values least significant first.
fn native_little_endian() -> (r: bool)
    ensures
        r == native_little(),
{
    let probe = native_u16([1u8, 0u8]);
    assert((1u8 as u16) | ((0u8 as u16) << 8u16) == 1u16) by (bit_vector);
    assert((0u8 as u16) | ((1u8 as u16) << 8u16) == 256u16) by (bit_vector);
    probe == 1
}

/// Whether the record's active flag is set.
pub fn active(mem: &[u8]) -> (r: bool)
    requires
        mem@.len() == MMAP_FILE_SIZE,
    ensures
        r == (mem@[MMAP_ACTIVE as int] == 1),
{
    mem[MMAP_ACTIVE] == 1
}

/// Sets or clears the active flag; the returned range must be flushed.
pub fn set_active(mem: &mut [u8], active: bool) -> (r: FlushRange)
    requires
        old(mem)@.len() == MMAP_FILE_SIZE,
    ensures
        final(mem)@ == old(mem)@.update(MMAP_ACTIVE as int, if active { 1u8 } else { 0u8 }),
        r == (FlushRange { start: MMAP_ACTIVE, len: 1 }),
{
    mem[MMAP_ACTIVE] = if active { 1 } else { 0 };
    FlushRange { start: MMAP_ACTIVE, len: 1 }
}

impl<B> KinectState<B> {
    pub closed spec fn is_server(&self) -> bool {
        self.kind is Server
    }

    /// The last counter the writer published.
    pub closed spec fn server_sync(&self) -> u16 {
        match self.kind {
            KinectStateKind::Server { sync, .. } => sync,
            KinectStateKind::Client { .. } => 0,
        }
    }

    /// The last counter the reader saw.
    pub closed spec fn client_sync(&self) -> Option<u16> {
        match self.kind {
            KinectStateKind::Server { .. } => None,
            KinectStateKind::Client { sync } => sync,
        }
    }

    /// This process's copy of the current skeleton.
    pub closed spec fn cached(&self) -> Option<Seq<Joint>> {
        match self.skeleton {
            Some(s) => Some(s@),
            None => None,
        }
    }

    pub fn is_client(&self) -> (r: bool)
        ensures
            r == !self.is_server(),
    {
        match &self.kind {
            KinectStateKind::Server { .. } => false,
            KinectStateKind::Client { .. } => true,
        }
    }

    pub fn skeleton(&self) -> (r: Option<KinectSkeletonRawBones>)
        ensures
            match r {
                Some(s) => self.cached() == Some(s@),
                None => self.cached() is None,
            },
    {
        self.skeleton
    }
}

impl<B> KinectState<B> {
    /// The copied joint at index `bone`, if there is a copy and `bone` is a
    /// base joint index.
    pub fn bone(&self, bone: isize) -> (r: Option<Joint>)
        ensures
            r == match self.cached() {
                Some(c) => if 0 <= bone < SKELETON_BONE_COUNT {
                    Some(c[bone as int])
                } else {
                    None
                },
                None => None,
            },
    {
        match &self.skeleton {
            Some(s) => if 0 <= bone && bone < SKELETON_BONE_COUNT as isize {
                Some(s[bone as usize])
            } else {
                None
            },
            None => None,
        }
    }

    /// All twenty copied joints, or the origin for each when there is no
    /// copy.
    pub fn table(&self) -> (r: KinectSkeletonRawBones)
        ensures
            r@ == match self.cached() {
                Some(c) => c,
                None => Seq::new(SKELETON_BONE_COUNT as nat, |i: int| Joint::spec_origin()),
            },
    {
        match &self.skeleton {
            Some(s) => *s,
            None => {
                let r = [Joint::origin(); SKELETON_BONE_COUNT];
                assert(r@ =~= Seq::new(SKELETON_BONE_COUNT as nat, |i: int| Joint::spec_origin()));
                r
            },
        }
    }
}

impl<B: KinectBackend> KinectState<B> {
    /// A reader of `mem`, which then looks at the record once.
    pub fn new_client(mem: &mut [u8]) -> (r: (Self, Tick))
        requires
            old(mem)@.len() == MMAP_FILE_SIZE,
        ensures
            !r.0.is_server(),
            final(mem)@ == old(mem)@,
            old(mem)@[MMAP_SHUTDOWN as int] == 1 ==> r.1 == Tick::Promote && r.0.client_sync() is None
                && r.0.cached() is None,
            old(mem)@[MMAP_SHUTDOWN as int] != 1 ==> r.1 == Tick::Idle && (r.0.client_sync(), r.0.cached())
                == refresh(None, None, old(mem)@, native_little()),
    {
        let mut state = KinectState {
            skeleton: None,
            kind: KinectStateKind::Client { sync: None },
        };
        let tick = state.update(mem);
        (state, tick)
    }

    /// The writer: `mem` is zeroed, the counter starts at 0, and the whole
    /// record must be flushed.
    pub fn new_server(mem: &mut [u8], inner: Kinect<B>) -> (r: (Self, FlushRange))
        requires
            old(mem)@.len() == MMAP_FILE_SIZE,
        ensures
            r.0.is_server(),
            r.0.server_sync() == 0,
            r.0.cached() is None,
            final(mem)@ == Seq::new(MMAP_FILE_SIZE as nat, |i: int| 0u8),
            r.1 == (FlushRange { start: 0, len: MMAP_FILE_SIZE }),
    {
        let mut i: usize = 0;
        while i < MMAP_FILE_SIZE
            invariant
                i <= MMAP_FILE_SIZE,
                mem@.len() == MMAP_FILE_SIZE,
                forall|k: int| 0 <= k < i ==> mem@[k] == 0u8,
            decreases MMAP_FILE_SIZE - i,
        {
            mem[i] = 0;
            i = i + 1;
        }
        assert(mem@ =~= Seq::new(MMAP_FILE_SIZE as nat, |i: int| 0u8));
        let state = KinectState {
            skeleton: None,
            kind: KinectStateKind::Server { inner, sync: 0 },
        };
        (state, FlushRange { start: 0, len: MMAP_FILE_SIZE })
    }

    fn poll_inner(&mut self) -> (r: Option<KinectSkeleton>)
        requires
            old(self).is_server(),
        ensures
            final(self).is_server(),
            final(self).server_sync() == old(self).server_sync(),
            final(self).cached() == old(self).cached(),
    {
        match &mut self.kind {
            KinectStateKind::Server { inner, .. } => inner.poll(),
            KinectStateKind::Client { .. } => None,
        }
    }

    /// The writer's step after its backends were polled: publishes `frame`
    /// under the next counter, or does nothing when there is no frame.
    pub fn publish(&mut self, mem: &mut [u8], frame: Option<KinectSkeleton>) -> (r: Option<
        FlushRange,
    >)
        requires
            old(self).is_server(),
            old(mem)@.len() == MMAP_FILE_SIZE,
        ensures
            final(self).is_server(),
            frame is None ==> {
                &&& r is None
                &&& final(mem)@ == old(mem)@
                &&& final(self).server_sync() == old(self).server_sync()
                &&& final(self).cached() == old(self).cached()
            },
            frame is Some ==> {
                let bones = frame.unwrap().base_bones();
                let sync = next_sync(old(self).server_sync());
                &&& r == Some(publish_range(bones))
                &&& published(old(mem)@, final(mem)@, sync, bones, native_little())
                &&& final(self).server_sync() == sync
                &&& final(self).cached() == bones
            },
    {
        let frame = match frame {
            Some(f) => f,
            None => {
                return None;
            },
        };
        let little = native_little_endian();
        let sync = match &mut self.kind {
            KinectStateKind::Server { sync, .. } => {
                *sync = sync.wrapping_add(1);
                *sync
            },
            KinectStateKind::Client { .. } => 0,
        };
        let ghost start = mem@;
        let bones = match frame {
            KinectSkeleton::Untracked => None,
            KinectSkeleton::TrackedBody(s) => Some(*s.raw_bones()),
            KinectSkeleton::TrackedExtended(s, _) => Some(*s.raw_bones()),
        };
        match bones {
            Some(b) => {
                write_bones(mem, &b, little);
                let ghost written = mem@;
                mem[MMAP_SKELETON] = MMAP_KINECT_SKELETON_TRACKED;
                let ghost flagged = mem@;
                write_u16(mem, MMAP_SYNC, sync, little);
                proof {
                    assert forall|j: int|
                        0 <= j < written.len() && !(MMAP_SKELETON <= j < MMAP_SKELETON_BONES) implies
                        #[trigger] written[j] == mem@[j] by {
                        assert(flagged[j] == written[j]);
                    }
                    lemma_bones_unchanged(
                        written,
                        mem@,
                        MMAP_SKELETON as int,
                        MMAP_SKELETON_BONES as int,
                        little,
                    );
                    assert forall|j: int|
                        0 <= j < start.len() && !(MMAP_SKELETON <= j < MMAP_FILE_SIZE) implies
                        #[trigger] start[j] == mem@[j] by {
                        assert(written[j] == start[j]);
                    }
                }
                assert(flagged[MMAP_SKELETON as int] == mem@[MMAP_SKELETON as int]);
                self.skeleton = Some(b);
                Some(FlushRange { start: MMAP_SKELETON, len: MMAP_FILE_SIZE - MMAP_SKELETON })
            },
            None => {
                mem[MMAP_SKELETON] = MMAP_KINECT_SKELETON_NONE;
                let ghost flagged = mem@;
                write_u16(mem, MMAP_SYNC, sync, little);
                proof {
                    assert forall|j: int|
                        0 <= j < start.len() && !(MMAP_SKELETON <= j < MMAP_SKELETON_BONES) implies
                        #[trigger] start[j] == mem@[j] by {
                        assert(flagged[j] == start[j]);
                    }
                    assert(flagged[MMAP_SKELETON as int] == mem@[MMAP_SKELETON as int]);
                }
                self.skeleton = None;
                Some(FlushRange { start: MMAP_SKELETON, len: MMAP_SKELETON_BONES - MMAP_SKELETON })
            },
        }
    }

    fn refresh_client(&mut self, mem: &[u8])
        requires
            !old(self).is_server(),
            mem@.len() == MMAP_FILE_SIZE,
        ensures
            !final(self).is_server(),
            (final(self).client_sync(), final(self).cached()) == refresh(
                old(self).client_sync(),
                old(self).cached(),
                mem@,
                native_little(),
            ),
    {
        let little = native_little_endian();
        let counter = read_u16(mem, MMAP_SYNC, little);
        let last = match &self.kind {
            KinectStateKind::Server { .. } => None,
            KinectStateKind::Client { sync } => *sync,
        };
        let unchanged = match last {
            Some(s) => s == counter,
            None => false,
        };
        if unchanged {
            return ;
        }
        self.kind = KinectStateKind::Client { sync: Some(counter) };
        if mem[MMAP_SKELETON] == MMAP_KINECT_SKELETON_TRACKED {
            self.skeleton = Some(read_bones(mem, little));
        } else {
            self.skeleton = None;
        }
    }

    /// One tick. The writer, when the active flag is set, polls its backends
    /// and publishes what they give. A reader asks to be promoted when the
    /// shutdown flag is set, and otherwise refreshes its copy when the
    /// counter changed.
    pub fn update(&mut self, mem: &mut [u8]) -> (r: Tick)
        requires
            old(mem)@.len() == MMAP_FILE_SIZE,
        ensures
            final(self).is_server() == old(self).is_server(),
            old(self).is_server() ==> {
                ||| {
                    &&& r == Tick::Idle
                    &&& final(mem)@ == old(mem)@
                    &&& final(self).server_sync() == old(self).server_sync()
                    &&& final(self).cached() == old(self).cached()
                }
                ||| exists|bones: Option<Seq<Joint>>|
                    {
                        &&& old(mem)@[MMAP_ACTIVE as int] == 1
                        &&& r == Tick::Flush(publish_range(bones))
                        &&& published(
                            old(mem)@,
                            final(mem)@,
                            next_sync(old(self).server_sync()),
                            bones,
                            native_little(),
                        )
                        &&& final(self).server_sync() == next_sync(old(self).server_sync())
                        &&& final(self).cached() == bones
                    }
            },
            old(self).is_server() && old(mem)@[MMAP_ACTIVE as int] != 1 ==> r == Tick::Idle,
            !old(self).is_server() ==> final(mem)@ == old(mem)@,
            !old(self).is_server() && old(mem)@[MMAP_SHUTDOWN as int] == 1 ==> {
                &&& r == Tick::Promote
                &&& final(self).client_sync() == old(self).client_sync()
                &&& final(self).cached() == old(self).cached()
            },
            !old(self).is_server() && old(mem)@[MMAP_SHUTDOWN as int] != 1 ==> {
                &&& r == Tick::Idle
                &&& (final(self).client_sync(), final(self).cached()) == refresh(
                    old(self).client_sync(),
                    old(self).cached(),
                    old(mem)@,
                    native_little(),
                )
            },
    {
        if self.is_client() {
            if mem[MMAP_SHUTDOWN] == 1 {
                return Tick::Promote;
            }
            self.refresh_client(mem);
            return Tick::Idle;
        }
        if mem[MMAP_ACTIVE] != 1 {
            return Tick::Idle;
        }
        let frame = self.poll_inner();
        let ghost bones = match frame {
            Some(f) => f.base_bones(),
            None => None,
        };
        match self.publish(mem, frame) {
            Some(range) => {
                assert(range == publish_range(bones));
                Tick::Flush(range)
            },
            None => Tick::Idle,
        }
    }

    /// A reader that saw the shutdown flag and started `inner` claims the
    /// writer role: it clears the flag, and becomes the writer only if the
    /// flag was still set, going on from the last counter it saw.
    pub fn promote(&mut self, mem: &mut [u8], inner: Kinect<B>) -> (r: Promotion)
        requires
            !old(self).is_server(),
            old(mem)@.len() == MMAP_FILE_SIZE,
        ensures
            final(mem)@ == old(mem)@.update(MMAP_SHUTDOWN as int, 0u8),
            final(self).cached() == old(self).cached(),
            old(mem)@[MMAP_SHUTDOWN as int] == 1 ==> {
                &&& r == Promotion::Claimed(FlushRange { start: MMAP_SHUTDOWN, len: 1 })
                &&& final(self).is_server()
                &&& final(self).server_sync() == promoted_sync(old(self).client_sync())
            },
            old(mem)@[MMAP_SHUTDOWN as int] != 1 ==> {
                &&& r == Promotion::Lost
                &&& !final(self).is_server()
                &&& final(self).client_sync() == old(self).client_sync()
            },
    {
        let was = mem[MMAP_SHUTDOWN];
        mem[MMAP_SHUTDOWN] = 0;
        if was != 1 {
            return Promotion::Lost;
        }
        let sync = match &self.kind {
            KinectStateKind::Server { .. } => 0,
            KinectStateKind::Client { sync } => match sync {
                Some(s) => *s,
                None => 0,
            },
        };
        self.kind = KinectStateKind::Server { inner, sync };
        Promotion::Claimed(FlushRange { start: MMAP_SHUTDOWN, len: 1 })
    }

    /// Leaves the record. A writer stops its backends first and only then
    /// sets the shutdown flag, whose range must be flushed; a reader leaves
    /// the record as it is.
    pub fn shutdown(self, mem: &mut [u8]) -> (r: Option<FlushRange>)
        requires
            old(mem)@.len() == MMAP_FILE_SIZE,
        ensures
            self.is_server() ==> {
                &&& final(mem)@ == old(mem)@.update(MMAP_SHUTDOWN as int, 1u8)
                &&& r == Some(FlushRange { start: MMAP_SHUTDOWN, len: 1 })
            },
            !self.is_server() ==> final(mem)@ == old(mem)@ && r is None,
    {
        match self.kind {
            KinectStateKind::Server { inner, .. } => {
                {
                    let stopped = inner;
                }
                mem[MMAP_SHUTDOWN] = 1;
                Some(FlushRange { start: MMAP_SHUTDOWN, len: 1 })
            },
            KinectStateKind::Client { .. } => None,
        }
    }
}

/// The reader's copies after it looks at each record of `mems` in turn.
pub open spec fn reader_copies(
    last: Option<u16>,
    cache: Option<Seq<Joint>>,
    mems: Seq<Seq<u8>>,
    little: bool,
) -> Seq<Option<Seq<Joint>>>
    decreases mems.len(),
{
    if mems.len() == 0 {
        Seq::empty()
    } else {
        let (l, c) = refresh(last, cache, mems[0], little);
        seq![c] + reader_copies(l, c, mems.drop_first(), little)
    }
}

/// The counter after `k` publishes that start from `sync`.
pub open spec fn sync_after(sync: u16, k: nat) -> u16
    decreases k,
{
    if k == 0 {
        sync
    } else {
        sync_after(next_sync(sync), (k - 1) as nat)
    }
}

/// A reader that has seen the record's current counter `sync` takes a
/// publish under the next counter as news, and its copy becomes exactly the
/// published frame (`None` for an untracked one).
pub proof fn lemma_publish_is_seen(
    before: Seq<u8>,
    after: Seq<u8>,
    sync: u16,
    bones: Option<Seq<Joint>>,
    cache: Option<Seq<Joint>>,
    little: bool,
)
    requires
        before.len() == MMAP_FILE_SIZE,
        sync_of(before, little) == sync,
        published(before, after, next_sync(sync), bones, little),
    ensures
        refresh(Some(sync), cache, after, little) == (Some(next_sync(sync)), bones),
{
}

/// A reader that looks at the record after every publish sees every
/// published frame, one copy per publish and in order: for a writer whose
/// publishes take the record from `start` through `mems`, under the
/// counters that follow `sync`, a reader that had seen `sync` ends up with
/// the copies `frames`, the frames that were published.
pub proof fn lemma_reader_sees_every_frame(
    start: Seq<u8>,
    mems: Seq<Seq<u8>>,
    frames: Seq<Option<Seq<Joint>>>,
    sync: u16,
    cache: Option<Seq<Joint>>,
    little: bool,
)
    requires
        start.len() == MMAP_FILE_SIZE,
        sync_of(start, little) == sync,
        mems.len() == frames.len(),
        forall|k: int|
            0 <= k < mems.len() ==> published(
                if k == 0 {
                    start
                } else {
                    mems[k - 1]
                },
                #[trigger] mems[k],
                sync_after(sync, (k + 1) as nat),
                frames[k],
                little,
            ),
    ensures
        reader_copies(Some(sync), cache, mems, little) == frames,
    decreases mems.len(),
{
    if mems.len() > 0 {
        assert(sync_after(sync, 1) == next_sync(sync_after(sync, 0))) by {
            assert(sync_after(next_sync(sync), 0) == next_sync(sync));
        }
        assert(published(start, mems[0], next_sync(sync), frames[0], little));
        lemma_publish_is_seen(start, mems[0], sync, frames[0], cache, little);
        let rest = mems.drop_first();
        let rest_frames = frames.drop_first();
        assert forall|k: int| 0 <= k < rest.len() implies published(
            if k == 0 {
                mems[0]
            } else {
                rest[k - 1]
            },
            #[trigger] rest[k],
            sync_after(next_sync(sync), (k + 1) as nat),
            rest_frames[k],
            little,
        ) by {
            assert(rest[k] == mems[k + 1]);
            assert(sync_after(sync, (k + 2) as nat) == sync_after(next_sync(sync), (k + 1) as nat));
        }
        lemma_reader_sees_every_frame(mems[0], rest, rest_frames, next_sync(sync), frames[0], little);
        assert(reader_copies(Some(sync), cache, mems, little) =~= seq![frames[0]] + rest_frames);
        assert(frames =~= seq![frames[0]] + rest_frames);
    } else {
        assert(frames =~= Seq::empty());
    }
}

/// Every counter step gives a different value, the largest value included
/// (it wraps to 0), so a reader that has seen `sync` takes a record that
/// holds the next counter as news and copies it afresh.
pub proof fn lemma_counter_wrap_is_news(
    sync: u16,
    cache: Option<Seq<Joint>>,
    mem: Seq<u8>,
    little: bool,
)
    requires
        mem.len() == MMAP_FILE_SIZE,
        sync_of(mem, little) == next_sync(sync),
    ensures
        next_sync(sync) != sync,
        sync == u16::MAX ==> next_sync(sync) == 0,
        refresh(Some(sync), cache, mem, little) == refresh(None, None, mem, little),
{
}

/// After a promotion the new writer's publishes reach the other readers as
/// ordinary counter steps: a reader that had seen the record's counter and
/// claimed the writer role (clearing the shutdown flag) publishes under the
/// next counter, and a third process, still a reader in step with the
/// record, takes that publish as news and copies the frame.
pub proof fn lemma_promoted_writer_is_seen(
    mem: Seq<u8>,
    after: Seq<u8>,
    last: Option<u16>,
    bones: Option<Seq<Joint>>,
    cache: Option<Seq<Joint>>,
    little: bool,
)
    requires
        mem.len() == MMAP_FILE_SIZE,
        mem[MMAP_SHUTDOWN as int] == 1,
        last == Some(sync_of(mem, little)),
        published(
            mem.update(MMAP_SHUTDOWN as int, 0u8),
            after,
            next_sync(promoted_sync(last)),
            bones,
            little,
        ),
    ensures
        sync_of(after, little) == next_sync(sync_of(mem, little)),
        refresh(Some(sync_of(mem, little)), cache, after, little) == (
            Some(next_sync(sync_of(mem, little))),
            bones,
        ),
{
    let claimed = mem.update(MMAP_SHUTDOWN as int, 0u8);
    assert(sync_of(claimed, little) == sync_of(mem, little));
    lemma_publish_is_seen(claimed, after, sync_of(mem, little), bones, cache, little);
}

/// Looking at an unchanged record a second time changes nothing: the
/// reader's counter and copy stay as the first look left them.
pub proof fn lemma_refresh_idempotent(
    last: Option<u16>,
    cache: Option<Seq<Joint>>,
    mem: Seq<u8>,
    little: bool,
)
    ensures
        ({
            let (l, c) = refresh(last, cache, mem, little);
            refresh(l, c, mem, little) == (l, c)
        }),
{
}

} // verus!
