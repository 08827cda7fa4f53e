//! Which body a backend follows.
//!
//! A sensor reports several body slots. A backend locks onto the first slot
//! that carries a skeleton and ignores the others until that body is lost;
//! losing it is reported once, and then the lock is free again.
use vstd::prelude::*;

verus! {

/// What one driver event becomes.
#[derive(Clone, Copy, PartialEq, Eq, Structural, Debug)]
pub enum LockStep {
    /// The followed body (or a newly followed one) has a skeleton: report it.
    Emit,
    /// The followed body was lost: report that once.
    Lost,
    /// Nothing to report.
    Ignore,
}

/// The lock after an event for slot `index`, which carries a skeleton when
/// `present`, and what the event becomes.
pub open spec fn lock_step(locked: Option<usize>, index: usize, present: bool) -> (Option<usize>, LockStep) {
    if locked is None || locked == Some(index) {
        if present {
            (Some(index), LockStep::Emit)
        } else if locked is Some {
            (None, LockStep::Lost)
        } else {
            (locked, LockStep::Ignore)
        }
    } else {
        (locked, LockStep::Ignore)
    }
}

/// What a run of events `(slot, present)` becomes, one step per event.
pub open spec fn lock_run(locked: Option<usize>, events: Seq<(usize, bool)>) -> Seq<LockStep>
    decreases events.len(),
{
    if events.len() == 0 {
        Seq::empty()
    } else {
        let (next, step) = lock_step(locked, events[0].0, events[0].1);
        seq![step] + lock_run(next, events.drop_first())
    }
}

/// The slot a backend follows, if any.
#[derive(Clone, Copy, Debug)]
pub struct SkeletonLock {
    pub skeleton: Option<usize>,
}

impl SkeletonLock {
    pub fn new() -> (r: Self)
        ensures
            r.skeleton is None,
    {
        SkeletonLock { skeleton: None }
    }

    /// Takes one event for slot `skeleton_index`; `present` says whether it
    /// carries a skeleton.
    pub fn step(&mut self, skeleton_index: usize, present: bool) -> (r: LockStep)
        ensures
            (final(self).skeleton, r) == lock_step(old(self).skeleton, skeleton_index, present),
    {
        let follows = match self.skeleton {
            None => true,
            Some(i) => i == skeleton_index,
        };
        if follows {
            if present {
                self.skeleton = Some(skeleton_index);
                LockStep::Emit
            } else if self.skeleton.is_some() {
                self.skeleton = None;
                LockStep::Lost
            } else {
                LockStep::Ignore
            }
        } else {
            LockStep::Ignore
        }
    }
}

proof fn lemma_unlocked_stays_quiet(events: Seq<(usize, bool)>)
    requires
        forall|k: int| 0 <= k < events.len() ==> !(#[trigger] events[k]).1,
    ensures
        lock_run(None, events).len() == events.len(),
        forall|k: int| 0 <= k < events.len() ==> #[trigger] lock_run(None, events)[k] == LockStep::Ignore,
    decreases events.len(),
{
    if events.len() > 0 {
        let rest = events.drop_first();
        assert forall|k: int| 0 <= k < rest.len() implies !(#[trigger] rest[k]).1 by {
            assert(rest[k] == events[k + 1]);
        }
        lemma_unlocked_stays_quiet(rest);
        assert forall|k: int| 0 <= k < events.len() implies #[trigger] lock_run(None, events)[k]
            == LockStep::Ignore by {
            if k > 0 {
                assert(lock_run(None, events)[k] == lock_run(None, rest)[k - 1]);
            }
        }
    }
}

/// Losing a followed body is reported exactly once: when the driver reports
/// slot `i` without a skeleton while the lock follows `i`, that first event
/// becomes `Lost`, and every later event without a skeleton, for any slot,
/// becomes `Ignore` until some slot carries a skeleton again.
pub proof fn lemma_untracked_once(i: usize, events: Seq<(usize, bool)>)
    requires
        events.len() > 0,
        events[0].0 == i,
        forall|k: int| 0 <= k < events.len() ==> !(#[trigger] events[k]).1,
    ensures
        lock_run(Some(i), events).len() == events.len(),
        lock_run(Some(i), events)[0] == LockStep::Lost,
        forall|k: int| 1 <= k < events.len() ==> #[trigger] lock_run(Some(i), events)[k] == LockStep::Ignore,
{
    let rest = events.drop_first();
    assert forall|k: int| 0 <= k < rest.len() implies !(#[trigger] rest[k]).1 by {
        assert(rest[k] == events[k + 1]);
    }
    lemma_unlocked_stays_quiet(rest);
    assert forall|k: int| 1 <= k < events.len() implies #[trigger] lock_run(Some(i), events)[k]
        == LockStep::Ignore by {
        assert(lock_run(Some(i), events)[k] == lock_run(None, rest)[k - 1]);
    }
}

} // verus!
