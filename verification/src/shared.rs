//! The epoch model of shared journals.
//!
//! A shared journal's streams divide time into epochs, and each epoch has at
//! most one producer.  The server reports, per stream, the current epoch
//! number, this process's role in it, and the leader's address when known; a
//! subscription pushes a new such snapshot on every transition.  This module
//! holds the snapshot model and the observer that decides, per snapshot,
//! whether it supersedes what the caller has already seen.

use vstd::prelude::*;

verus! {

/// The role of this process for a stream's current epoch.
#[derive(Clone, Copy, Debug, PartialEq, Eq, Structural)]
pub enum Role {
    /// A leader may append to the stream.
    Leader,
    /// A follower may only read and subscribe.
    Follower,
}

/// The role and leader address of a current epoch, as a transport hands it
/// to the caller.
pub trait EpochState {
    /// The epoch number of this snapshot.
    spec fn spec_epoch(&self) -> u64;

    /// The role of this process in the epoch.
    spec fn spec_role(&self) -> Role;

    /// The leader's address, when one is known.
    spec fn spec_leader(&self) -> Option<Seq<char>>;

    /// The epoch number of this snapshot.
    fn epoch(&self) -> (r: u64)
        ensures
            r == self.spec_epoch(),
    ;

    /// The role of the associated stream.
    fn role(&self) -> (r: Role)
        ensures
            r == self.spec_role(),
    ;

    /// The leader of the associated stream.
    fn leader(&self) -> (r: Option<String>)
        ensures
            (r matches Some(a) && self.spec_leader() matches Some(b) && a@ == b) || (r is None
                && self.spec_leader() is None),
    ;
}

/// A server-produced snapshot of leadership for one stream.  Snapshots are
/// immutable values; a newer one supersedes every older one whole, there is
/// no merging.
#[derive(Clone, Debug)]
pub struct EpochSnapshot {
    pub epoch: u64,
    pub role: Role,
    pub leader: Option<String>,
}

impl EpochState for EpochSnapshot {
    open spec fn spec_epoch(&self) -> u64 {
        self.epoch
    }

    open spec fn spec_role(&self) -> Role {
        self.role
    }

    open spec fn spec_leader(&self) -> Option<Seq<char>> {
        match self.leader {
            Some(a) => Some(a@),
            None => None,
        }
    }

    fn epoch(&self) -> u64 {
        self.epoch
    }

    fn role(&self) -> Role {
        self.role
    }

    fn leader(&self) -> (r: Option<String>) {
        match &self.leader {
            Some(a) => Some(a.clone()),
            None => None,
        }
    }
}

/// What a caller has last accepted from the epoch-state feed of one stream:
/// nothing yet, or the epoch and role of the latest superseding snapshot.
#[derive(Clone, Copy, Debug, PartialEq, Eq, Structural)]
pub struct EpochObserver {
    pub seen: bool,
    pub epoch: u64,
    pub role: Role,
}

/// Whether a snapshot with number `epoch` and role `role` supersedes what
/// the observer holds: anything supersedes nothing, a higher epoch always
/// supersedes, and the same epoch supersedes only when the role changed.
pub open spec fn spec_supersedes(o: EpochObserver, epoch: u64, role: Role) -> bool {
    !o.seen || epoch > o.epoch || (epoch == o.epoch && role != o.role)
}

/// The observer after one snapshot: updated when the snapshot supersedes,
/// unchanged otherwise.
pub open spec fn spec_observe(o: EpochObserver, epoch: u64, role: Role) -> EpochObserver {
    if spec_supersedes(o, epoch, role) {
        EpochObserver { seen: true, epoch, role }
    } else {
        o
    }
}

/// The observer after a whole sequence of snapshots, oldest first.
pub open spec fn spec_run(o: EpochObserver, obs: Seq<(u64, Role)>) -> EpochObserver
    decreases obs.len(),
{
    if obs.len() == 0 {
        o
    } else {
        spec_observe(spec_run(o, obs.drop_last()), obs.last().0, obs.last().1)
    }
}

/// The snapshots of a sequence that the observer accepts as superseding: the
/// subsequence a consumer of the feed acts on.
pub open spec fn spec_accepted(o: EpochObserver, obs: Seq<(u64, Role)>) -> Seq<(u64, Role)>
    decreases obs.len(),
{
    if obs.len() == 0 {
        Seq::empty()
    } else {
        let pre = spec_accepted(o, obs.drop_last());
        if spec_supersedes(spec_run(o, obs.drop_last()), obs.last().0, obs.last().1) {
            pre.push(obs.last())
        } else {
            pre
        }
    }
}

impl EpochObserver {
    /// An observer that has seen no snapshot yet.
    pub fn new() -> (r: EpochObserver)
        ensures
            r == (EpochObserver { seen: false, epoch: 0u64, role: Role::Follower }),
    {
        EpochObserver { seen: false, epoch: 0, role: Role::Follower }
    }

    /// Feed one snapshot to the observer.  Returns whether it supersedes the
    /// state last accepted; a stale snapshot, one whose epoch is below an
    /// accepted one, is never accepted, so the accepted epoch never goes
    /// down.
    pub fn observe(&mut self, s: &EpochSnapshot) -> (accepted: bool)
        ensures
            accepted == spec_supersedes(*old(self), s.epoch, s.role),
            *final(self) == spec_observe(*old(self), s.epoch, s.role),
            accepted && old(self).seen ==> s.epoch >= old(self).epoch,
            final(self).seen == (old(self).seen || accepted),
            old(self).seen ==> final(self).epoch >= old(self).epoch,
    {
        let supersedes = !self.seen || s.epoch > self.epoch || (s.epoch == self.epoch && s.role
            != self.role);
        if supersedes {
            self.seen = true;
            self.epoch = s.epoch;
            self.role = s.role;
        }
        supersedes
    }

    /// Whether the latest accepted snapshot permits this process to append:
    /// only a known epoch in which it is the leader does.
    pub fn may_append(&self) -> (r: bool)
        ensures
            r == (self.seen && self.role == Role::Leader),
    {
        self.seen && matches!(self.role, Role::Leader)
    }
}

/// Every accepted snapshot's epoch is bounded by the epoch the observer
/// holds afterwards.
proof fn lemma_accepted_bounded(o: EpochObserver, obs: Seq<(u64, Role)>)
    ensures
        spec_accepted(o, obs).len() > 0 ==> spec_run(o, obs).seen,
        forall|i: int|
            0 <= i < spec_accepted(o, obs).len() ==> (#[trigger] spec_accepted(o, obs)[i]).0
                <= spec_run(o, obs).epoch,
    decreases obs.len(),
{
    if obs.len() > 0 {
        let tail = obs.drop_last();
        let pre = spec_accepted(o, tail);
        let run_pre = spec_run(o, tail);
        let last = obs.last();
        lemma_accepted_bounded(o, tail);
        if spec_supersedes(run_pre, last.0, last.1) {
            assert(spec_accepted(o, obs) == pre.push(last));
            assert(spec_run(o, obs) == (EpochObserver { seen: true, epoch: last.0, role: last.1 }));
            assert forall|i: int| 0 <= i < spec_accepted(o, obs).len() implies (
            #[trigger] spec_accepted(o, obs)[i]).0 <= spec_run(o, obs).epoch by {
                if i < pre.len() {
                    assert(spec_accepted(o, obs)[i] == pre[i]);
                    assert(run_pre.seen);
                    assert(pre[i].0 <= run_pre.epoch);
                    assert(run_pre.epoch <= last.0);
                } else {
                    assert(spec_accepted(o, obs)[i] == last);
                }
            }
        } else {
            assert(spec_accepted(o, obs) == pre);
            assert(spec_run(o, obs) == run_pre);
        }
    }
}

/// The epoch-state feed, filtered through an observer, never hands the
/// caller an epoch lower than one it already handed out: the epochs of the
/// accepted snapshots are non-decreasing, from any starting observer and for
/// any pushed sequence.
pub proof fn lemma_accepted_epochs_monotone(o: EpochObserver, obs: Seq<(u64, Role)>)
    ensures
        forall|i: int, j: int|
            0 <= i <= j < spec_accepted(o, obs).len() ==> (#[trigger] spec_accepted(o, obs)[i]).0
                <= (#[trigger] spec_accepted(o, obs)[j]).0,
    decreases obs.len(),
{
    if obs.len() > 0 {
        let tail = obs.drop_last();
        let pre = spec_accepted(o, tail);
        let run_pre = spec_run(o, tail);
        let last = obs.last();
        lemma_accepted_epochs_monotone(o, tail);
        lemma_accepted_bounded(o, tail);
        if spec_supersedes(run_pre, last.0, last.1) {
            assert(spec_accepted(o, obs) == pre.push(last));
            assert forall|i: int, j: int|
                0 <= i <= j < spec_accepted(o, obs).len() implies (#[trigger] spec_accepted(
                o,
                obs,
            )[i]).0 <= (#[trigger] spec_accepted(o, obs)[j]).0 by {
                if j < pre.len() {
                    assert(spec_accepted(o, obs)[i] == pre[i]);
                    assert(spec_accepted(o, obs)[j] == pre[j]);
                } else {
                    assert(spec_accepted(o, obs)[j] == last);
                    if i < pre.len() {
                        assert(spec_accepted(o, obs)[i] == pre[i]);
                        assert(run_pre.seen);
                        assert(pre[i].0 <= run_pre.epoch);
                        assert(run_pre.epoch <= last.0);
                    }
                }
            }
        } else {
            assert(spec_accepted(o, obs) == pre);
        }
    }
}

} // verus!
