//! Pairing decisions of the relay.
//!
//! A sender connects first and waits under its identifier; the
//! receiver that announces the same identifier is paired with it. A
//! second sender under a pending identifier is dropped, a receiver
//! with no waiting sender is closed, and pending senders are reaped
//! after fifteen minutes.

use vstd::prelude::*;

verus! {

/// Seconds a sender may wait unpaired before it is reaped.
pub const PENDING_TIMEOUT_SECS: u64 = 900;

/// One sender waiting at the relay for its receiver.
#[derive(Debug)]
pub struct PendingSender {
    /// The identifier the connection announced.
    pub id: String,
    /// The reactor's handle for the connection and its pipes.
    pub conn: u64,
    /// Arrival time, in seconds.
    pub time_added: u64,
}

/// What the relay must do with a connection it has just classified.
#[derive(Debug, Copy, Clone, PartialEq, Eq, Structural)]
pub enum RegisterAction {
    /// Keep the sender pending until a receiver arrives.
    PendSender,
    /// Drop the connection: a pending sender already claimed this
    /// identifier.
    DropDuplicateSender,
    /// Pair the receiver with the pending sender whose handle is
    /// carried here; that sender leaves the pending set.
    PairWithSender(u64),
    /// Close the connection: no sender is waiting under this
    /// identifier.
    CloseNoSender,
}

/// The relay's pending-sender registry and its pairing rules.
pub struct ConnectionBroker {
    pending: Vec<PendingSender>,
}

impl ConnectionBroker {
    /// The pending senders as (identifier, handle, arrival) triples,
    /// in arrival order.
    pub closed spec fn entries(&self) -> Seq<(Seq<char>, u64, u64)> {
        self.pending@.map_values(|p: PendingSender| (p.id@, p.conn, p.time_added))
    }

    /// Whether a sender is pending under this identifier.
    pub open spec fn has_id(&self, id: Seq<char>) -> bool {
        exists|i: int| 0 <= i < self.entries().len() && (#[trigger] self.entries()[i]).0 == id
    }

    /// The position of the pending sender with this identifier.
    pub open spec fn index_of(&self, id: Seq<char>) -> int {
        choose|i: int| 0 <= i < self.entries().len() && (#[trigger] self.entries()[i]).0 == id
    }

    /// The handle of the pending sender with this identifier.
    pub open spec fn conn_of(&self, id: Seq<char>) -> u64 {
        self.entries()[self.index_of(id)].1
    }

    /// No two pending senders share an identifier.
    pub open spec fn wf(&self) -> bool {
        forall|i: int, j: int|
            0 <= i < j < self.entries().len() ==> (#[trigger] self.entries()[i]).0 != (
            #[trigger] self.entries()[j]).0
    }

    /// A broker with no pending senders.
    pub fn new() -> (r: ConnectionBroker)
        ensures
            r.wf(),
            r.entries() =~= Seq::<(Seq<char>, u64, u64)>::empty(),
    {
        let r = ConnectionBroker { pending: Vec::new() };
        proof {
            assert(r.entries() =~= Seq::<(Seq<char>, u64, u64)>::empty());
        }
        r
    }

    /// Find the position of a pending sender by identifier.
    fn find(&self, id: &String) -> (r: Option<usize>)
        ensures
            r matches Some(i) ==> i < self.entries().len() && self.entries()[i as int].0 == id@,
            r is None ==> !self.has_id(id@),
    {
        let mut i: usize = 0;
        while i < self.pending.len()
            invariant
                i <= self.entries().len(),
                self.entries().len() == self.pending@.len(),
                forall|k: int| 0 <= k < i ==> (#[trigger] self.entries()[k]).0 != id@,
            decreases self.pending@.len() - i,
        {
            if self.pending[i].id.eq(id) {
                return Some(i);
            }
            i = i + 1;
        }
        None
    }

    /// Accept a new sender: if no other connection is pending under
    /// this identifier, it joins the pending set; otherwise the new
    /// connection is to be dropped, and the set is unchanged.
    pub fn add_sender(&mut self, id: &String, conn: u64, now: u64) -> (r: RegisterAction)
        requires
            old(self).wf(),
        ensures
            final(self).wf(),
            old(self).has_id(id@) ==> r == RegisterAction::DropDuplicateSender && final(self).entries() == old(self).entries(),
            !old(self).has_id(id@) ==> r == RegisterAction::PendSender && final(self).entries()
                =~= old(self).entries().push((id@, conn, now)),
    {
        match self.find(id) {
            Some(_) => RegisterAction::DropDuplicateSender,
            None => {
                self.pending.push(PendingSender { id: id.clone(), conn, time_added: now });
                proof {
                    assert(self.entries() =~= old(self).entries().push((id@, conn, now)));
                }
                RegisterAction::PendSender
            },
        }
    }

    /// Accept a new receiver: if a sender is pending under this
    /// identifier, the two are paired and the sender leaves the
    /// pending set; otherwise the connection is to be closed.
    pub fn add_receiver(&mut self, id: &String) -> (r: RegisterAction)
        requires
            old(self).wf(),
        ensures
            final(self).wf(),
            !old(self).has_id(id@) ==> r == RegisterAction::CloseNoSender && final(self).entries()
                == old(self).entries(),
            old(self).has_id(id@) ==> r == RegisterAction::PairWithSender(old(self).conn_of(id@))
                && final(self).entries() =~= old(self).entries().remove(old(self).index_of(id@))
                && !final(self).has_id(id@),
    {
        match self.find(id) {
            Some(i) => {
                let conn = self.pending[i].conn;
                proof {
                    // The identifiers are unique, so the found position
                    // is the one the specification names.
                    let j = old(self).index_of(id@);
                    assert(0 <= j < old(self).entries().len() && old(self).entries()[j].0 == id@);
                    assert(j == i);
                }
                self.pending.remove(i);
                proof {
                    assert(self.entries() =~= old(self).entries().remove(i as int));
                    assert forall|k: int|
                        0 <= k < self.entries().len() implies (#[trigger] self.entries()[k]).0
                        != id@ by {
                        if k < i {
                        } else {
                            assert(self.entries()[k] == old(self).entries()[k + 1]);
                        }
                    }
                }
                RegisterAction::PairWithSender(conn)
            },
            None => RegisterAction::CloseNoSender,
        }
    }

    /// How many senders are pending.
    pub fn pending_count(&self) -> (r: usize)
        ensures
            r == self.entries().len(),
    {
        self.pending.len()
    }

    /// Whether a sender is pending under this identifier.
    pub fn has_pending(&self, id: &String) -> (r: bool)
        requires
            self.wf(),
        ensures
            r == self.has_id(id@),
    {
        match self.find(id) {
            Some(_) => true,
            None => false,
        }
    }

    /// Evict every pending sender that arrived fifteen minutes or more
    /// before `now`; fresher ones stay, in order.
    pub fn reap(&mut self, now: u64)
        requires
            old(self).wf(),
        ensures
            final(self).wf(),
            final(self).entries() == old(self).entries().filter(fresh_at(now)),
    {
        let ghost pred = fresh_at(now);
        let mut kept: Vec<PendingSender> = Vec::new();
        let mut i: usize = 0;
        proof {
            reveal(Seq::filter);
            assert(old(self).entries().take(0).filter(pred) =~= Seq::<(
                Seq<char>,
                u64,
                u64,
            )>::empty());
            assert(kept@.map_values(|p: PendingSender| (p.id@, p.conn, p.time_added)) =~= Seq::<(
                Seq<char>,
                u64,
                u64,
            )>::empty());
        }
        while i < self.pending.len()
            invariant
                i <= self.pending@.len(),
                self.pending@ == old(self).pending@,
                self.entries().len() == self.pending@.len(),
                pred == fresh_at(now),
                kept@.map_values(|p: PendingSender| (p.id@, p.conn, p.time_added)) == old(self).entries().take(i as int).filter(pred),
            decreases self.pending@.len() - i,
        {
            let keep = (self.pending[i].time_added as u128) + (PENDING_TIMEOUT_SECS as u128) > (
            now as u128);
            let ghost prev = kept@.map_values(|p: PendingSender| (p.id@, p.conn, p.time_added));
            if keep {
                let p = &self.pending[i];
                kept.push(
                    PendingSender { id: p.id.clone(), conn: p.conn, time_added: p.time_added },
                );
            }
            proof {
                reveal(Seq::filter);
                let pre = old(self).entries().take(i as int);
                let e = old(self).entries()[i as int];
                assert(old(self).entries().take(i + 1) =~= pre.push(e));
                assert(pre.push(e).drop_last() =~= pre);
                assert(pre.push(e).last() == e);
                if keep {
                    assert(pred(e));
                    assert(kept@.map_values(|p: PendingSender| (p.id@, p.conn, p.time_added))
                        =~= prev.push(e));
                    assert(pre.push(e).filter(pred) =~= pre.filter(pred).push(e));
                } else {
                    assert(!pred(e));
                    assert(pre.push(e).filter(pred) =~= pre.filter(pred));
                }
            }
            i = i + 1;
        }
        proof {
            reveal(Seq::filter);
            assert(old(self).entries().take(self.pending@.len() as int) =~= old(self).entries());
        }
        self.pending = kept;
        proof {
            lemma_filter_keeps_unique_ids(old(self).entries(), pred);
        }
    }
}

/// Keeps exactly the pending senders younger than the timeout.
pub open spec fn fresh_at(now: u64) -> spec_fn((Seq<char>, u64, u64)) -> bool {
    |e: (Seq<char>, u64, u64)| e.2 + PENDING_TIMEOUT_SECS > now
}

/// Filtering a registry with pairwise-distinct identifiers leaves the
/// identifiers pairwise distinct.
proof fn lemma_filter_keeps_unique_ids(
    s: Seq<(Seq<char>, u64, u64)>,
    pred: spec_fn((Seq<char>, u64, u64)) -> bool,
)
    requires
        forall|i: int, j: int| 0 <= i < j < s.len() ==> (#[trigger] s[i]).0 != (#[trigger] s[j]).0,
    ensures
        forall|i: int|
            0 <= i < s.filter(pred).len() ==> s.contains(#[trigger] s.filter(pred)[i]),
        forall|i: int, j: int|
            0 <= i < j < s.filter(pred).len() ==> (#[trigger] s.filter(pred)[i]).0 != (
            #[trigger] s.filter(pred)[j]).0,
    decreases s.len(),
{
    reveal(Seq::filter);
    if s.len() > 0 {
        let head = s.drop_last();
        lemma_filter_keeps_unique_ids(head, pred);
        let f = head.filter(pred);
        assert forall|i: int| 0 <= i < f.len() implies s.contains(f[i]) by {
            assert(head.contains(f[i]));
            let w = choose|w: int| 0 <= w < head.len() && head[w] == f[i];
            assert(s[w] == f[i]);
        }
        if pred(s.last()) {
            assert(s.filter(pred) == f.push(s.last()));
            assert forall|i: int, j: int|
                0 <= i < j < s.filter(pred).len() implies (#[trigger] s.filter(pred)[i]).0 != (
            #[trigger] s.filter(pred)[j]).0 by {
                if j < f.len() {
                } else {
                    assert(s.filter(pred)[j] == s.last());
                    assert(head.contains(f[i]));
                    let w = choose|w: int| 0 <= w < head.len() && head[w] == f[i];
                    assert(s[w] == f[i] && w < s.len() - 1);
                    assert(s[w].0 != s[s.len() - 1].0);
                }
            }
        } else {
            assert(s.filter(pred) == f);
        }
        assert forall|i: int| 0 <= i < s.filter(pred).len() implies s.contains(
            #[trigger] s.filter(pred)[i],
        ) by {
            if pred(s.last()) && i == s.filter(pred).len() - 1 {
                assert(s.filter(pred)[i] == s.last());
                assert(s[s.len() - 1] == s.last());
            } else {
                assert(s.filter(pred)[i] == f[i]);
                assert(s.contains(f[i]));
            }
        }
    }
}

} // verus!
