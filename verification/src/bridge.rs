//! The blocking/async execution bridge.
//!
//! A local engine connection is not safe for concurrent calls, so one
//! dedicated execution context owns it and drains a bounded work queue
//! sequentially; each submitted unit of work is answered over its own
//! completion channel. This module is that discipline, stated and
//! proved: work items are numbered in submission order, at most one is
//! ever in flight, a full queue pushes back instead of dropping work,
//! and items complete exactly in submission order. The crate's edge
//! runs the loop — performing each started item against the engine and
//! reporting completion back here.

use vstd::prelude::*;

verus! {

/// The in-flight item as a sequence: one element or none.
pub open spec fn opt_seq(o: Option<u64>) -> Seq<u64> {
    match o {
        Some(x) => seq![x],
        None => Seq::empty(),
    }
}

/// The serialization state of one bridge: the bounded queue of waiting
/// work ids, the id in flight (at most one, ever), and the ids already
/// completed, oldest first.
#[derive(Debug)]
pub struct Bridge {
    pub capacity: usize,
    pub next_id: u64,
    pub queued: Vec<u64>,
    pub running: Option<u64>,
    pub completed: Vec<u64>,
}

impl Bridge {
    /// Every id ever submitted is exactly once in completed-running-
    /// queued order, and that order is the submission order `0, 1, ...`.
    pub open spec fn wf(&self) -> bool {
        &&& self.capacity >= 1
        &&& self.completed@ + opt_seq(self.running) + self.queued@ == Seq::new(
            self.next_id as nat,
            |i: int| i as u64,
        )
    }

    /// A fresh bridge over a queue of the given bound.
    pub fn new(capacity: usize) -> (r: Bridge)
        requires
            capacity >= 1,
        ensures
            r.wf(),
            r.capacity == capacity,
            r.next_id == 0,
            r.queued@ == Seq::<u64>::empty(),
            r.running is None,
            r.completed@ == Seq::<u64>::empty(),
    {
        let r = Bridge {
            capacity,
            next_id: 0,
            queued: Vec::new(),
            running: None,
            completed: Vec::new(),
        };
        proof {
            assert(r.completed@ + opt_seq(r.running) + r.queued@ =~= Seq::new(
                0nat,
                |i: int| i as u64,
            ));
        }
        r
    }

    /// Submits one unit of work: it is queued and numbered in
    /// submission order. A full queue is backpressure — the caller gets
    /// `None` and nothing is lost or overwritten.
    pub fn try_submit(&mut self) -> (r: Option<u64>)
        requires
            old(self).wf(),
        ensures
            final(self).wf(),
            r is Some <==> old(self).queued@.len() < old(self).capacity && old(self).next_id
                < u64::MAX,
            r matches Some(id) ==> {
                &&& id == old(self).next_id
                &&& final(self).queued@ == old(self).queued@.push(id)
                &&& final(self).next_id == old(self).next_id + 1
                &&& final(self).running == old(self).running
                &&& final(self).completed == old(self).completed
                &&& final(self).capacity == old(self).capacity
            },
            r is None ==> *final(self) == *old(self),
    {
        if self.queued.len() >= self.capacity || self.next_id == u64::MAX {
            return None;
        }
        let id = self.next_id;
        self.queued.push(id);
        self.next_id = self.next_id + 1;
        proof {
            assert(self.completed@ + opt_seq(self.running) + self.queued@ =~= (old(self).completed@
                + opt_seq(old(self).running) + old(self).queued@).push(id));
            assert((old(self).completed@ + opt_seq(old(self).running) + old(self).queued@).push(id)
                =~= Seq::new(self.next_id as nat, |i: int| i as u64));
        }
        Some(id)
    }

    /// Moves the oldest queued item into flight. Work starts only when
    /// nothing else is in flight: with an item running, or an empty
    /// queue, nothing happens.
    pub fn start_next(&mut self) -> (r: Option<u64>)
        requires
            old(self).wf(),
        ensures
            final(self).wf(),
            r is Some <==> old(self).running is None && old(self).queued@.len() > 0,
            r matches Some(id) ==> {
                &&& id == old(self).queued@[0]
                &&& final(self).running == Some(id)
                &&& final(self).queued@ == old(self).queued@.drop_first()
                &&& final(self).completed == old(self).completed
                &&& final(self).next_id == old(self).next_id
                &&& final(self).capacity == old(self).capacity
            },
            r is None ==> *final(self) == *old(self),
    {
        match self.running {
            Some(_) => None,
            None => {
                if self.queued.len() == 0 {
                    return None;
                }
                let id = self.queued.remove(0);
                self.running = Some(id);
                proof {
                    assert(self.completed@ + opt_seq(self.running) + self.queued@ =~= old(
                        self,
                    ).completed@ + opt_seq(old(self).running) + old(self).queued@);
                }
                Some(id)
            },
        }
    }

    /// Records that the item in flight ran to completion. Items are
    /// never abandoned mid-run: completion is the only way out of the
    /// in-flight slot.
    pub fn finish(&mut self) -> (r: Option<u64>)
        requires
            old(self).wf(),
        ensures
            final(self).wf(),
            r == old(self).running,
            r matches Some(id) ==> {
                &&& final(self).completed@ == old(self).completed@.push(id)
                &&& final(self).running is None
                &&& final(self).queued == old(self).queued
                &&& final(self).next_id == old(self).next_id
                &&& final(self).capacity == old(self).capacity
            },
            r is None ==> *final(self) == *old(self),
    {
        match self.running {
            Some(id) => {
                self.completed.push(id);
                self.running = None;
                proof {
                    assert(self.completed@ + opt_seq(self.running) + self.queued@ =~= old(
                        self,
                    ).completed@ + opt_seq(old(self).running) + old(self).queued@);
                }
                Some(id)
            },
            None => None,
        }
    }

    /// How many items have completed.
    pub fn completed_len(&self) -> (r: usize)
        ensures
            r == self.completed@.len(),
    {
        self.completed.len()
    }
}

/// Bridge mutual exclusion and ordering: in every reachable bridge
/// state, at most one item is in flight (the in-flight slot holds at
/// most one id), and the items completed so far are exactly the first
/// ids in submission order — work items complete in submission order,
/// with no reordering and no overlap.
pub proof fn lemma_bridge_serializes(b: Bridge)
    requires
        b.wf(),
    ensures
        opt_seq(b.running).len() <= 1,
        b.completed@.len() + opt_seq(b.running).len() + b.queued@.len() == b.next_id,
        forall|k: int| 0 <= k < b.completed@.len() ==> #[trigger] b.completed@[k] == k as u64,
        b.running matches Some(id) ==> id == b.completed@.len() as u64,
{
    let all = b.completed@ + opt_seq(b.running) + b.queued@;
    assert(all.len() == b.next_id);
    assert forall|k: int| 0 <= k < b.completed@.len() implies #[trigger] b.completed@[k]
        == k as u64 by {
        assert(all[k] == b.completed@[k]);
        assert(all[k] == Seq::new(b.next_id as nat, |i: int| i as u64)[k]);
    }
    if b.running is Some {
        let n = b.completed@.len() as int;
        assert(all[n] == opt_seq(b.running)[0]);
        assert(all[n] == Seq::new(b.next_id as nat, |i: int| i as u64)[n]);
    }
}

} // verus!
