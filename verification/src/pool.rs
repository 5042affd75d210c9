//! The bounded context pool: a fixed-capacity, self-healing supply of
//! rendering contexts ("tabs") bound to the current process generation.
//!
//! The pool here is the decision core. Waiting on the real admission-control
//! primitive, probing a real context and rebuilding real tabs are outside
//! work; the caller performs them and reports each outcome as a plain value.
//! Permit accounting, the choice of context, recreation deduplication and the
//! disposition of a returned context are all decided and verified here.

use vstd::prelude::*;

use crate::supervisor::ProcessSupervisor;

verus! {

/// One reusable rendering context. The identifier names the real tab the
/// caller keeps beside the pool; the generation records which recreation
/// cycle produced the context, so that survivors of an abandoned cycle are
/// recognised and discarded instead of re-entering the pool.
#[derive(Clone, Copy, PartialEq, Eq, Structural, Debug)]
pub struct Context {
    pub id: u64,
    pub generation: u64,
}

/// A handle to one checked-out context. Exactly one lease exists per granted
/// context, and giving the lease back through [`ContextPool::release`]
/// consumes it, so a context can never be both returned and kept.
#[derive(PartialEq, Eq, Debug)]
pub struct Lease {
    pub context: Context,
}

/// The bounded pool of idle contexts, together with the admission-control
/// permit count and the single recreation-in-progress flag.
#[derive(PartialEq, Eq, Debug)]
pub struct ContextPool {
    /// Decision state for the one external process everything is bound to.
    pub supervisor: ProcessSupervisor,
    /// Fixed at construction; bounds both idle contexts and leases.
    pub capacity: usize,
    /// Contexts currently available for leasing, oldest first.
    pub idle: Vec<Context>,
    /// Permits not currently held by a lease; `capacity` minus the number of
    /// outstanding leases.
    pub available_permits: usize,
    /// The recreation-in-progress flag: set while one caller rebuilds.
    pub recreating: bool,
    /// The pool generation, advanced by every completed recreation.
    pub generation: u64,
    /// The identifier the next freshly built context will receive.
    pub next_context_id: u64,
}

impl ContextPool {
    /// Pool well-formedness: no more permits than capacity, and every idle
    /// context belongs to the current generation.
    pub open spec fn wf(self) -> bool {
        &&& self.available_permits <= self.capacity
        &&& forall|i: int|
            0 <= i < self.idle@.len() ==> (#[trigger] self.idle@[i]).generation == self.generation
        &&& self.supervisor.wf()
    }

    /// The number of leases currently outstanding.
    pub open spec fn outstanding(self) -> int {
        self.capacity - self.available_permits
    }

    /// A fresh pool, eagerly populated with `capacity` contexts bound to a
    /// process the caller has just launched, whose identifier is `pid`. All
    /// permits are available and no recreation is in progress.
    pub fn new(capacity: usize, pid: u64) -> (p: Self)
        ensures
            p.wf(),
            p.capacity == capacity,
            p.available_permits == capacity,
            p.recreating == false,
            p.generation == 0,
            p.next_context_id == capacity,
            p.idle@.len() == capacity,
            forall|i: int|
                0 <= i < capacity ==> #[trigger] p.idle@[i] == (Context {
                    id: i as u64,
                    generation: 0,
                }),
            p.supervisor.next_generation == 1,
            p.supervisor.current matches Some(h) && h.pid == pid && h.generation == 0,
    {
        let mut supervisor = ProcessSupervisor::new();
        supervisor.install_launched(pid);
        let mut idle: Vec<Context> = Vec::new();
        let mut k: usize = 0;
        while k < capacity
            invariant
                k <= capacity,
                idle@.len() == k,
                forall|i: int|
                    0 <= i < k ==> #[trigger] idle@[i] == (Context { id: i as u64, generation: 0 }),
            decreases capacity - k,
        {
            idle.push(Context { id: k as u64, generation: 0 });
            k = k + 1;
        }
        ContextPool {
            supervisor,
            capacity,
            idle,
            available_permits: capacity,
            recreating: false,
            generation: 0,
            next_context_id: capacity as u64,
        }
    }

    /// Takes one admission permit if any is free. A denial is the model's
    /// image of the real primitive suspending the caller: it happens exactly
    /// when all `capacity` permits are held by outstanding leases.
    pub fn take_permit(&mut self) -> (granted: bool)
        ensures
            take_permit_rel(*old(self), *final(self), granted),
            old(self).wf() ==> final(self).wf(),
    {
        if self.available_permits > 0 {
            self.available_permits = self.available_permits - 1;
            true
        } else {
            false
        }
    }

    /// Atomically test-and-set the recreation flag. The caller that sees
    /// `true` is the single rebuilder; everyone else sees `false` and must
    /// treat the request as a successful no-op.
    pub fn begin_recreation(&mut self) -> (winner: bool)
        ensures
            begin_recreation_rel(*old(self), *final(self), winner),
            old(self).wf() ==> final(self).wf(),
    {
        if self.recreating {
            false
        } else {
            self.recreating = true;
            true
        }
    }

    /// Clears the recreation flag without rebuilding: the failure path of a
    /// recreation cycle. Clearing unconditionally on every exit keeps a
    /// failed cycle from wedging the pool forever.
    pub fn abort_recreation(&mut self)
        ensures
            final(self).recreating == false,
            *final(self) == (ContextPool { recreating: false, ..*old(self) }),
            old(self).wf() ==> final(self).wf(),
    {
        self.recreating = false;
    }

    /// Completes a recreation cycle: advances the pool generation, replaces
    /// the idle collection wholesale with `capacity` freshly built contexts
    /// of the new generation, and clears the flag. Contexts still leased from
    /// the prior generation are abandoned; `release` will recognise and
    /// discard them.
    pub fn finish_recreation(&mut self)
        requires
            old(self).recreating,
            old(self).generation < u64::MAX,
            old(self).next_context_id + old(self).capacity <= u64::MAX,
        ensures
            finish_recreation_rel(*old(self), *final(self)),
            old(self).wf() ==> final(self).wf(),
    {
        self.generation = self.generation + 1;
        self.idle = Vec::new();
        let first_id = self.next_context_id;
        let mut k: usize = 0;
        while k < self.capacity
            invariant
                k <= self.capacity,
                self.idle@.len() == k,
                first_id == old(self).next_context_id,
                first_id + self.capacity <= u64::MAX,
                self.supervisor == old(self).supervisor,
                self.capacity == old(self).capacity,
                self.available_permits == old(self).available_permits,
                self.recreating == old(self).recreating,
                self.generation == old(self).generation + 1,
                self.next_context_id == old(self).next_context_id,
                forall|i: int|
                    0 <= i < k ==> #[trigger] self.idle@[i] == (Context {
                        id: (first_id + i) as u64,
                        generation: self.generation,
                    }),
            decreases self.capacity - k,
        {
            let c = Context { id: first_id + k as u64, generation: self.generation };
            self.idle.push(c);
            k = k + 1;
        }
        self.next_context_id = first_id + self.capacity as u64;
        self.recreating = false;
    }

    /// Pops the most recently added idle context, if any.
    pub fn pop_idle(&mut self) -> (c: Option<Context>)
        ensures
            old(self).idle@.len() > 0 ==> c == Some(old(self).idle@.last()) && final(self).idle@
                == old(self).idle@.drop_last() && same_except_idle(*old(self), *final(self)),
            old(self).idle@.len() == 0 ==> c is None && final(self).idle@ == old(self).idle@
                && same_except_idle(*old(self), *final(self)),
            old(self).wf() ==> final(self).wf(),
    {
        self.idle.pop()
    }

    /// Gives back the permit of an acquisition that failed before any lease
    /// existed: the permit count rises by one and nothing else changes. An
    /// abandoned lease request must still release its permit.
    pub fn release_permit(&mut self)
        requires
            old(self).available_permits < old(self).capacity,
        ensures
            *final(self) == (ContextPool {
                available_permits: (old(self).available_permits + 1) as usize,
                ..*old(self)
            }),
            old(self).wf() ==> final(self).wf(),
    {
        self.available_permits = self.available_permits + 1;
    }

    /// Gives a lease back: the permit is released unconditionally, and the
    /// context returns to the idle collection exactly when the caller's
    /// liveness probe succeeded and the context still belongs to the current
    /// generation; otherwise it is discarded for good.
    pub fn release(&mut self, lease: Lease, probe_valid: bool)
        requires
            old(self).available_permits < old(self).capacity,
        ensures
            release_rel(*old(self), *final(self), lease.context, probe_valid),
            old(self).wf() ==> final(self).wf(),
    {
        self.available_permits = self.available_permits + 1;
        let Lease { context } = lease;
        if probe_valid && context.generation == self.generation {
            self.idle.push(context);
        }
    }
}

/// Everything but the idle collection agrees between the two states.
pub open spec fn same_except_idle(pre: ContextPool, post: ContextPool) -> bool {
    &&& post.supervisor == pre.supervisor
    &&& post.capacity == pre.capacity
    &&& post.available_permits == pre.available_permits
    &&& post.recreating == pre.recreating
    &&& post.generation == pre.generation
    &&& post.next_context_id == pre.next_context_id
}

/// Exactly what one `take_permit` call does: one permit is consumed when one
/// is free — equivalently, when fewer than `capacity` leases are outstanding
/// — and nothing changes on denial.
pub open spec fn take_permit_rel(pre: ContextPool, post: ContextPool, granted: bool) -> bool {
    &&& granted == (pre.available_permits > 0)
    &&& granted ==> post == (ContextPool {
        available_permits: (pre.available_permits - 1) as usize,
        ..pre
    })
    &&& !granted ==> post == pre
}

/// Exactly what one `begin_recreation` call does: the caller wins exactly
/// when the flag was clear, the flag is set afterwards either way, and
/// nothing else changes.
pub open spec fn begin_recreation_rel(pre: ContextPool, post: ContextPool, winner: bool) -> bool {
    &&& winner == !pre.recreating
    &&& post == (ContextPool { recreating: true, ..pre })
}

/// Exactly what one completed recreation cycle does: the generation
/// advances, the idle collection is replaced in one step by `capacity` fresh
/// contexts of the new generation, the flag is cleared, and permits — hence
/// outstanding leases — are untouched.
pub open spec fn finish_recreation_rel(pre: ContextPool, post: ContextPool) -> bool {
    &&& post.generation == pre.generation + 1
    &&& post.idle@.len() == pre.capacity
    &&& forall|i: int|
        0 <= i < pre.capacity ==> #[trigger] post.idle@[i] == (Context {
            id: (pre.next_context_id + i) as u64,
            generation: post.generation,
        })
    &&& post.next_context_id == pre.next_context_id + pre.capacity
    &&& post.recreating == false
    &&& post.supervisor == pre.supervisor
    &&& post.capacity == pre.capacity
    &&& post.available_permits == pre.available_permits
}

/// Exactly what one `release` call does: the permit always comes back, and
/// the context is either re-added to the idle collection (probe succeeded
/// and its generation is current) or dropped — never both, and never
/// anything else.
pub open spec fn release_rel(
    pre: ContextPool,
    post: ContextPool,
    context: Context,
    probe_valid: bool,
) -> bool {
    &&& post.available_permits == pre.available_permits + 1
    &&& (if probe_valid && context.generation == pre.generation {
        post.idle@ == pre.idle@.push(context)
    } else {
        post.idle@ == pre.idle@
    })
    &&& post.supervisor == pre.supervisor
    &&& post.capacity == pre.capacity
    &&& post.recreating == pre.recreating
    &&& post.generation == pre.generation
    &&& post.next_context_id == pre.next_context_id
}

} // verus!
