//! The pool-wide guarantees, stated over the transition relations that the
//! executable operations are proved to satisfy.

use vstd::prelude::*;

use crate::acquire::{acquire_step_rel, flow_wf, AcquireAction, AcquireEvent, AcquireFlow};
use crate::pool::{begin_recreation_rel, finish_recreation_rel, release_rel, take_permit_rel,
    Context, ContextPool};

verus! {

/// Admission control bounds concurrency: a well-formed pool never has more
/// than `capacity` leases outstanding, and a permit is granted exactly when
/// fewer than `capacity` are outstanding — the next concurrent request past
/// the bound is denied and its caller suspends until a release.
pub proof fn lemma_admission_bound(pre: ContextPool, post: ContextPool, granted: bool)
    requires
        pre.wf(),
        take_permit_rel(pre, post, granted),
    ensures
        0 <= pre.outstanding() <= pre.capacity,
        granted <==> pre.outstanding() < pre.capacity,
        granted ==> post.outstanding() == pre.outstanding() + 1,
        !granted ==> post.outstanding() == pre.outstanding(),
{
}

/// A denied caller waits only for a release: after any release, the permit
/// request that was denied at the bound succeeds.
pub proof fn lemma_denied_caller_unblocked_by_release(
    p0: ContextPool,
    p1: ContextPool,
    p2: ContextPool,
    p3: ContextPool,
    context: Context,
    probe_valid: bool,
    granted: bool,
)
    requires
        take_permit_rel(p0, p1, false),
        release_rel(p1, p2, context, probe_valid),
        take_permit_rel(p2, p3, granted),
    ensures
        granted,
{
}

/// No acquisition step touches the permit count, the recreation flag, the
/// generation, or the capacity: acquisition only consumes idle contexts.
pub proof fn lemma_acquire_step_frame(
    pre: ContextPool,
    flow: AcquireFlow,
    ev: AcquireEvent,
    post: ContextPool,
    flow2: AcquireFlow,
    action: AcquireAction,
)
    requires
        acquire_step_rel(pre, flow, ev, post, flow2, action),
    ensures
        post.available_permits == pre.available_permits,
        post.recreating == pre.recreating,
        post.generation == pre.generation,
        post.capacity == pre.capacity,
        post.supervisor == pre.supervisor,
{
}

/// The permit taken at the start of an acquisition comes back at release:
/// since acquisition steps leave the permit count alone, one successful take
/// and the eventual release cancel out exactly.
pub proof fn lemma_permit_round_trip(
    p0: ContextPool,
    p1: ContextPool,
    p2: ContextPool,
    p3: ContextPool,
    context: Context,
    probe_valid: bool,
)
    requires
        take_permit_rel(p0, p1, true),
        p2.available_permits == p1.available_permits,
        release_rel(p2, p3, context, probe_valid),
    ensures
        p3.available_permits == p0.available_permits,
{
}

/// A released context is disposed of exactly one way: it reappears in the
/// idle collection when its liveness probe succeeded and it still belongs to
/// the current generation, and is discarded for good otherwise — never both,
/// while the permit comes back unconditionally.
pub proof fn lemma_release_disposition(
    pre: ContextPool,
    post: ContextPool,
    context: Context,
    probe_valid: bool,
)
    requires
        release_rel(pre, post, context, probe_valid),
    ensures
        post.available_permits == pre.available_permits + 1,
        probe_valid && context.generation == pre.generation ==> post.idle@ == pre.idle@.push(
            context,
        ),
        !(probe_valid && context.generation == pre.generation) ==> post.idle@ == pre.idle@,
        !(post.idle@ == pre.idle@.push(context) && post.idle@ == pre.idle@),
{
    assert(pre.idle@.push(context).len() != pre.idle@.len());
}

/// Concurrent recreation requests collapse into exactly one rebuild cycle:
/// of two requests racing on an idle pool, only the first becomes the
/// rebuilder and the second observes the flag and changes nothing; and the
/// one completed cycle leaves a consistent, fully populated pool — exactly
/// `capacity` idle contexts, every one of the fresh generation, flag clear.
pub proof fn lemma_single_rebuild(
    p0: ContextPool,
    p1: ContextPool,
    winner1: bool,
    p2: ContextPool,
    winner2: bool,
    p3: ContextPool,
)
    requires
        !p0.recreating,
        begin_recreation_rel(p0, p1, winner1),
        begin_recreation_rel(p1, p2, winner2),
        finish_recreation_rel(p2, p3),
    ensures
        winner1,
        !winner2,
        p2 == p1,
        p3.idle@.len() == p3.capacity,
        forall|i: int| 0 <= i < p3.idle@.len() ==> (#[trigger] p3.idle@[i]).generation
            == p3.generation,
        p3.generation == p0.generation + 1,
        !p3.recreating,
{
}

/// After the process is found dead, the acquisition that observed it first
/// triggers a recreation, and the recreation rebuilds at a strictly newer
/// generation; the context the acquisition then grants belongs to that new
/// generation, never to the dead process's.
pub proof fn lemma_dead_process_yields_fresh_context(
    p0: ContextPool,
    f0: AcquireFlow,
    p1: ContextPool,
    f1: AcquireFlow,
    a1: AcquireAction,
    p2: ContextPool,
    p3: ContextPool,
    p4: ContextPool,
    f4: AcquireFlow,
    a4: AcquireAction,
    p5: ContextPool,
    f5: AcquireFlow,
    a5: AcquireAction,
)
    requires
        p0.wf(),
        flow_wf(f0, p0),
        f0.phase is AwaitBrowserProbe,
        acquire_step_rel(p0, f0, AcquireEvent::BrowserProbe(false), p1, f1, a1),
        begin_recreation_rel(p1, p2, true),
        finish_recreation_rel(p2, p3),
        p3.capacity > 0,
        acquire_step_rel(p3, f1, AcquireEvent::Recreated(true), p4, f4, a4),
        acquire_step_rel(p4, f4, AcquireEvent::ContextProbe(true), p5, f5, a5),
    ensures
        a1 == AcquireAction::Recreate,
        p3.generation == p0.generation + 1,
        a5 matches AcquireAction::Grant(l) && l.context.generation == p3.generation
            && l.context.generation != p0.generation,
{
    assert(p3.idle@.len() == p3.capacity);
    assert(p3.idle@.last() == p3.idle@[p3.capacity - 1]);
    assert(p3.idle@[p3.capacity - 1].generation == p3.generation);
}

} // verus!
