//! The acquisition protocol: how one caller obtains a lease on a context.
//!
//! Acquisition interleaves decisions with outside work — probing the process,
//! probing a candidate context, running a recreation cycle. The caller owns
//! the outside work; every decision lives here, in one verified step
//! function. The caller holds an [`AcquireFlow`], performs the
//! [`AcquireAction`] the last step asked for, and reports the outcome as the
//! next [`AcquireEvent`], until the step grants a lease or fails.

use vstd::prelude::*;

use crate::pool::{same_except_idle, Context, ContextPool, Lease};

verus! {

/// An outcome of outside work, reported back to the step function.
#[derive(Clone, Copy, PartialEq, Eq, Structural, Debug)]
pub enum AcquireEvent {
    /// Acquisition begins; the caller already holds a permit.
    Start,
    /// Result of the liveness probe on the current process.
    BrowserProbe(bool),
    /// A recreation cycle was run; whether it completed successfully.
    Recreated(bool),
    /// Result of the liveness probe on the candidate context.
    ContextProbe(bool),
}

/// Where the protocol stands between two steps.
#[derive(Clone, Copy, PartialEq, Eq, Structural, Debug)]
pub enum AcquirePhase {
    /// Nothing has happened yet.
    Begin,
    /// Waiting for the process liveness probe.
    AwaitBrowserProbe,
    /// Waiting for the recreation triggered by a dead or missing process.
    AwaitBrowserRecreate,
    /// Waiting for the recreation triggered by an empty idle collection.
    AwaitEmptyRecreate,
    /// Waiting for the liveness probe on the candidate context.
    AwaitContextProbe,
    /// Waiting for the recreation triggered by an invalid candidate.
    AwaitInvalidRecreate,
    /// Waiting for the liveness probe on the candidate popped after that
    /// recreation — the last chance before the pool counts as exhausted.
    AwaitFinalContextProbe,
    /// The protocol has granted a lease or failed.
    Done,
}

/// The protocol state a caller carries between steps.
#[derive(Clone, Copy, PartialEq, Eq, Debug)]
pub struct AcquireFlow {
    pub phase: AcquirePhase,
    /// The popped context awaiting its liveness probe, in the phases
    /// `AwaitContextProbe` and `AwaitFinalContextProbe` and nowhere else.
    pub candidate: Option<Context>,
}

/// How an acquisition ends when no lease can be granted.
#[derive(Clone, Copy, PartialEq, Eq, Structural, Debug)]
pub enum AcquireFailure {
    /// A recreation cycle it depended on failed.
    Recreation,
    /// No context was available despite a held permit, even after a
    /// recreation: an internal invariant violation.
    Underflow,
    /// Recreation could not produce a valid context.
    Exhausted,
}

/// What the caller must do next.
#[derive(PartialEq, Eq, Debug)]
pub enum AcquireAction {
    /// Probe the current process for liveness and report `BrowserProbe`.
    ProbeBrowser,
    /// Run one recreation cycle and report `Recreated`.
    Recreate,
    /// Probe the context with this identifier and report `ContextProbe`.
    ProbeContext(u64),
    /// Done: the lease is granted.
    Grant(Lease),
    /// Done: acquisition failed.
    Fail(AcquireFailure),
}

/// The flow every acquisition starts from.
pub open spec fn initial_flow() -> AcquireFlow {
    AcquireFlow { phase: AcquirePhase::Begin, candidate: None }
}

/// The flow after the protocol has finished.
pub open spec fn done_flow() -> AcquireFlow {
    AcquireFlow { phase: AcquirePhase::Done, candidate: None }
}

/// Builds the flow an acquisition starts from.
pub fn start_flow() -> (f: AcquireFlow)
    ensures
        f == initial_flow(),
{
    AcquireFlow { phase: AcquirePhase::Begin, candidate: None }
}

/// Which event each phase is waiting for.
pub open spec fn step_expects(phase: AcquirePhase, ev: AcquireEvent) -> bool {
    match (phase, ev) {
        (AcquirePhase::Begin, AcquireEvent::Start) => true,
        (AcquirePhase::AwaitBrowserProbe, AcquireEvent::BrowserProbe(_)) => true,
        (AcquirePhase::AwaitBrowserRecreate, AcquireEvent::Recreated(_)) => true,
        (AcquirePhase::AwaitEmptyRecreate, AcquireEvent::Recreated(_)) => true,
        (AcquirePhase::AwaitContextProbe, AcquireEvent::ContextProbe(_)) => true,
        (AcquirePhase::AwaitInvalidRecreate, AcquireEvent::Recreated(_)) => true,
        (AcquirePhase::AwaitFinalContextProbe, AcquireEvent::ContextProbe(_)) => true,
        _ => false,
    }
}

/// Flow well-formedness against the pool it drives: a candidate exists
/// exactly in the probing phases, and always belongs to the current
/// generation.
pub open spec fn flow_wf(flow: AcquireFlow, pool: ContextPool) -> bool {
    &&& (flow.candidate matches Some(c) ==> c.generation == pool.generation)
    &&& ((flow.phase is AwaitContextProbe || flow.phase is AwaitFinalContextProbe)
        <==> flow.candidate is Some)
}

/// The pool did not change at all, seen through its view.
pub open spec fn pool_same(pre: ContextPool, post: ContextPool) -> bool {
    &&& post.idle@ == pre.idle@
    &&& same_except_idle(pre, post)
}

/// The protocol finished with the given failure.
pub open spec fn fail_outcome(
    flow2: AcquireFlow,
    action: AcquireAction,
    failure: AcquireFailure,
) -> bool {
    &&& flow2 == done_flow()
    &&& action == AcquireAction::Fail(failure)
}

/// The common "pop a context and ask for its probe" move: with an idle
/// context available, it is popped and becomes the candidate; with none, a
/// recreation for the empty collection is requested.
pub open spec fn pop_to_probe_rel(
    pre: ContextPool,
    post: ContextPool,
    flow2: AcquireFlow,
    action: AcquireAction,
) -> bool {
    if pre.idle@.len() > 0 {
        &&& post.idle@ == pre.idle@.drop_last()
        &&& same_except_idle(pre, post)
        &&& flow2 == (AcquireFlow {
            phase: AcquirePhase::AwaitContextProbe,
            candidate: Some(pre.idle@.last()),
        })
        &&& action == AcquireAction::ProbeContext(pre.idle@.last().id)
    } else {
        &&& pool_same(pre, post)
        &&& flow2 == (AcquireFlow { phase: AcquirePhase::AwaitEmptyRecreate, candidate: None })
        &&& action == AcquireAction::Recreate
    }
}

/// Exactly what one acquisition step does, for every phase and event it
/// accepts: which contexts are popped, what the caller is asked to do next,
/// and how the protocol ends.
pub open spec fn acquire_step_rel(
    pre: ContextPool,
    flow: AcquireFlow,
    ev: AcquireEvent,
    post: ContextPool,
    flow2: AcquireFlow,
    action: AcquireAction,
) -> bool {
    match (flow.phase, ev) {
        (AcquirePhase::Begin, AcquireEvent::Start) => {
            &&& pool_same(pre, post)
            &&& if pre.supervisor.current is None {
                flow2 == (AcquireFlow { phase: AcquirePhase::AwaitBrowserRecreate, candidate: None })
                    && action == AcquireAction::Recreate
            } else {
                flow2 == (AcquireFlow { phase: AcquirePhase::AwaitBrowserProbe, candidate: None })
                    && action == AcquireAction::ProbeBrowser
            }
        },
        (AcquirePhase::AwaitBrowserProbe, AcquireEvent::BrowserProbe(alive)) => {
            if alive {
                pop_to_probe_rel(pre, post, flow2, action)
            } else {
                &&& pool_same(pre, post)
                &&& flow2 == (AcquireFlow {
                    phase: AcquirePhase::AwaitBrowserRecreate,
                    candidate: None,
                })
                &&& action == AcquireAction::Recreate
            }
        },
        (AcquirePhase::AwaitBrowserRecreate, AcquireEvent::Recreated(ok)) => {
            if ok {
                pop_to_probe_rel(pre, post, flow2, action)
            } else {
                pool_same(pre, post) && fail_outcome(flow2, action, AcquireFailure::Recreation)
            }
        },
        (AcquirePhase::AwaitEmptyRecreate, AcquireEvent::Recreated(ok)) => {
            if !ok {
                pool_same(pre, post) && fail_outcome(flow2, action, AcquireFailure::Recreation)
            } else if pre.idle@.len() > 0 {
                &&& post.idle@ == pre.idle@.drop_last()
                &&& same_except_idle(pre, post)
                &&& flow2 == (AcquireFlow {
                    phase: AcquirePhase::AwaitContextProbe,
                    candidate: Some(pre.idle@.last()),
                })
                &&& action == AcquireAction::ProbeContext(pre.idle@.last().id)
            } else {
                pool_same(pre, post) && fail_outcome(flow2, action, AcquireFailure::Underflow)
            }
        },
        (AcquirePhase::AwaitContextProbe, AcquireEvent::ContextProbe(valid)) => {
            match flow.candidate {
                Some(c) => {
                    &&& pool_same(pre, post)
                    &&& if valid {
                        flow2 == done_flow() && action == (AcquireAction::Grant(
                            Lease { context: c },
                        ))
                    } else {
                        flow2 == (AcquireFlow {
                            phase: AcquirePhase::AwaitInvalidRecreate,
                            candidate: None,
                        }) && action == AcquireAction::Recreate
                    }
                },
                None => false,
            }
        },
        (AcquirePhase::AwaitInvalidRecreate, AcquireEvent::Recreated(ok)) => {
            if !ok {
                pool_same(pre, post) && fail_outcome(flow2, action, AcquireFailure::Recreation)
            } else if pre.idle@.len() > 0 {
                &&& post.idle@ == pre.idle@.drop_last()
                &&& same_except_idle(pre, post)
                &&& flow2 == (AcquireFlow {
                    phase: AcquirePhase::AwaitFinalContextProbe,
                    candidate: Some(pre.idle@.last()),
                })
                &&& action == AcquireAction::ProbeContext(pre.idle@.last().id)
            } else {
                pool_same(pre, post) && fail_outcome(flow2, action, AcquireFailure::Exhausted)
            }
        },
        (AcquirePhase::AwaitFinalContextProbe, AcquireEvent::ContextProbe(valid)) => {
            match flow.candidate {
                Some(c) => {
                    &&& pool_same(pre, post)
                    &&& if valid {
                        flow2 == done_flow() && action == (AcquireAction::Grant(
                            Lease { context: c },
                        ))
                    } else {
                        fail_outcome(flow2, action, AcquireFailure::Exhausted)
                    }
                },
                None => false,
            }
        },
        _ => false,
    }
}

impl ContextPool {
    /// Pops an idle context toward its liveness probe, or asks for a
    /// recreation when the collection is unexpectedly empty.
    fn pop_toward_probe(&mut self) -> (r: (AcquireFlow, AcquireAction))
        requires
            old(self).wf(),
        ensures
            pop_to_probe_rel(*old(self), *final(self), r.0, r.1),
            final(self).wf(),
            flow_wf(r.0, *final(self)),
    {
        match self.idle.pop() {
            Some(c) => (
                AcquireFlow { phase: AcquirePhase::AwaitContextProbe, candidate: Some(c) },
                AcquireAction::ProbeContext(c.id),
            ),
            None => (
                AcquireFlow { phase: AcquirePhase::AwaitEmptyRecreate, candidate: None },
                AcquireAction::Recreate,
            ),
        }
    }

    /// One step of the acquisition protocol: consumes the event the caller
    /// observed and decides what happens next. The caller performs the
    /// returned action and reports its outcome to the next step. A lease is
    /// granted only to the candidate whose liveness probe just succeeded,
    /// and always carries a context of the pool's current generation.
    pub fn acquire_step(&mut self, flow: AcquireFlow, ev: AcquireEvent) -> (r: (
        AcquireFlow,
        AcquireAction,
    ))
        requires
            old(self).wf(),
            flow_wf(flow, *old(self)),
            step_expects(flow.phase, ev),
        ensures
            acquire_step_rel(*old(self), flow, ev, *final(self), r.0, r.1),
            final(self).wf(),
            flow_wf(r.0, *final(self)),
            r.1 matches AcquireAction::Grant(l) ==> l.context.generation == final(self).generation,
            r.1 matches AcquireAction::Grant(l) ==> ev == AcquireEvent::ContextProbe(true)
                && flow.candidate == Some(l.context),
    {
        match (flow.phase, ev) {
            (AcquirePhase::Begin, AcquireEvent::Start) => {
                match self.supervisor.current {
                    None => (
                        AcquireFlow { phase: AcquirePhase::AwaitBrowserRecreate, candidate: None },
                        AcquireAction::Recreate,
                    ),
                    Some(_) => (
                        AcquireFlow { phase: AcquirePhase::AwaitBrowserProbe, candidate: None },
                        AcquireAction::ProbeBrowser,
                    ),
                }
            },
            (AcquirePhase::AwaitBrowserProbe, AcquireEvent::BrowserProbe(alive)) => {
                if alive {
                    self.pop_toward_probe()
                } else {
                    (
                        AcquireFlow { phase: AcquirePhase::AwaitBrowserRecreate, candidate: None },
                        AcquireAction::Recreate,
                    )
                }
            },
            (AcquirePhase::AwaitBrowserRecreate, AcquireEvent::Recreated(ok)) => {
                if ok {
                    self.pop_toward_probe()
                } else {
                    (
                        AcquireFlow { phase: AcquirePhase::Done, candidate: None },
                        AcquireAction::Fail(AcquireFailure::Recreation),
                    )
                }
            },
            (AcquirePhase::AwaitEmptyRecreate, AcquireEvent::Recreated(ok)) => {
                if !ok {
                    (
                        AcquireFlow { phase: AcquirePhase::Done, candidate: None },
                        AcquireAction::Fail(AcquireFailure::Recreation),
                    )
                } else {
                    match self.idle.pop() {
                        Some(c) => (
                            AcquireFlow {
                                phase: AcquirePhase::AwaitContextProbe,
                                candidate: Some(c),
                            },
                            AcquireAction::ProbeContext(c.id),
                        ),
                        None => (
                            AcquireFlow { phase: AcquirePhase::Done, candidate: None },
                            AcquireAction::Fail(AcquireFailure::Underflow),
                        ),
                    }
                }
            },
            (AcquirePhase::AwaitContextProbe, AcquireEvent::ContextProbe(valid)) => {
                match flow.candidate {
                    Some(c) => {
                        if valid {
                            (
                                AcquireFlow { phase: AcquirePhase::Done, candidate: None },
                                AcquireAction::Grant(Lease { context: c }),
                            )
                        } else {
                            (
                                AcquireFlow {
                                    phase: AcquirePhase::AwaitInvalidRecreate,
                                    candidate: None,
                                },
                                AcquireAction::Recreate,
                            )
                        }
                    },
                    None => {
                        // Excluded by flow well-formedness: the probing
                        // phase always carries a candidate.
                        proof {
                            assert(false);
                        }
                        (flow, AcquireAction::Recreate)
                    },
                }
            },
            (AcquirePhase::AwaitInvalidRecreate, AcquireEvent::Recreated(ok)) => {
                if !ok {
                    (
                        AcquireFlow { phase: AcquirePhase::Done, candidate: None },
                        AcquireAction::Fail(AcquireFailure::Recreation),
                    )
                } else {
                    match self.idle.pop() {
                        Some(c) => (
                            AcquireFlow {
                                phase: AcquirePhase::AwaitFinalContextProbe,
                                candidate: Some(c),
                            },
                            AcquireAction::ProbeContext(c.id),
                        ),
                        None => (
                            AcquireFlow { phase: AcquirePhase::Done, candidate: None },
                            AcquireAction::Fail(AcquireFailure::Exhausted),
                        ),
                    }
                }
            },
            (AcquirePhase::AwaitFinalContextProbe, AcquireEvent::ContextProbe(valid)) => {
                match flow.candidate {
                    Some(c) => {
                        if valid {
                            (
                                AcquireFlow { phase: AcquirePhase::Done, candidate: None },
                                AcquireAction::Grant(Lease { context: c }),
                            )
                        } else {
                            (
                                AcquireFlow { phase: AcquirePhase::Done, candidate: None },
                                AcquireAction::Fail(AcquireFailure::Exhausted),
                            )
                        }
                    },
                    None => {
                        // Excluded by flow well-formedness: the probing
                        // phase always carries a candidate.
                        proof {
                            assert(false);
                        }
                        (flow, AcquireAction::Recreate)
                    },
                }
            },
            _ => {
                // Excluded by the precondition: every phase accepts exactly
                // one kind of event.
                proof {
                    assert(false);
                }
                (flow, AcquireAction::Recreate)
            },
        }
    }
}

} // verus!
