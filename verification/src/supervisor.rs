//! The process supervisor: the single source of truth for whether a usable
//! rendering-engine process exists.
//!
//! The supervisor here is the decision core of process management. Launching,
//! probing and killing the real operating-system process are outside work; the
//! caller performs them and reports their outcomes (a liveness probe result,
//! the identifier of a freshly launched process) as plain values. Every
//! decision — reuse or relaunch, what to kill, when termination is a no-op —
//! is made and verified here.

use vstd::prelude::*;

verus! {

/// A handle to one launched process: its operating-system identifier and the
/// generation number the supervisor assigned at launch. Generations increase
/// strictly with every launch, so two processes from different launches never
/// share a generation even if the operating system reuses an identifier.
#[derive(Clone, Copy, PartialEq, Eq, Structural, Debug)]
pub struct ProcessHandle {
    pub pid: u64,
    pub generation: u64,
}

/// Owns the lifecycle of at most one rendering-engine process at a time.
#[derive(Clone, Copy, PartialEq, Eq, Structural, Debug)]
pub struct ProcessSupervisor {
    /// The process currently believed usable, if any.
    pub current: Option<ProcessHandle>,
    /// The generation number the next launch will receive.
    pub next_generation: u64,
}

impl ProcessSupervisor {
    /// Generations already handed out stay below the next one.
    pub open spec fn wf(self) -> bool {
        self.current matches Some(h) ==> h.generation < self.next_generation
    }

    /// A supervisor that has not launched anything yet.
    pub fn new() -> (s: Self)
        ensures
            s.current is None,
            s.next_generation == 0,
            s.wf(),
    {
        ProcessSupervisor { current: None, next_generation: 0 }
    }

    /// The reuse half of obtaining a process: given the result of a liveness
    /// probe on the current process, either hand the current process back, or
    /// discard the stale handle and report that a launch is needed. A probe
    /// failure is consumed here, never surfaced as an error.
    pub fn reuse_if_alive(&mut self, probe_alive: bool) -> (r: Option<ProcessHandle>)
        ensures
            old(self).current is Some && probe_alive ==> r == old(self).current
                && *final(self) == *old(self),
            !(old(self).current is Some && probe_alive) ==> r is None
                && final(self).current is None
                && final(self).next_generation == old(self).next_generation,
            old(self).wf() ==> final(self).wf(),
    {
        match self.current {
            Some(h) => {
                if probe_alive {
                    Some(h)
                } else {
                    self.current = None;
                    None
                }
            },
            None => None,
        }
    }

    /// Records a process the caller has just launched, assigning it a fresh
    /// generation. Only meaningful while no process is held, which is the
    /// state `reuse_if_alive` leaves behind when it asks for a launch.
    pub fn install_launched(&mut self, pid: u64) -> (h: ProcessHandle)
        requires
            old(self).current is None,
            old(self).next_generation < u64::MAX,
        ensures
            h.pid == pid,
            h.generation == old(self).next_generation,
            final(self).current == Some(h),
            final(self).next_generation == old(self).next_generation + 1,
            final(self).wf(),
    {
        let h = ProcessHandle { pid, generation: self.next_generation };
        self.current = Some(h);
        self.next_generation = self.next_generation + 1;
        h
    }

    /// Idempotent teardown: forget the current process and report which
    /// process identifier, if any, the caller must now force-kill. With no
    /// process held this is a successful no-op.
    pub fn terminate(&mut self) -> (kill: Option<u64>)
        ensures
            terminate_rel(*old(self), *final(self), kill),
            old(self).wf() ==> final(self).wf(),
    {
        match self.current {
            Some(h) => {
                self.current = None;
                Some(h.pid)
            },
            None => None,
        }
    }

    /// The non-creating accessor: the current process exactly when one is
    /// held and the caller's liveness probe on it succeeded. The stale handle
    /// is not discarded here, matching the read-only nature of the query.
    pub fn get_current(&self, probe_alive: bool) -> (r: Option<ProcessHandle>)
        ensures
            r == (if self.current is Some && probe_alive {
                self.current
            } else {
                None::<ProcessHandle>
            }),
    {
        match self.current {
            Some(h) => {
                if probe_alive {
                    Some(h)
                } else {
                    None
                }
            },
            None => None,
        }
    }
}

/// Exactly what one `terminate` call does: the held process is forgotten, the
/// generation counter is untouched, and the identifier to kill is the held
/// process's, if any.
pub open spec fn terminate_rel(
    pre: ProcessSupervisor,
    post: ProcessSupervisor,
    kill: Option<u64>,
) -> bool {
    &&& post.current is None
    &&& post.next_generation == pre.next_generation
    &&& kill == (match pre.current {
        Some(h) => Some(h.pid),
        None => None::<u64>,
    })
}

/// Termination is idempotent: a second `terminate` directly after a first one
/// kills nothing and leaves the supervisor exactly as the first left it — a
/// successful no-op.
pub proof fn lemma_terminate_idempotent(
    s0: ProcessSupervisor,
    s1: ProcessSupervisor,
    k1: Option<u64>,
    s2: ProcessSupervisor,
    k2: Option<u64>,
)
    requires
        terminate_rel(s0, s1, k1),
        terminate_rel(s1, s2, k2),
    ensures
        k2 is None,
        s2 == s1,
{
}

} // verus!
