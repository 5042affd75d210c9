use render_pool::acquire::{start_flow, AcquireAction, AcquireEvent, AcquireFailure};
use render_pool::errors::{acquire_failure_error, AppError};
use render_pool::pool::{Context, ContextPool, Lease};

/// Runs the recreation protocol the way the surrounding program would:
/// deduplicate on the flag, re-obtain a process, rebuild every context.
fn recreate(pool: &mut ContextPool, new_pid: u64, probe_alive: bool) {
    if !pool.begin_recreation() {
        return;
    }
    if pool.supervisor.reuse_if_alive(probe_alive).is_none() {
        pool.supervisor.install_launched(new_pid);
    }
    pool.finish_recreation();
}

/// Drives one acquisition to completion against a pool whose process
/// probes answer `browser_alive` and whose context probes answer
/// `context_valid`; a requested recreation installs `new_pid`.
fn acquire(
    pool: &mut ContextPool,
    browser_alive: bool,
    context_valid: bool,
    new_pid: u64,
) -> Result<Lease, AppError> {
    assert!(pool.take_permit());
    let mut flow = start_flow();
    let mut ev = AcquireEvent::Start;
    loop {
        let (next, action) = pool.acquire_step(flow, ev);
        flow = next;
        ev = match action {
            AcquireAction::ProbeBrowser => AcquireEvent::BrowserProbe(browser_alive),
            AcquireAction::Recreate => {
                recreate(pool, new_pid, browser_alive);
                AcquireEvent::Recreated(true)
            }
            AcquireAction::ProbeContext(_) => AcquireEvent::ContextProbe(context_valid),
            AcquireAction::Grant(lease) => return Ok(lease),
            AcquireAction::Fail(failure) => return Err(acquire_failure_error(failure)),
        };
    }
}

#[test]
fn new_pool_is_fully_populated() {
    let pool = ContextPool::new(4, 99);
    assert_eq!(pool.capacity, 4);
    assert_eq!(pool.available_permits, 4);
    assert_eq!(pool.idle.len(), 4);
    assert!(!pool.recreating);
    for (i, c) in pool.idle.iter().enumerate() {
        assert_eq!(c.id, i as u64);
        assert_eq!(c.generation, 0);
    }
    let handle = pool.supervisor.current.expect("fresh pool has a process");
    assert_eq!(handle.pid, 99);
}

#[test]
fn permits_cap_concurrent_leases() {
    let mut pool = ContextPool::new(3, 1);
    assert!(pool.take_permit());
    assert!(pool.take_permit());
    assert!(pool.take_permit());
    // The fourth concurrent request is denied: its caller would suspend.
    assert!(!pool.take_permit());
    let lease = Lease { context: pool.pop_idle().unwrap() };
    pool.release(lease, true);
    assert!(pool.take_permit());
}

#[test]
fn acquire_on_healthy_pool_grants_current_generation() {
    let mut pool = ContextPool::new(2, 1);
    let lease = acquire(&mut pool, true, true, 2).expect("healthy acquire succeeds");
    assert_eq!(lease.context.generation, 0);
    assert_eq!(lease.context.id, 1);
    assert_eq!(pool.idle.len(), 1);
    assert_eq!(pool.available_permits, 1);
}

#[test]
fn acquire_after_process_death_yields_fresh_generation() {
    let mut pool = ContextPool::new(2, 1);
    // The process dies: probes fail until the recreation installs pid 7.
    let lease = acquire(&mut pool, false, true, 7).expect("acquire recovers by recreating");
    assert_eq!(lease.context.generation, 1);
    assert_eq!(pool.generation, 1);
    let handle = pool.supervisor.current.expect("recreation installed a process");
    assert_eq!(handle.pid, 7);
    assert_eq!(handle.generation, 1);
    // The pool was rebuilt full before the grant popped one context.
    assert_eq!(pool.idle.len(), 1);
}

#[test]
fn release_returns_valid_context_to_pool() {
    let mut pool = ContextPool::new(2, 1);
    let lease = acquire(&mut pool, true, true, 2).unwrap();
    let id = lease.context.id;
    pool.release(lease, true);
    assert_eq!(pool.available_permits, 2);
    assert_eq!(pool.idle.len(), 2);
    assert_eq!(pool.idle.last().unwrap().id, id);
}

#[test]
fn release_discards_dead_context_but_restores_permit() {
    let mut pool = ContextPool::new(2, 1);
    let lease = acquire(&mut pool, true, true, 2).unwrap();
    pool.release(lease, false);
    assert_eq!(pool.available_permits, 2);
    assert_eq!(pool.idle.len(), 1);
}

#[test]
fn release_discards_stale_generation_even_when_alive() {
    let mut pool = ContextPool::new(2, 1);
    let lease = acquire(&mut pool, true, true, 2).unwrap();
    // A recreation cycle runs while the lease is out: its context is now
    // of an abandoned generation.
    recreate(&mut pool, 8, false);
    assert_eq!(pool.idle.len(), 2);
    pool.release(lease, true);
    assert_eq!(pool.available_permits, 2);
    assert_eq!(pool.idle.len(), 2);
}

#[test]
fn concurrent_recreation_requests_rebuild_once() {
    let mut pool = ContextPool::new(3, 1);
    // Two racing requests: only the first wins the flag.
    assert!(pool.begin_recreation());
    assert!(!pool.begin_recreation());
    assert!(!pool.begin_recreation());
    // The winner rebuilds; everyone then observes a full, consistent pool.
    assert!(pool.supervisor.reuse_if_alive(false).is_none());
    pool.supervisor.install_launched(5);
    pool.finish_recreation();
    assert!(!pool.recreating);
    assert_eq!(pool.generation, 1);
    assert_eq!(pool.idle.len(), 3);
    assert!(pool.idle.iter().all(|c| c.generation == 1));
    // The flag is free again for the next cycle.
    assert!(pool.begin_recreation());
    pool.abort_recreation();
    assert!(!pool.recreating);
}

#[test]
fn failed_recreation_does_not_wedge_the_pool() {
    let mut pool = ContextPool::new(1, 1);
    assert!(pool.begin_recreation());
    // The rebuild fails; the flag must still clear.
    pool.abort_recreation();
    assert!(!pool.recreating);
    assert!(pool.begin_recreation());
}

#[test]
fn acquire_reports_recreation_failure() {
    let mut pool = ContextPool::new(1, 1);
    assert!(pool.take_permit());
    let mut flow = start_flow();
    let (next, action) = pool.acquire_step(flow, AcquireEvent::Start);
    flow = next;
    assert_eq!(action, AcquireAction::ProbeBrowser);
    let (next, action) = pool.acquire_step(flow, AcquireEvent::BrowserProbe(false));
    flow = next;
    assert_eq!(action, AcquireAction::Recreate);
    // The recreation cycle fails (no process could be launched).
    assert!(pool.begin_recreation());
    pool.abort_recreation();
    let (_, action) = pool.acquire_step(flow, AcquireEvent::Recreated(false));
    match action {
        AcquireAction::Fail(f) => {
            assert_eq!(f, AcquireFailure::Recreation);
            match acquire_failure_error(f) {
                AppError::BrowserError(m) => assert_eq!(m, "Tab recreation failed"),
                other => panic!("unexpected error {:?}", other),
            }
        }
        other => panic!("unexpected action {:?}", other),
    }
}

#[test]
fn acquire_underflow_when_rebuild_cannot_populate() {
    // A pool of capacity zero can never hold a context: the underflow
    // guard fires after the recreation triggered by the empty collection.
    let mut pool = ContextPool::new(0, 1);
    let mut flow = start_flow();
    let (next, action) = pool.acquire_step(flow, AcquireEvent::Start);
    flow = next;
    assert_eq!(action, AcquireAction::ProbeBrowser);
    let (next, action) = pool.acquire_step(flow, AcquireEvent::BrowserProbe(true));
    flow = next;
    assert_eq!(action, AcquireAction::Recreate);
    recreate(&mut pool, 2, true);
    let (_, action) = pool.acquire_step(flow, AcquireEvent::Recreated(true));
    assert_eq!(action, AcquireAction::Fail(AcquireFailure::Underflow));
}

#[test]
fn acquire_exhausted_when_recreation_yields_no_valid_context() {
    let mut pool = ContextPool::new(1, 1);
    assert!(pool.take_permit());
    let mut flow = start_flow();
    let (next, _) = pool.acquire_step(flow, AcquireEvent::Start);
    flow = next;
    let (next, action) = pool.acquire_step(flow, AcquireEvent::BrowserProbe(true));
    flow = next;
    assert!(matches!(action, AcquireAction::ProbeContext(_)));
    // The candidate is dead, and the recreation cycle that follows clears
    // the flag without managing to repopulate the collection.
    let (next, action) = pool.acquire_step(flow, AcquireEvent::ContextProbe(false));
    flow = next;
    assert_eq!(action, AcquireAction::Recreate);
    assert!(pool.begin_recreation());
    pool.abort_recreation();
    let (_, action) = pool.acquire_step(flow, AcquireEvent::Recreated(true));
    assert_eq!(action, AcquireAction::Fail(AcquireFailure::Exhausted));
}

#[test]
fn kill_mid_flight_all_jobs_complete_and_pool_refills() {
    // Three jobs on a pool of three contexts; the process is killed after
    // the first job has its lease. The remaining jobs recover through one
    // recreation, and after all releases the pool shows three idle
    // contexts again.
    let mut pool = ContextPool::new(3, 1);
    let lease1 = acquire(&mut pool, true, true, 1).expect("first job starts");
    assert_eq!(lease1.context.generation, 0);

    // The process dies here. The second job finds it dead and rebuilds.
    let lease2 = acquire(&mut pool, false, true, 2).expect("second job recovers");
    assert_eq!(lease2.context.generation, 1);

    // The third job sees the fresh process alive and proceeds normally.
    let lease3 = acquire(&mut pool, true, true, 2).expect("third job proceeds");
    assert_eq!(lease3.context.generation, 1);

    // First job's context died with the old process: discarded on release.
    pool.release(lease1, false);
    // The other two come back healthy.
    pool.release(lease2, true);
    pool.release(lease3, true);

    assert_eq!(pool.available_permits, 3);
    assert_eq!(pool.idle.len(), 3);
    assert!(pool.idle.iter().all(|c| c.generation == 1));
}

#[test]
fn recreation_after_invalid_candidate_probes_before_granting() {
    let mut pool = ContextPool::new(1, 1);
    assert!(pool.take_permit());
    let mut flow = start_flow();
    let (next, _) = pool.acquire_step(flow, AcquireEvent::Start);
    flow = next;
    let (next, action) = pool.acquire_step(flow, AcquireEvent::BrowserProbe(true));
    flow = next;
    assert!(matches!(action, AcquireAction::ProbeContext(_)));
    // The candidate is dead; a recreation runs and repopulates the pool.
    let (next, action) = pool.acquire_step(flow, AcquireEvent::ContextProbe(false));
    flow = next;
    assert_eq!(action, AcquireAction::Recreate);
    recreate(&mut pool, 2, false);
    // The freshly popped candidate must itself be probed before hand-out.
    let (next, action) = pool.acquire_step(flow, AcquireEvent::Recreated(true));
    flow = next;
    match action {
        AcquireAction::ProbeContext(id) => assert_eq!(id, 1),
        other => panic!("unexpected action {:?}", other),
    }
    let (_, action) = pool.acquire_step(flow, AcquireEvent::ContextProbe(true));
    match action {
        AcquireAction::Grant(lease) => assert_eq!(lease.context.generation, 1),
        other => panic!("unexpected action {:?}", other),
    }
}

#[test]
fn recreation_that_cannot_yield_a_valid_candidate_exhausts() {
    let mut pool = ContextPool::new(1, 1);
    assert!(pool.take_permit());
    let mut flow = start_flow();
    let (next, _) = pool.acquire_step(flow, AcquireEvent::Start);
    flow = next;
    let (next, _) = pool.acquire_step(flow, AcquireEvent::BrowserProbe(true));
    flow = next;
    let (next, action) = pool.acquire_step(flow, AcquireEvent::ContextProbe(false));
    flow = next;
    assert_eq!(action, AcquireAction::Recreate);
    recreate(&mut pool, 2, false);
    let (next, action) = pool.acquire_step(flow, AcquireEvent::Recreated(true));
    flow = next;
    assert!(matches!(action, AcquireAction::ProbeContext(_)));
    // Even the rebuilt context fails its probe: the pool is exhausted.
    let (_, action) = pool.acquire_step(flow, AcquireEvent::ContextProbe(false));
    assert_eq!(action, AcquireAction::Fail(AcquireFailure::Exhausted));
}

#[test]
fn failed_acquisition_gives_its_permit_back() {
    let mut pool = ContextPool::new(1, 1);
    assert!(pool.take_permit());
    assert_eq!(pool.available_permits, 0);
    // The acquisition fails before any lease exists; its permit must come
    // back without one.
    pool.release_permit();
    assert_eq!(pool.available_permits, 1);
    assert!(pool.take_permit());
}

#[test]
fn acquire_with_no_process_recreates_before_probing() {
    let mut pool = ContextPool::new(1, 1);
    // The pool has no process at all: acquisition must ask for a
    // recreation straight away, not for a probe of nothing.
    pool.supervisor.terminate();
    assert!(pool.take_permit());
    let mut flow = start_flow();
    let (next, action) = pool.acquire_step(flow, AcquireEvent::Start);
    flow = next;
    assert_eq!(action, AcquireAction::Recreate);
    recreate(&mut pool, 9, false);
    let (next, action) = pool.acquire_step(flow, AcquireEvent::Recreated(true));
    flow = next;
    assert!(matches!(action, AcquireAction::ProbeContext(_)));
    let (_, action) = pool.acquire_step(flow, AcquireEvent::ContextProbe(true));
    match action {
        AcquireAction::Grant(lease) => assert_eq!(lease.context.generation, 1),
        other => panic!("unexpected action {:?}", other),
    }
}

#[test]
fn contexts_of_distinct_cycles_never_collide() {
    let mut pool = ContextPool::new(2, 1);
    let first: Vec<Context> = pool.idle.clone();
    recreate(&mut pool, 2, false);
    for c in &pool.idle {
        for old in &first {
            assert_ne!(c, old);
        }
    }
}
