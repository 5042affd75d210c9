use render_pool::supervisor::ProcessSupervisor;

#[test]
fn reuse_returns_live_process_unchanged() {
    let mut s = ProcessSupervisor::new();
    assert!(s.reuse_if_alive(true).is_none());
    let h = s.install_launched(42);
    assert_eq!(h.pid, 42);
    assert_eq!(h.generation, 0);
    let again = s.reuse_if_alive(true).expect("live process is reused");
    assert_eq!(again, h);
}

#[test]
fn dead_probe_discards_and_relaunch_gets_new_generation() {
    let mut s = ProcessSupervisor::new();
    s.install_launched(42);
    assert!(s.reuse_if_alive(false).is_none());
    assert!(s.current.is_none());
    let h2 = s.install_launched(43);
    assert_eq!(h2.pid, 43);
    assert_eq!(h2.generation, 1);
}

#[test]
fn terminate_twice_is_a_noop_the_second_time() {
    let mut s = ProcessSupervisor::new();
    s.install_launched(42);
    assert_eq!(s.terminate(), Some(42));
    // Idempotent: with nothing running, termination succeeds and kills
    // nothing.
    assert_eq!(s.terminate(), None);
    assert_eq!(s.terminate(), None);
    assert!(s.current.is_none());
}

#[test]
fn get_current_never_creates() {
    let mut s = ProcessSupervisor::new();
    assert!(s.get_current(true).is_none());
    let h = s.install_launched(7);
    assert_eq!(s.get_current(true), Some(h));
    // A failed probe hides the process but does not discard the handle.
    assert!(s.get_current(false).is_none());
    assert_eq!(s.current, Some(h));
}

#[test]
fn relaunch_after_terminate_differs_from_old_process() {
    let mut s = ProcessSupervisor::new();
    let h1 = s.install_launched(10);
    s.terminate();
    assert!(s.reuse_if_alive(false).is_none());
    let h2 = s.install_launched(11);
    assert_ne!(h1, h2);
    assert!(h2.generation > h1.generation);
}
