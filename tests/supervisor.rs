use eliza_sidecar::supervisor::{plan_start, StartDecision, Supervisor};

#[test]
fn fresh_supervisor_owns_nothing() {
    let s: Supervisor<u32> = Supervisor::new();
    assert!(!s.is_managing());
}

#[test]
fn probe_unreachable_spawns() {
    assert_eq!(plan_start(false), StartDecision::Spawn);
}

#[test]
fn probe_reachable_does_not_spawn() {
    assert_eq!(plan_start(true), StartDecision::AlreadyRunning);
}

#[test]
fn start_then_shutdown_twice() {
    let mut s: Supervisor<u32> = Supervisor::new();
    assert_eq!(plan_start(false), StartDecision::Spawn);
    assert_eq!(s.record_spawned(4242), None);
    assert!(s.is_managing());
    assert_eq!(s.shutdown(), Some(4242));
    assert!(!s.is_managing());
    assert_eq!(s.shutdown(), None);
    assert!(!s.is_managing());
}

#[test]
fn shutdown_unstarted_is_no_op() {
    let mut s: Supervisor<u32> = Supervisor::new();
    assert_eq!(s.shutdown(), None);
    assert_eq!(s.shutdown(), None);
    assert!(!s.is_managing());
}

#[test]
fn many_shutdowns_terminate_once() {
    let mut s: Supervisor<u32> = Supervisor::new();
    s.record_spawned(7);
    let mut handed: Vec<u32> = Vec::new();
    for _ in 0..5 {
        if let Some(h) = s.shutdown() {
            handed.push(h);
        }
    }
    assert_eq!(handed, vec![7]);
    assert!(!s.is_managing());
}

#[test]
fn racing_shutdowns_hand_out_once() {
    let mut s: Supervisor<u32> = Supervisor::new();
    s.record_spawned(11);
    let first = s.shutdown();
    let second = s.shutdown();
    assert_eq!(first, Some(11));
    assert_eq!(second, None);
    assert!(!s.is_managing());
}

#[test]
fn second_spawn_hands_back_previous_handle() {
    let mut s: Supervisor<u32> = Supervisor::new();
    assert_eq!(s.record_spawned(1), None);
    assert_eq!(s.record_spawned(2), Some(1));
    assert_eq!(s.shutdown(), Some(2));
    assert_eq!(s.shutdown(), None);
}
