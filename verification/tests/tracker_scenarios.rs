use droidmole::events::{LifecycleKind, TracerEvent};
use droidmole::tracker::{InitTracker, ResumeMode, TrackerAction, TrackerPhase};

fn found_tracker(root: u64) -> InitTracker {
    let mut t = InitTracker::new(root);
    let a = t.dispatch(&TracerEvent::SyscallStop { pid: root });
    assert_eq!(a, TrackerAction::ProbeProcMount { pid: root });
    let a = t.on_proc_probe(root, true);
    assert_eq!(a, TrackerAction::EnterProcMount { pid: root });
    assert_eq!(t.phase, TrackerPhase::TrackingDescendants);
    t
}

#[test]
fn fork_at_root_tracks_child() {
    let mut t = InitTracker::new(1);
    let e = TracerEvent::Lifecycle { pid: 1, signal: 17, kind: LifecycleKind::Fork };
    assert_eq!(t.dispatch(&e), TrackerAction::ReadForkChild { pid: 1 });
    let a = t.on_fork_child(1, 50);
    assert_eq!(
        a,
        TrackerAction::Resume { pid: 1, mode: ResumeMode::Syscall, signal: None }
    );
    assert!(t.descendants.contains(&50));
    assert!(!t.pending_detach.contains(&50));
}

#[test]
fn fork_beyond_depth_bound_detaches_child() {
    let mut t = InitTracker::new(1);
    let a = t.on_fork_child(1, 50);
    assert_eq!(
        a,
        TrackerAction::Resume { pid: 1, mode: ResumeMode::Syscall, signal: None }
    );

    // 50 is a descendant, not the root: its child 51 must be detached at once.
    let e = TracerEvent::Lifecycle { pid: 50, signal: 17, kind: LifecycleKind::Fork };
    assert_eq!(t.dispatch(&e), TrackerAction::ReadForkChild { pid: 50 });
    let a = t.on_fork_child(50, 51);
    assert_eq!(a, TrackerAction::TryDetachChild { pid: 50, child: 51 });
    assert!(!t.descendants.contains(&51));

    // The OS reports the target-not-stopped error: 51 joins the pending set.
    let a = t.on_child_detach(50, 51, false);
    assert_eq!(
        a,
        TrackerAction::Resume { pid: 50, mode: ResumeMode::Syscall, signal: None }
    );
    assert!(t.pending_detach.contains(&51));

    // 51's next event triggers only the retry; a successful detach removes it.
    let e = TracerEvent::SyscallStop { pid: 51 };
    assert_eq!(
        t.dispatch(&e),
        TrackerAction::TryDetachPending { pid: 51, signal: None }
    );
    t.on_pending_detach(51, true);
    assert!(!t.pending_detach.contains(&51));
}

#[test]
fn failed_pending_detach_keeps_pid() {
    let mut t = InitTracker::new(1);
    t.on_fork_child(1, 50);
    t.on_fork_child(50, 51);
    t.on_child_detach(50, 51, false);
    assert!(t.pending_detach.contains(&51));

    // A retry that fails again leaves the pid pending for the next event.
    let e = TracerEvent::SignalStop { pid: 51, signal: 19 };
    assert_eq!(
        t.dispatch(&e),
        TrackerAction::TryDetachPending { pid: 51, signal: Some(19) }
    );
    t.on_pending_detach(51, false);
    assert!(t.pending_detach.contains(&51));
}

#[test]
fn immediate_child_detach_success_leaves_nothing_pending() {
    let mut t = InitTracker::new(1);
    t.on_fork_child(1, 50);
    let a = t.on_child_detach(50, 51, true);
    assert_eq!(
        a,
        TrackerAction::Resume { pid: 50, mode: ResumeMode::Syscall, signal: None }
    );
    assert!(!t.pending_detach.contains(&51));
}

#[test]
fn exec_matching_zygote_is_captured() {
    let mut t = found_tracker(1);
    t.on_fork_child(1, 60);

    let e = TracerEvent::Lifecycle { pid: 60, signal: 5, kind: LifecycleKind::Exec };
    assert_eq!(t.dispatch(&e), TrackerAction::InspectExec { pid: 60 });

    let exe = String::from("/system/bin/app_process64");
    let args = vec![String::from("app_process64"), String::from("-Xzygote")];
    let a = t.on_exec_identity(60, &exe, &args);
    assert_eq!(a, TrackerAction::CaptureZygote { pid: 60 });
    assert_eq!(t.phase, TrackerPhase::ZygoteFound);
    assert!(!t.descendants.contains(&60));
}

#[test]
fn exec_not_matching_is_detached_without_fork() {
    let mut t = found_tracker(1);
    t.on_fork_child(1, 61);

    let e = TracerEvent::Lifecycle { pid: 61, signal: 5, kind: LifecycleKind::Exec };
    assert_eq!(t.dispatch(&e), TrackerAction::InspectExec { pid: 61 });

    let exe = String::from("/system/bin/sh");
    let args = vec![String::from("sh")];
    let a = t.on_exec_identity(61, &exe, &args);
    assert_eq!(a, TrackerAction::Detach { pid: 61 });
    assert_eq!(t.phase, TrackerPhase::TrackingDescendants);
}

#[test]
fn exec_before_proc_found_is_resumed() {
    let t = InitTracker::new(1);
    let e = TracerEvent::Lifecycle { pid: 42, signal: 5, kind: LifecycleKind::Exec };
    assert_eq!(
        t.dispatch(&e),
        TrackerAction::Resume { pid: 42, mode: ResumeMode::Syscall, signal: None }
    );
}

#[test]
fn exec_of_root_is_resumed_not_inspected() {
    let t = found_tracker(1);
    let e = TracerEvent::Lifecycle { pid: 1, signal: 5, kind: LifecycleKind::Exec };
    assert_eq!(
        t.dispatch(&e),
        TrackerAction::Resume { pid: 1, mode: ResumeMode::Free, signal: None }
    );
}

#[test]
fn proc_probe_failure_keeps_syscall_granularity() {
    let mut t = InitTracker::new(1);
    let a = t.on_proc_probe(1, false);
    assert_eq!(
        a,
        TrackerAction::Resume { pid: 1, mode: ResumeMode::Syscall, signal: None }
    );
    assert_eq!(t.phase, TrackerPhase::AwaitingProcMount);
}

#[test]
fn unsupported_lifecycle_shapes_are_fatal() {
    let t = found_tracker(1);
    for kind in [LifecycleKind::Vfork, LifecycleKind::VforkDone, LifecycleKind::Seccomp] {
        let e = TracerEvent::Lifecycle { pid: 7, signal: 5, kind };
        assert_eq!(t.dispatch(&e), TrackerAction::Fatal { kind });
    }
}

#[test]
fn exit_and_stop_events_are_resumed() {
    let t = found_tracker(1);
    for kind in [LifecycleKind::Exit, LifecycleKind::Stop] {
        let e = TracerEvent::Lifecycle { pid: 7, signal: 5, kind };
        assert_eq!(
            t.dispatch(&e),
            TrackerAction::Resume { pid: 7, mode: ResumeMode::Free, signal: None }
        );
    }
}

#[test]
fn signal_stop_forwards_signal() {
    let t = found_tracker(1);
    let e = TracerEvent::SignalStop { pid: 9, signal: 11 };
    assert_eq!(
        t.dispatch(&e),
        TrackerAction::Resume { pid: 9, mode: ResumeMode::Free, signal: Some(11) }
    );
}
