use sigtrace::shutdown::{
    Phase, RegisterError, ShutdownCoordinator, SignalAction, SourceKind, WaitDirective,
};

#[test]
fn two_sources_fire_back_to_back_teardown_runs_once() {
    let mut c = ShutdownCoordinator::new(5000);
    assert!(c.register(SourceKind::Interrupt, true).is_ok());
    assert!(c.register(SourceKind::Terminate, true).is_ok());
    assert_eq!(c.source_count(), 2);
    assert_eq!(c.wait(), WaitDirective::Suspend);

    let mut teardown_hook_runs = 0;
    if c.on_signal(0) == SignalAction::RunTeardown {
        teardown_hook_runs += 1;
    }
    if c.on_signal(1) == SignalAction::RunTeardown {
        teardown_hook_runs += 1;
    }
    assert_eq!(teardown_hook_runs, 1);

    c.finish_teardown(true);
    assert_eq!(c.wait(), WaitDirective::ReturnNow);
}

#[test]
fn repeated_firings_of_one_source_win_only_once() {
    let mut c = ShutdownCoordinator::new(1000);
    assert!(c.register(SourceKind::Interrupt, true).is_ok());
    assert_eq!(c.wait(), WaitDirective::Suspend);

    let mut wins = 0;
    for _ in 0..10 {
        if c.on_signal(0) == SignalAction::RunTeardown {
            wins += 1;
        }
    }
    assert_eq!(wins, 1);
    assert_eq!(c.current_phase(), Phase::Firing);
}

#[test]
fn wait_is_idempotent_after_completion() {
    let mut c = ShutdownCoordinator::new(1000);
    assert!(c.register(SourceKind::Interrupt, true).is_ok());
    assert_eq!(c.wait(), WaitDirective::Suspend);
    assert_eq!(c.on_signal(0), SignalAction::RunTeardown);
    c.finish_teardown(true);
    assert_eq!(c.wait(), WaitDirective::ReturnNow);
    assert_eq!(c.wait(), WaitDirective::ReturnNow);
    assert_eq!(c.wait(), WaitDirective::ReturnNow);
}

#[test]
fn interrupt_alone_completes_when_terminate_is_unsupported() {
    // On a platform without a terminate signal the arm is replaced by a
    // source that never fires, so it produces no events; the interrupt
    // alone completes the wait.
    let terminate_arm = ShutdownCoordinator::effective_source(SourceKind::Terminate, false);
    assert_eq!(terminate_arm, SourceKind::NeverFires);

    let mut c = ShutdownCoordinator::new(1000);
    assert!(c.register(SourceKind::Interrupt, true).is_ok());
    assert!(c.register(terminate_arm, true).is_ok());
    assert_eq!(c.wait(), WaitDirective::Suspend);
    assert_eq!(c.on_signal(0), SignalAction::RunTeardown);
    c.finish_teardown(true);
    assert_eq!(c.wait(), WaitDirective::ReturnNow);
}

#[test]
fn effective_source_keeps_supported_kinds() {
    assert_eq!(
        ShutdownCoordinator::effective_source(SourceKind::Terminate, true),
        SourceKind::Terminate
    );
    assert_eq!(
        ShutdownCoordinator::effective_source(SourceKind::Interrupt, true),
        SourceKind::Interrupt
    );
}

#[test]
fn failed_registration_is_reported() {
    let mut c = ShutdownCoordinator::new(1000);
    assert_eq!(
        c.register(SourceKind::Interrupt, false),
        Err(RegisterError::SignalUnavailable)
    );
    assert_eq!(c.source_count(), 0);
}

#[test]
fn teardown_overdue_is_strictly_past_the_timeout() {
    let c = ShutdownCoordinator::new(5000);
    assert!(!c.teardown_overdue(0));
    assert!(!c.teardown_overdue(5000));
    assert!(c.teardown_overdue(5001));
}

#[test]
fn abandoned_teardown_still_delivers_the_terminal_event() {
    let mut c = ShutdownCoordinator::new(5000);
    assert!(c.register(SourceKind::Interrupt, true).is_ok());
    assert_eq!(c.wait(), WaitDirective::Suspend);
    assert_eq!(c.on_signal(0), SignalAction::RunTeardown);
    // The hook exceeded the timeout and was abandoned; shutdown proceeds.
    c.finish_teardown(false);
    assert_eq!(c.current_phase(), Phase::Done);
    assert_eq!(c.wait(), WaitDirective::ReturnNow);
}

#[test]
fn phases_progress_in_order() {
    let mut c = ShutdownCoordinator::new(100);
    assert_eq!(c.current_phase(), Phase::Idle);
    assert!(c.register(SourceKind::Interrupt, true).is_ok());
    assert_eq!(c.current_phase(), Phase::Idle);
    assert_eq!(c.wait(), WaitDirective::Suspend);
    assert_eq!(c.current_phase(), Phase::Waiting);
    assert_eq!(c.on_signal(0), SignalAction::RunTeardown);
    assert_eq!(c.current_phase(), Phase::Firing);
    c.finish_teardown(true);
    assert_eq!(c.current_phase(), Phase::Done);
}
