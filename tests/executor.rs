use hermit_net::executor::{Executor, RunAction, RunEvent};

#[test]
fn quiescent_pass_steps_once_and_returns_delay() {
    let mut e = Executor::new();
    assert!(e.is_idle());
    let mut actions = vec![e.run(500)];
    for ev in [
        RunEvent::Drained,
        RunEvent::Stepped,
        RunEvent::Drained,
        RunEvent::Progress(false),
        RunEvent::Delay(Some(250)),
        RunEvent::Drained,
    ] {
        actions.push(e.resume(ev));
    }
    let steps = actions.iter().filter(|a| matches!(a, RunAction::StepDriver(_))).count();
    assert_eq!(steps, 1);
    assert!(actions[1] == RunAction::StepDriver(500));
    assert!(actions[4] == RunAction::QueryDelay(500));
    assert!(*actions.last().unwrap() == RunAction::Finish(Some(250)));
    assert!(e.is_idle());
}

#[test]
fn progress_resteps_with_same_time() {
    let mut e = Executor::new();
    assert!(e.run(10) == RunAction::DrainQueue);
    assert!(e.resume(RunEvent::Drained) == RunAction::StepDriver(10));
    assert!(e.resume(RunEvent::Stepped) == RunAction::DrainQueue);
    assert!(e.resume(RunEvent::Drained) == RunAction::QueryProgress);
    assert!(e.resume(RunEvent::Progress(true)) == RunAction::StepDriver(10));
    assert!(e.resume(RunEvent::Stepped) == RunAction::DrainQueue);
    assert!(e.resume(RunEvent::Drained) == RunAction::QueryProgress);
    assert!(e.resume(RunEvent::Progress(false)) == RunAction::QueryDelay(10));
    assert!(e.resume(RunEvent::Delay(None)) == RunAction::DrainQueue);
    assert!(e.resume(RunEvent::Drained) == RunAction::Finish(None));
}

#[test]
fn executor_runs_again_after_a_pass() {
    let mut e = Executor::new();
    e.run(1);
    for ev in [
        RunEvent::Drained,
        RunEvent::Stepped,
        RunEvent::Drained,
        RunEvent::Progress(false),
        RunEvent::Delay(Some(3)),
        RunEvent::Drained,
    ] {
        e.resume(ev);
    }
    assert!(e.run(2) == RunAction::DrainQueue);
    assert!(e.resume(RunEvent::Drained) == RunAction::StepDriver(2));
}
