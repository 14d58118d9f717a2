use be::exec::ChildOutput;
use be::exec::ChildStatus;
use be::exec::ExecError;
use be::exec::Invocation;
use be::runner::Action;
use be::runner::Event;
use be::runner::RunError;
use be::runner::Runner;

fn runner() -> Runner {
    let invocation = Invocation {
        program: String::from("/bin/tool"),
        args: vec![String::from("-")],
    };
    Runner::new(invocation, b"input".to_vec())
}

fn exited(code: i32, stdout: &[u8], stderr: &[u8]) -> Event {
    Event::Exited(ChildOutput {
        status: ChildStatus { code: Some(code), signal: None },
        stdout: stdout.to_vec(),
        stderr: stderr.to_vec(),
    })
}

fn drive(mut runner: Runner, mut event_for: impl FnMut(Action) -> Event) -> (Vec<Action>, Runner) {
    let mut actions = Vec::new();
    while runner.next() != Action::Finish {
        let action = runner.next();
        actions.push(action);
        assert!(actions.len() <= 9);
        runner = runner.advance(event_for(action));
    }
    (actions, runner)
}

#[test]
fn a_runner_keeps_the_command_line_and_the_input() {
    let runner = runner();
    assert_eq!(runner.invocation().program, "/bin/tool");
    assert_eq!(runner.invocation().args, vec!["-"]);
    assert_eq!(runner.input(), &b"input".to_vec());
    assert_eq!(runner.next(), Action::AcquireFile);
    assert!(runner.finish().is_none());
}

#[test]
fn a_run_draws_permits_feeds_the_child_and_returns_the_permits_in_reverse() {
    let (actions, runner) = drive(runner(), |action| match action {
        Action::Wait => exited(0, b"output", b"noise"),
        _ => Event::Done,
    });
    assert_eq!(
        actions,
        vec![
            Action::AcquireFile,
            Action::AcquireProcess,
            Action::Spawn,
            Action::WriteInput,
            Action::CloseInput,
            Action::Wait,
            Action::ReleaseProcess,
            Action::ReleaseFile,
        ]
    );
    assert!(matches!(runner.finish(), Some(Ok(ref bytes)) if bytes == b"output"));
}

#[test]
fn a_child_that_fails_is_reported_after_the_permits_went_back() {
    let (actions, runner) = drive(runner(), |action| match action {
        Action::Wait => exited(1, b"", b"syntax error"),
        _ => Event::Done,
    });
    assert_eq!(actions[6..], [Action::ReleaseProcess, Action::ReleaseFile]);
    match runner.finish() {
        Some(Err(RunError::Child(ExecError::Exited { code, stderr }))) => {
            assert_eq!(code, 1);
            assert_eq!(stderr, "syntax error");
        }
        _ => panic!("expected the failure of the child"),
    }
}

#[test]
fn a_run_without_a_file_permit_ends_at_once() {
    let (actions, runner) = drive(runner(), |_| Event::Failed);
    assert_eq!(actions, vec![Action::AcquireFile]);
    assert!(matches!(runner.finish(), Some(Err(RunError::Io(Action::AcquireFile)))));
}

#[test]
fn a_run_without_a_process_permit_returns_the_file_permit() {
    let (actions, runner) = drive(runner(), |action| match action {
        Action::AcquireProcess => Event::Failed,
        _ => Event::Done,
    });
    assert_eq!(
        actions,
        vec![Action::AcquireFile, Action::AcquireProcess, Action::ReleaseFile]
    );
    assert!(matches!(runner.finish(), Some(Err(RunError::Io(Action::AcquireProcess)))));
}

#[test]
fn a_child_that_does_not_start_costs_both_permits_back() {
    let (actions, runner) = drive(runner(), |action| match action {
        Action::Spawn => Event::Failed,
        _ => Event::Done,
    });
    assert_eq!(
        actions,
        vec![
            Action::AcquireFile,
            Action::AcquireProcess,
            Action::Spawn,
            Action::ReleaseProcess,
            Action::ReleaseFile,
        ]
    );
    assert!(matches!(runner.finish(), Some(Err(RunError::Io(Action::Spawn)))));
}

#[test]
fn a_child_that_cannot_be_fed_is_killed_before_the_permits_go_back() {
    for failing in [Action::WriteInput, Action::CloseInput, Action::Wait] {
        let (actions, runner) = drive(runner(), |action| {
            if action == failing {
                Event::Failed
            } else {
                Event::Done
            }
        });
        let tail = &actions[actions.len() - 3..];
        assert_eq!(tail, [Action::Kill, Action::ReleaseProcess, Action::ReleaseFile]);
        assert_eq!(actions[actions.len() - 4], failing);
        match runner.finish() {
            Some(Err(RunError::Io(action))) => assert_eq!(action, failing),
            _ => panic!("expected the failed action"),
        }
    }
}

#[test]
fn waiting_without_an_exit_counts_as_failed() {
    let (actions, runner) = drive(runner(), |_| Event::Done);
    assert_eq!(
        actions,
        vec![
            Action::AcquireFile,
            Action::AcquireProcess,
            Action::Spawn,
            Action::WriteInput,
            Action::CloseInput,
            Action::Wait,
            Action::Kill,
            Action::ReleaseProcess,
            Action::ReleaseFile,
        ]
    );
    assert!(matches!(runner.finish(), Some(Err(RunError::Io(Action::Wait)))));
}

#[test]
fn releases_cannot_fail_and_the_outcome_stays() {
    let (actions, runner) = drive(runner(), |action| match action {
        Action::Wait => exited(0, b"ok", b""),
        Action::ReleaseProcess | Action::ReleaseFile => Event::Failed,
        _ => Event::Done,
    });
    assert_eq!(actions.len(), 8);
    assert!(matches!(runner.finish(), Some(Ok(ref bytes)) if bytes == b"ok"));
}

#[test]
fn a_finished_run_stays_finished() {
    let (_, runner) = drive(runner(), |_| Event::Failed);
    let runner = runner.advance(Event::Done);
    assert_eq!(runner.next(), Action::Finish);
    let runner = runner.advance(exited(0, b"late", b""));
    assert_eq!(runner.next(), Action::Finish);
    assert!(matches!(runner.finish(), Some(Err(RunError::Io(Action::AcquireFile)))));
}

#[test]
fn an_exit_that_answers_another_action_counts_as_done() {
    let runner = runner().advance(exited(0, b"early", b""));
    assert_eq!(runner.next(), Action::AcquireProcess);
}

#[test]
fn the_child_is_started_without_environment_in_the_directory_of_tools() {
    let plan = runner().spawn_plan();
    assert_eq!(plan.program, "/bin/tool");
    assert_eq!(plan.args, vec!["-"]);
    assert!(plan.clear_env);
    assert_eq!(plan.working_dir, "/var/empty");
    assert!(plan.kill_on_drop);
    assert!(plan.piped);
}
