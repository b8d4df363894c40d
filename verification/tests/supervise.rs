use notracking::forward::StreamTag;
use notracking::supervise::{
    ChildInvocation, ExitOutcome, Phase, SuperviseAction, SuperviseError, SuperviseEvent,
    Supervisor,
};

fn words(ws: &[&str]) -> Vec<String> {
    ws.iter().map(|w| w.to_string()).collect()
}

fn echo_hello() -> ChildInvocation {
    ChildInvocation::from_args(words(&["echo", "hello"])).unwrap()
}

fn drained(invocation: ChildInvocation) -> Supervisor {
    let (mut s, _) = Supervisor::new(invocation);
    s.step(SuperviseEvent::Launched);
    s.step(SuperviseEvent::ReadersStarted { stdout: true, stderr: true });
    s.step(SuperviseEvent::StreamEnded(StreamTag::Stdout));
    s.step(SuperviseEvent::StreamEnded(StreamTag::Stderr));
    s
}

#[test]
fn command_from_the_words_left_over() {
    let c = echo_hello();
    assert_eq!(c.program, "echo");
    assert_eq!(c.args, vec!["hello".to_string()]);
    let c = ChildInvocation::from_args(words(&["true"])).unwrap();
    assert_eq!(c.program, "true");
    assert!(c.args.is_empty());
    assert!(ChildInvocation::from_args(Vec::new()).is_none());
}

#[test]
fn command_line_and_notice() {
    let c = ChildInvocation::from_args(words(&["sh", "-c", "exit 3"])).unwrap();
    assert_eq!(c.command_line(), "sh -c exit 3");
    assert_eq!(c.exec_notice(), "exec sh -c exit 3");
    let c = ChildInvocation::from_args(words(&["true"])).unwrap();
    assert_eq!(c.command_line(), "true");
    let d = c.copy();
    assert_eq!(d.program, c.program);
    assert_eq!(d.args, c.args);
}

#[test]
fn no_program_means_nothing_to_do() {
    let (s, action) = Supervisor::new(ChildInvocation { program: String::new(), args: vec![] });
    assert!(matches!(action, SuperviseAction::Finish));
    assert_eq!(s.phase(), Phase::Terminated { success: true });
}

#[test]
fn echo_hello_runs_to_success() {
    let (mut s, action) = Supervisor::new(echo_hello());
    assert_eq!(s.phase(), Phase::NotStarted);
    match action {
        SuperviseAction::Spawn { invocation, notice } => {
            assert_eq!(invocation.program, "echo");
            assert_eq!(invocation.args, vec!["hello".to_string()]);
            assert_eq!(notice, "exec echo hello");
        }
        other => panic!("unexpected: {:?}", other),
    }
    assert!(matches!(s.step(SuperviseEvent::Launched), SuperviseAction::StartReaders));
    assert_eq!(s.phase(), Phase::Spawned);
    assert!(matches!(
        s.step(SuperviseEvent::ReadersStarted { stdout: true, stderr: true }),
        SuperviseAction::Join(StreamTag::Stdout)
    ));
    assert_eq!(s.phase(), Phase::StreamsDraining { stdout_open: true, stderr_open: true });
    assert!(matches!(
        s.step(SuperviseEvent::StreamEnded(StreamTag::Stdout)),
        SuperviseAction::Join(StreamTag::Stderr)
    ));
    assert!(matches!(
        s.step(SuperviseEvent::StreamEnded(StreamTag::Stderr)),
        SuperviseAction::Wait
    ));
    assert_eq!(s.phase(), Phase::StreamsDraining { stdout_open: false, stderr_open: false });
    let exited =
        ExitOutcome::Exited { success: true, code: Some(0), status: "exit status: 0".to_string() };
    assert!(matches!(s.step(SuperviseEvent::Outcome(exited)), SuperviseAction::Finish));
    assert_eq!(s.phase(), Phase::Terminated { success: true });
}

#[test]
fn exit_status_three_is_a_failure_that_carries_it() {
    let mut s = drained(ChildInvocation::from_args(words(&["sh", "-c", "exit 3"])).unwrap());
    let exited =
        ExitOutcome::Exited { success: false, code: Some(3), status: "exit status: 3".to_string() };
    match s.step(SuperviseEvent::Outcome(exited)) {
        SuperviseAction::Abort(e) => {
            match &e {
                SuperviseError::ProcessExit { invocation, code, status } => {
                    assert_eq!(*code, Some(3));
                    assert_eq!(status, "exit status: 3");
                    assert_eq!(invocation.program, "sh");
                    assert_eq!(invocation.args, words(&["-c", "exit 3"]));
                }
                other => panic!("unexpected: {:?}", other),
            }
            assert_eq!(e.message(), "exec sh -c exit 3: failed exit status: 3");
            assert_ne!(e.exit_code(), 0);
            assert_eq!(e.exit_code(), 1);
        }
        other => panic!("unexpected: {:?}", other),
    }
    assert_eq!(s.phase(), Phase::Terminated { success: false });
}

#[test]
fn a_command_that_cannot_be_started_fails_the_supervision() {
    let (mut s, _) = Supervisor::new(echo_hello());
    let outcome = ExitOutcome::NotLaunched { detail: "No such file or directory".to_string() };
    match s.step(SuperviseEvent::Outcome(outcome)) {
        SuperviseAction::Abort(e) => {
            assert!(matches!(e, SuperviseError::Spawn { .. }));
            assert_eq!(e.message(), "failed to start the command: No such file or directory");
            assert_eq!(e.exit_code(), 1);
        }
        other => panic!("unexpected: {:?}", other),
    }
    assert_eq!(s.phase(), Phase::Terminated { success: false });
}

#[test]
fn a_stream_that_cannot_be_read_ends_the_run_with_code_100() {
    let (mut s, _) = Supervisor::new(echo_hello());
    s.step(SuperviseEvent::Launched);
    s.step(SuperviseEvent::ReadersStarted { stdout: true, stderr: true });
    let event =
        SuperviseEvent::StreamFailed { tag: StreamTag::Stderr, detail: "broken".to_string() };
    match s.step(event) {
        SuperviseAction::Abort(e) => {
            assert!(matches!(e, SuperviseError::StreamRead { tag: StreamTag::Stderr, .. }));
            assert_eq!(e.message(), "failed to read E: broken");
            assert_eq!(e.exit_code(), 100);
        }
        other => panic!("unexpected: {:?}", other),
    }
    assert_eq!(s.phase(), Phase::Terminated { success: false });
}

#[test]
fn the_exit_is_not_judged_while_a_stream_is_open() {
    let (mut s, _) = Supervisor::new(echo_hello());
    s.step(SuperviseEvent::Launched);
    s.step(SuperviseEvent::ReadersStarted { stdout: true, stderr: true });
    s.step(SuperviseEvent::StreamEnded(StreamTag::Stderr));
    let exited =
        ExitOutcome::Exited { success: true, code: Some(0), status: "exit status: 0".to_string() };
    assert!(matches!(
        s.step(SuperviseEvent::Outcome(exited)),
        SuperviseAction::Abort(SuperviseError::OutOfTurn)
    ));
    assert_eq!(s.phase(), Phase::Terminated { success: false });
}

#[test]
fn a_stream_that_was_not_captured_counts_as_ended() {
    let (mut s, _) = Supervisor::new(echo_hello());
    s.step(SuperviseEvent::Launched);
    assert!(matches!(
        s.step(SuperviseEvent::ReadersStarted { stdout: false, stderr: true }),
        SuperviseAction::Join(StreamTag::Stderr)
    ));
    assert!(matches!(
        s.step(SuperviseEvent::StreamEnded(StreamTag::Stderr)),
        SuperviseAction::Wait
    ));
    let (mut s, _) = Supervisor::new(echo_hello());
    s.step(SuperviseEvent::Launched);
    assert!(matches!(
        s.step(SuperviseEvent::ReadersStarted { stdout: false, stderr: false }),
        SuperviseAction::Wait
    ));
}

#[test]
fn a_failed_wait_fails_the_supervision() {
    let mut s = drained(echo_hello());
    match s.step(SuperviseEvent::WaitFailed { detail: "gone".to_string() }) {
        SuperviseAction::Abort(e) => {
            assert!(matches!(e, SuperviseError::Wait { .. }));
            assert_eq!(e.message(), "failed to wait for the command: gone");
        }
        other => panic!("unexpected: {:?}", other),
    }
}

#[test]
fn nothing_follows_the_end_of_a_supervision() {
    let mut s = drained(echo_hello());
    let exited =
        ExitOutcome::Exited { success: true, code: Some(0), status: "exit status: 0".to_string() };
    s.step(SuperviseEvent::Outcome(exited));
    assert!(matches!(
        s.step(SuperviseEvent::Launched),
        SuperviseAction::Abort(SuperviseError::OutOfTurn)
    ));
    assert_eq!(s.phase(), Phase::Terminated { success: true });
    assert_eq!(
        SuperviseError::OutOfTurn.message(),
        "supervision was told of a step it did not ask for"
    );
}

#[test]
fn steps_out_of_turn_fail_the_supervision() {
    let (mut s, _) = Supervisor::new(echo_hello());
    assert!(matches!(
        s.step(SuperviseEvent::StreamEnded(StreamTag::Stdout)),
        SuperviseAction::Abort(SuperviseError::OutOfTurn)
    ));
    assert_eq!(s.phase(), Phase::Terminated { success: false });
    let (mut s, _) = Supervisor::new(echo_hello());
    s.step(SuperviseEvent::Launched);
    assert!(matches!(
        s.step(SuperviseEvent::Launched),
        SuperviseAction::Abort(SuperviseError::OutOfTurn)
    ));
}
