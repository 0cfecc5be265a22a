use pg_mux::args::{Args, ControllingActivity};
use pg_mux::cleanup::{exit_code, needs_prompt, policy_of_flag, resolve_removal, RemovalPolicy};
use pg_mux::errors::{Error, Signal};
use pg_mux::orchestrator::{Action, Event, Orchestrator, Phase};
use pg_mux::provision::PathState;

fn args(directory: &str) -> Args {
    Args {
        directory: String::from(directory),
        use_existing_dir: false,
        port: None,
        should_remove: None,
        psql: false,
        silent: false,
        around: Vec::new(),
    }
}

#[test]
fn fresh_directory_full_sequence_until_interrupt() {
    // Fresh missing directory, no port, no interactive session, no trailing
    // command: every setup step runs, then the run waits passively.
    let mut o = Orchestrator::new(&args("/tmp/db"));
    assert_eq!(o.current_action(), Action::InspectDirectory);
    o.step(Event::DirectoryInspected(PathState::Missing));
    assert_eq!(o.current_action(), Action::CreateDirectory);
    o.step(Event::DirectoryCreated);
    assert!(o.created_by_us());
    assert_eq!(o.current_action(), Action::RunInitDb);
    o.step(Event::StepCompleted);
    assert_eq!(o.current_action(), Action::PatchConfig);
    o.step(Event::StepCompleted);
    assert_eq!(o.current_action(), Action::StartServer);
    o.step(Event::ServerReady);
    assert_eq!(o.current_action(), Action::RunCreateDb);
    o.step(Event::StepCompleted);
    assert_eq!(o.current_action(), Action::AwaitAnySignal);
    o.step(Event::SignalObserved(Signal::Interrupt));
    assert_eq!(o.current_action(), Action::Finish);
    let outcome = o.outcome.clone().unwrap();
    assert!(matches!(outcome, Err(Error::Interrupt { signal: Signal::Interrupt })));
    assert_eq!(exit_code(&outcome), 1);
    // The removal flag was unset and the interrupt was not a hangup, so
    // cleanup still has to ask before deleting the directory it created.
    let policy = resolve_removal(policy_of_flag(None), &outcome);
    assert_eq!(policy, RemovalPolicy::AskInteractively);
    assert!(needs_prompt(o.created_by_us(), policy));
}

#[test]
fn existing_directory_with_port_and_trailing_command() {
    // Reused nonempty directory, explicit port, trailing command: no
    // initializer, no patch, no database creation; the command is the
    // controlling process and its normal exit ends the run successfully.
    let mut a = args("/tmp/db");
    a.use_existing_dir = true;
    a.port = Some(5433);
    a.around = vec![String::from("sleep"), String::from("1")];
    let mut o = Orchestrator::new(&a);
    match &o.controlling {
        ControllingActivity::UserCommand { program, cmd_args } => {
            assert_eq!(program, "sleep");
            assert_eq!(cmd_args, &vec![String::from("1")]);
        }
        _ => panic!("expected a user command"),
    }
    o.step(Event::DirectoryInspected(PathState::NonemptyDir));
    assert_eq!(o.current_action(), Action::StartServer);
    o.step(Event::ServerReady);
    assert_eq!(o.current_action(), Action::SpawnUserCommand);
    o.step(Event::Spawned);
    assert_eq!(o.current_action(), Action::AwaitControlling);
    o.step(Event::ControllingExited);
    assert_eq!(o.current_action(), Action::Finish);
    let outcome = o.outcome.clone().unwrap();
    assert!(outcome.is_ok());
    assert_eq!(exit_code(&outcome), 0);
    // The directory was not created by this run, so it is never deleted,
    // whatever the policy says.
    assert!(!o.created_by_us());
    assert!(!pg_mux::cleanup::should_delete(
        o.created_by_us(),
        RemovalPolicy::AlwaysRemove,
        true
    ));
}

#[test]
fn reuse_never_asks_for_setup_actions() {
    let mut a = args("/tmp/db");
    a.use_existing_dir = true;
    let mut o = Orchestrator::new(&a);
    let events = [
        Event::DirectoryInspected(PathState::EmptyDir),
        Event::ServerReady,
        Event::SignalObserved(Signal::Terminate),
    ];
    for ev in events {
        let action = o.current_action();
        assert_ne!(action, Action::RunInitDb);
        assert_ne!(action, Action::PatchConfig);
        assert_ne!(action, Action::RunCreateDb);
        o.step(ev);
    }
    assert_ne!(o.current_action(), Action::RunInitDb);
    assert!(matches!(o.phase, Phase::Done));
}

#[test]
fn nonhangup_signals_are_absorbed_while_controlling() {
    let mut a = args("/tmp/db");
    a.use_existing_dir = true;
    a.psql = true;
    let mut o = Orchestrator::new(&a);
    assert!(matches!(o.controlling, ControllingActivity::InteractiveSession));
    o.step(Event::DirectoryInspected(PathState::NonemptyDir));
    o.step(Event::ServerReady);
    assert_eq!(o.current_action(), Action::SpawnInteractive);
    o.step(Event::Spawned);
    // Two non-hangup signals arrive while the session is alive: the run
    // keeps waiting both times.
    o.step(Event::SignalObserved(Signal::Interrupt));
    assert_eq!(o.current_action(), Action::AwaitControlling);
    o.step(Event::SignalObserved(Signal::Terminate));
    assert_eq!(o.current_action(), Action::AwaitControlling);
    o.step(Event::ControllingExited);
    assert!(matches!(o.outcome, Some(Ok(()))));
}

#[test]
fn hangup_is_terminal_in_every_live_phase() {
    // Drive separate runs into different phases and hang each one up.
    let checkpoints: [&[Event]; 4] = [
        &[],
        &[Event::DirectoryInspected(PathState::Missing)],
        &[
            Event::DirectoryInspected(PathState::Missing),
            Event::DirectoryCreated,
        ],
        &[
            Event::DirectoryInspected(PathState::Missing),
            Event::DirectoryCreated,
            Event::StepCompleted,
            Event::StepCompleted,
        ],
    ];
    for events in checkpoints {
        let mut o = Orchestrator::new(&args("/tmp/db"));
        for ev in events.iter() {
            o.step(clone_event(ev));
        }
        o.step(Event::SignalObserved(Signal::Hangup));
        let outcome = o.outcome.clone().unwrap();
        assert!(matches!(outcome, Err(Error::Interrupt { signal: Signal::Hangup })));
        // A hangup leaves no terminal to answer a prompt: ask becomes remove.
        assert_eq!(
            resolve_removal(RemovalPolicy::AskInteractively, &outcome),
            RemovalPolicy::AlwaysRemove
        );
    }
}

#[test]
fn hangup_while_controlling_ends_the_run() {
    let mut a = args("/tmp/db");
    a.use_existing_dir = true;
    a.psql = true;
    let mut o = Orchestrator::new(&a);
    o.step(Event::DirectoryInspected(PathState::EmptyDir));
    o.step(Event::ServerReady);
    o.step(Event::Spawned);
    o.step(Event::SignalObserved(Signal::Hangup));
    assert!(matches!(
        o.outcome,
        Some(Err(Error::Interrupt { signal: Signal::Hangup }))
    ));
}

#[test]
fn passive_run_ends_on_any_signal() {
    for signal in [Signal::Hangup, Signal::Interrupt, Signal::Terminate] {
        let mut a = args("/tmp/db");
        a.use_existing_dir = true;
        let mut o = Orchestrator::new(&a);
        o.step(Event::DirectoryInspected(PathState::EmptyDir));
        o.step(Event::ServerReady);
        assert_eq!(o.current_action(), Action::AwaitAnySignal);
        o.step(Event::SignalObserved(signal));
        match o.outcome.clone().unwrap() {
            Err(Error::Interrupt { signal: s }) => assert_eq!(s, signal),
            other => panic!("expected an interruption, got {:?}", other),
        }
    }
}

#[test]
fn unexpected_child_termination_aborts() {
    let mut a = args("/tmp/db");
    a.use_existing_dir = true;
    a.psql = true;
    let mut o = Orchestrator::new(&a);
    o.step(Event::DirectoryInspected(PathState::EmptyDir));
    o.step(Event::ServerReady);
    o.step(Event::Spawned);
    o.step(Event::ChildTerminated {
        pid: 4242,
        prog_path: String::from("postgres"),
        exit_status: Some(1),
    });
    match o.outcome.clone().unwrap() {
        Err(Error::UnexpectedChildTerminated { pid, prog_path, exit_status }) => {
            assert_eq!(pid, 4242);
            assert_eq!(prog_path, "postgres");
            assert_eq!(exit_status, Some(1));
        }
        other => panic!("expected an unexpected-termination error, got {:?}", other),
    }
}

#[test]
fn setup_step_failures_abort_the_run() {
    // Config-patch failure.
    let mut o = Orchestrator::new(&args("/tmp/db"));
    o.step(Event::DirectoryInspected(PathState::Missing));
    o.step(Event::DirectoryCreated);
    o.step(Event::StepCompleted);
    assert_eq!(o.current_action(), Action::PatchConfig);
    o.step(Event::PatchFailed { error: String::from("read-only file system") });
    match o.outcome.clone().unwrap() {
        Err(Error::ConfigPatchFailed { error }) => assert_eq!(error, "read-only file system"),
        other => panic!("expected a patch failure, got {:?}", other),
    }

    // Server spawn failure.
    let mut o = Orchestrator::new(&args("/tmp/db"));
    o.step(Event::DirectoryInspected(PathState::Missing));
    o.step(Event::DirectoryCreated);
    o.step(Event::StepCompleted);
    o.step(Event::StepCompleted);
    assert_eq!(o.current_action(), Action::StartServer);
    o.step(Event::SpawnFailed {
        program: String::from("postgres"),
        error: String::from("not found"),
    });
    match o.outcome.clone().unwrap() {
        Err(Error::ServerNotReady { error }) => assert_eq!(error, "not found"),
        other => panic!("expected a server failure, got {:?}", other),
    }

    // Database-creation spawn failure.
    let mut o = Orchestrator::new(&args("/tmp/db"));
    o.step(Event::DirectoryInspected(PathState::Missing));
    o.step(Event::DirectoryCreated);
    o.step(Event::StepCompleted);
    o.step(Event::StepCompleted);
    o.step(Event::ServerReady);
    assert_eq!(o.current_action(), Action::RunCreateDb);
    o.step(Event::SpawnFailed {
        program: String::from("createdb"),
        error: String::from("not found"),
    });
    match o.outcome.clone().unwrap() {
        Err(Error::CreateDbError { error }) => assert_eq!(error, "not found"),
        other => panic!("expected a creation failure, got {:?}", other),
    }
}

#[test]
fn provisioning_failures_abort_with_the_directory_error() {
    let mut o = Orchestrator::new(&args("/tmp/db"));
    o.step(Event::DirectoryInspected(PathState::File));
    assert!(matches!(
        o.outcome,
        Some(Err(Error::DirError { error: pg_mux::errors::DirError::IsFile, .. }))
    ));

    let mut o = Orchestrator::new(&args("/tmp/db"));
    o.step(Event::DirectoryInspected(PathState::NonemptyDir));
    assert!(matches!(
        o.outcome,
        Some(Err(Error::DirError { error: pg_mux::errors::DirError::IsNonempty, .. }))
    ));

    let mut o = Orchestrator::new(&args("/tmp/db"));
    o.step(Event::DirectoryInspected(PathState::Missing));
    o.step(Event::DirectoryCreateFailed(String::from("disk full")));
    match o.outcome.clone().unwrap() {
        Err(Error::DirError { dir_path, error: pg_mux::errors::DirError::CreateFailed(cause) }) => {
            assert_eq!(dir_path, "/tmp/db");
            assert_eq!(cause, "disk full");
        }
        other => panic!("expected a creation failure, got {:?}", other),
    }
}

#[test]
fn spawn_failures_map_to_their_error_kinds() {
    // Initializer spawn failure.
    let mut o = Orchestrator::new(&args("/tmp/db"));
    o.step(Event::DirectoryInspected(PathState::Missing));
    o.step(Event::DirectoryCreated);
    o.step(Event::SpawnFailed {
        program: String::from("initdb"),
        error: String::from("not found"),
    });
    match o.outcome.clone().unwrap() {
        Err(Error::InitDbError { error }) => assert_eq!(error, "not found"),
        other => panic!("expected an initializer error, got {:?}", other),
    }

    // Controlling-command spawn failure.
    let mut a = args("/tmp/db");
    a.use_existing_dir = true;
    a.around = vec![String::from("nosuch")];
    let mut o = Orchestrator::new(&a);
    o.step(Event::DirectoryInspected(PathState::EmptyDir));
    o.step(Event::ServerReady);
    o.step(Event::SpawnFailed {
        program: String::from("nosuch"),
        error: String::from("not found"),
    });
    match o.outcome.clone().unwrap() {
        Err(Error::AroundError { prog_path, error }) => {
            assert_eq!(prog_path, "nosuch");
            assert_eq!(error, "not found");
        }
        other => panic!("expected a spawn error, got {:?}", other),
    }
}

fn clone_event(ev: &Event) -> Event {
    match ev {
        Event::DirectoryInspected(st) => Event::DirectoryInspected(*st),
        Event::DirectoryCreated => Event::DirectoryCreated,
        Event::DirectoryCreateFailed(c) => Event::DirectoryCreateFailed(c.clone()),
        Event::StepCompleted => Event::StepCompleted,
        Event::SpawnFailed { program, error } => Event::SpawnFailed {
            program: program.clone(),
            error: error.clone(),
        },
        Event::PatchFailed { error } => Event::PatchFailed { error: error.clone() },
        Event::Spawned => Event::Spawned,
        Event::ServerReady => Event::ServerReady,
        Event::ControllingExited => Event::ControllingExited,
        Event::SignalObserved(s) => Event::SignalObserved(*s),
        Event::ChildTerminated { pid, prog_path, exit_status } => Event::ChildTerminated {
            pid: *pid,
            prog_path: prog_path.clone(),
            exit_status: *exit_status,
        },
    }
}
