//! The lifecycle state machine of one cluster run. It decides, from the
//! current phase and the event the caller observed, the next phase and the
//! terminal outcome; the caller performs the filesystem and process work
//! between steps and reports back what happened.

use vstd::prelude::*;

use crate::args::{Args, ControllingActivity};
use crate::errors::{DirError, Error, Signal};
use crate::provision::{ClusterDirectory, PathState, ProvisionPlan};

verus! {

/// Where the run stands in the fixed sequence: provisioning, initialization,
/// configuration patch, server start and readiness, database creation, the
/// controlling activity, and the final wait.
#[derive(Clone, Copy, Debug, PartialEq, Eq, Structural)]
pub enum Phase {
    /// Look at what is on disk at the target path.
    Inspect,
    /// The path was missing: create the directory.
    Create,
    /// Run the initializer against the fresh directory.
    Init,
    /// Append the configuration patch.
    Patch,
    /// Start the server and wait for its readiness marker.
    Server,
    /// Run the database-creation command.
    MakeDb,
    /// Spawn the controlling activity.
    SpawnControl,
    /// Wait for the controlling process to finish.
    AwaitControl,
    /// No controlling activity: wait for any signal.
    AwaitSignal,
    /// The run is over; the outcome is recorded.
    Done,
}

/// What the caller observed while performing the current phase's work.
pub enum Event {
    /// What was found at the target path.
    DirectoryInspected(PathState),
    /// The missing directory was created.
    DirectoryCreated,
    /// Creating the missing directory failed; the payload is the cause's text.
    DirectoryCreateFailed(String),
    /// The current step's process ran and was waited on without incident.
    StepCompleted,
    /// Spawning the current step's process failed.
    SpawnFailed { program: String, error: String },
    /// Appending the configuration patch failed; the payload is the cause's text.
    PatchFailed { error: String },
    /// The controlling process was spawned.
    Spawned,
    /// The server printed its readiness marker.
    ServerReady,
    /// The controlling process exited.
    ControllingExited,
    /// The supervisor observed an OS signal.
    SignalObserved(Signal),
    /// A child other than the one being waited on terminated.
    ChildTerminated { pid: u64, prog_path: String, exit_status: Option<i32> },
}

/// What the caller must do next.
#[derive(Clone, Copy, Debug, PartialEq, Eq, Structural)]
pub enum Action {
    InspectDirectory,
    CreateDirectory,
    RunInitDb,
    PatchConfig,
    StartServer,
    RunCreateDb,
    SpawnInteractive,
    SpawnUserCommand,
    AwaitControlling,
    AwaitAnySignal,
    Finish,
}

/// The state machine itself: the run's fixed inputs, the phase, the
/// provisioned directory once there is one, and the outcome once the run
/// is over.
#[verifier::ext_equal]
pub struct Orchestrator {
    pub directory: String,
    pub port: Option<u16>,
    pub use_existing_dir: bool,
    pub controlling: ControllingActivity,
    pub phase: Phase,
    pub dir: Option<ClusterDirectory>,
    pub outcome: Option<Result<(), Error>>,
}

/// The phases that exist only to set up a fresh directory; a run that
/// reuses an existing one never enters them.
pub open spec fn is_setup_phase(p: Phase) -> bool {
    p is Init || p is Patch || p is MakeDb
}

/// The phases that follow a successful provisioning of the directory.
pub open spec fn is_provisioned_phase(p: Phase) -> bool {
    is_setup_phase(p) || p is Server || p is SpawnControl || p is AwaitControl
        || p is AwaitSignal
}

impl Orchestrator {
    /// The machine's invariant: the outcome exists exactly when the run is
    /// over, the directory record is well-formed and names the target path,
    /// every phase past provisioning has that record, and a run over an
    /// existing directory never enters a setup phase.
    pub open spec fn wf(self) -> bool {
        &&& (self.phase is Done <==> self.outcome is Some)
        &&& (self.dir matches Some(d) ==> d.wf() && d.path == self.directory)
        &&& (is_provisioned_phase(self.phase) ==> self.dir is Some)
        &&& (self.use_existing_dir ==> !is_setup_phase(self.phase))
    }

    /// Whether this run created the directory (false until it did).
    pub open spec fn spec_created_by_us(self) -> bool {
        self.dir matches Some(d) && d.created_by_us
    }
}

/// End the run with the given error.
pub open spec fn spec_fail(o: Orchestrator, e: Error) -> Orchestrator {
    Orchestrator { phase: Phase::Done, outcome: Some(Err(e)), ..o }
}

/// The phase after the directory stands: straight to the server for a
/// reused directory, else initialization first.
pub open spec fn spec_after_provision(o: Orchestrator) -> Phase {
    if o.use_existing_dir {
        Phase::Server
    } else {
        Phase::Init
    }
}

/// The phase once the server is up and any database creation is done:
/// spawn the controlling activity, or go passive when there is none.
pub open spec fn spec_control_phase(o: Orchestrator) -> Phase {
    if o.controlling is NoActivity {
        Phase::AwaitSignal
    } else {
        Phase::SpawnControl
    }
}

/// The full transition relation of the machine, one case per observable
/// event in each phase. A hangup-class signal is terminal wherever it is
/// observed; an event that the current phase cannot produce changes
/// nothing; a finished run absorbs everything. The provisioning arms follow
/// `spec_plan_provision`, the one statement of that decision.
pub open spec fn spec_step(o: Orchestrator, ev: Event) -> Orchestrator {
    if o.phase is Done {
        o
    } else if ev matches Event::SignalObserved(Signal::Hangup) {
        spec_fail(o, Error::Interrupt { signal: Signal::Hangup })
    } else {
        match (o.phase, ev) {
            (Phase::Inspect, Event::DirectoryInspected(st)) => match crate::provision::spec_plan_provision(
                st,
                o.use_existing_dir,
            ) {
                Ok(ProvisionPlan::UseExisting) => Orchestrator {
                    phase: spec_after_provision(o),
                    dir: Some(crate::provision::spec_existing_dir(o.directory)),
                    ..o
                },
                Ok(ProvisionPlan::CreateNew) => Orchestrator { phase: Phase::Create, ..o },
                Err(e) => spec_fail(o, Error::DirError { dir_path: o.directory, error: e }),
            },
            (Phase::Create, Event::DirectoryCreated) => Orchestrator {
                phase: spec_after_provision(o),
                dir: Some(crate::provision::spec_created_dir(o.directory)),
                ..o
            },
            (Phase::Create, Event::DirectoryCreateFailed(cause)) => spec_fail(
                o,
                Error::DirError { dir_path: o.directory, error: DirError::CreateFailed(cause) },
            ),
            (Phase::Init, Event::StepCompleted) => Orchestrator { phase: Phase::Patch, ..o },
            (Phase::Init, Event::SpawnFailed { program, error }) => spec_fail(
                o,
                Error::InitDbError { error },
            ),
            (Phase::Init, Event::SignalObserved(s)) => spec_fail(
                o,
                Error::Interrupt { signal: s },
            ),
            (Phase::Init, Event::ChildTerminated { pid, prog_path, exit_status }) => spec_fail(
                o,
                Error::UnexpectedChildTerminated { pid, prog_path, exit_status },
            ),
            (Phase::Patch, Event::StepCompleted) => Orchestrator { phase: Phase::Server, ..o },
            (Phase::Patch, Event::PatchFailed { error }) => spec_fail(
                o,
                Error::ConfigPatchFailed { error },
            ),
            (Phase::Server, Event::SpawnFailed { program, error }) => spec_fail(
                o,
                Error::ServerNotReady { error },
            ),
            (Phase::Server, Event::ServerReady) => Orchestrator {
                phase: if o.use_existing_dir {
                    spec_control_phase(o)
                } else {
                    Phase::MakeDb
                },
                ..o
            },
            (Phase::Server, Event::SignalObserved(s)) => spec_fail(
                o,
                Error::Interrupt { signal: s },
            ),
            (Phase::Server, Event::ChildTerminated { pid, prog_path, exit_status }) => spec_fail(
                o,
                Error::UnexpectedChildTerminated { pid, prog_path, exit_status },
            ),
            (Phase::MakeDb, Event::StepCompleted) => Orchestrator {
                phase: spec_control_phase(o),
                ..o
            },
            (Phase::MakeDb, Event::SpawnFailed { program, error }) => spec_fail(
                o,
                Error::CreateDbError { error },
            ),
            (Phase::MakeDb, Event::SignalObserved(s)) => spec_fail(
                o,
                Error::Interrupt { signal: s },
            ),
            (Phase::MakeDb, Event::ChildTerminated { pid, prog_path, exit_status }) => spec_fail(
                o,
                Error::UnexpectedChildTerminated { pid, prog_path, exit_status },
            ),
            (Phase::SpawnControl, Event::Spawned) => Orchestrator {
                phase: Phase::AwaitControl,
                ..o
            },
            (Phase::SpawnControl, Event::SpawnFailed { program, error }) => spec_fail(
                o,
                Error::AroundError { prog_path: program, error },
            ),
            (Phase::AwaitControl, Event::ControllingExited) => Orchestrator {
                phase: Phase::Done,
                outcome: Some(Ok(())),
                ..o
            },
            (Phase::AwaitControl, Event::SignalObserved(s)) => o,
            (Phase::AwaitControl, Event::ChildTerminated { pid, prog_path, exit_status }) =>
                spec_fail(
                o,
                Error::UnexpectedChildTerminated { pid, prog_path, exit_status },
            ),
            (Phase::AwaitSignal, Event::SignalObserved(s)) => spec_fail(
                o,
                Error::Interrupt { signal: s },
            ),
            _ => o,
        }
    }
}

/// The work each phase asks of the caller.
pub open spec fn spec_action(o: Orchestrator) -> Action {
    match o.phase {
        Phase::Inspect => Action::InspectDirectory,
        Phase::Create => Action::CreateDirectory,
        Phase::Init => Action::RunInitDb,
        Phase::Patch => Action::PatchConfig,
        Phase::Server => Action::StartServer,
        Phase::MakeDb => Action::RunCreateDb,
        Phase::SpawnControl => if o.controlling is InteractiveSession {
            Action::SpawnInteractive
        } else {
            Action::SpawnUserCommand
        },
        Phase::AwaitControl => Action::AwaitControlling,
        Phase::AwaitSignal => Action::AwaitAnySignal,
        Phase::Done => Action::Finish,
    }
}

impl Orchestrator {
    /// A fresh machine for the given input: at the inspection phase, with
    /// no directory record and no outcome, and the controlling activity
    /// decided once, up front.
    pub fn new(args: &Args) -> (o: Orchestrator)
        ensures
            o.wf(),
            o.phase is Inspect,
            o.directory == args.directory,
            o.port == args.port,
            o.use_existing_dir == args.use_existing_dir,
            o.dir is None,
            o.outcome is None,
            args.psql ==> o.controlling is InteractiveSession,
            !args.psql && args.around@.len() > 0 ==> (o.controlling
                matches ControllingActivity::UserCommand { program, cmd_args } && program
                == args.around@[0] && cmd_args@ == args.around@.skip(1)),
            !args.psql && args.around@.len() == 0 ==> o.controlling is NoActivity,
    {
        Orchestrator {
            directory: args.directory.clone(),
            port: args.port,
            use_existing_dir: args.use_existing_dir,
            controlling: crate::args::choose_controlling(args.psql, &args.around),
            phase: Phase::Inspect,
            dir: None,
            outcome: None,
        }
    }

    /// What the caller must do next.
    pub fn current_action(&self) -> (a: Action)
        ensures
            a == spec_action(*self),
    {
        match self.phase {
            Phase::Inspect => Action::InspectDirectory,
            Phase::Create => Action::CreateDirectory,
            Phase::Init => Action::RunInitDb,
            Phase::Patch => Action::PatchConfig,
            Phase::Server => Action::StartServer,
            Phase::MakeDb => Action::RunCreateDb,
            Phase::SpawnControl => {
                if matches!(self.controlling, ControllingActivity::InteractiveSession) {
                    Action::SpawnInteractive
                } else {
                    Action::SpawnUserCommand
                }
            },
            Phase::AwaitControl => Action::AwaitControlling,
            Phase::AwaitSignal => Action::AwaitAnySignal,
            Phase::Done => Action::Finish,
        }
    }

    /// Whether this run created the directory.
    pub fn created_by_us(&self) -> (r: bool)
        ensures
            r == self.spec_created_by_us(),
    {
        match &self.dir {
            Some(d) => d.created_by_us,
            None => false,
        }
    }

    /// Advance the machine by one observed event.
    pub fn step(&mut self, ev: Event)
        requires
            old(self).wf(),
        ensures
            *final(self) =~= spec_step(*old(self), ev),
            final(self).wf(),
    {
        if matches!(self.phase, Phase::Done) {
            return ;
        }
        if matches!(ev, Event::SignalObserved(Signal::Hangup)) {
            self.phase = Phase::Done;
            self.outcome = Some(Err(Error::Interrupt { signal: Signal::Hangup }));
            return ;
        }
        match (self.phase, ev) {
            (Phase::Inspect, Event::DirectoryInspected(st)) => match crate::provision::plan_provision(
                st,
                self.use_existing_dir,
            ) {
                Ok(ProvisionPlan::UseExisting) => {
                    self.dir = Some(
                        crate::provision::provisioned_existing(self.directory.clone()),
                    );
                    self.phase = self.after_provision();
                },
                Ok(ProvisionPlan::CreateNew) => {
                    self.phase = Phase::Create;
                },
                Err(e) => {
                    self.phase = Phase::Done;
                    self.outcome = Some(
                        Err(Error::DirError { dir_path: self.directory.clone(), error: e }),
                    );
                },
            },
            (Phase::Create, Event::DirectoryCreated) => {
                match crate::provision::provisioned_created(self.directory.clone(), Ok(())) {
                    Ok(d) => {
                        self.dir = Some(d);
                        self.phase = self.after_provision();
                    },
                    Err(_) => {
                        // provisioned_created never fails on a successful creation
                    },
                }
            },
            (Phase::Create, Event::DirectoryCreateFailed(cause)) => {
                match crate::provision::provisioned_created(
                    self.directory.clone(),
                    Err(cause),
                ) {
                    Err(e) => {
                        self.phase = Phase::Done;
                        self.outcome = Some(
                            Err(
                                Error::DirError { dir_path: self.directory.clone(), error: e },
                            ),
                        );
                    },
                    Ok(_) => {
                        // provisioned_created never succeeds on a failed creation
                    },
                }
            },
            (Phase::Init, Event::StepCompleted) => {
                self.phase = Phase::Patch;
            },
            (Phase::Init, Event::SpawnFailed { program: _, error }) => {
                self.phase = Phase::Done;
                self.outcome = Some(Err(Error::InitDbError { error }));
            },
            (Phase::Init, Event::SignalObserved(s)) => {
                self.phase = Phase::Done;
                self.outcome = Some(Err(Error::Interrupt { signal: s }));
            },
            (Phase::Init, Event::ChildTerminated { pid, prog_path, exit_status }) => {
                self.phase = Phase::Done;
                self.outcome = Some(
                    Err(Error::UnexpectedChildTerminated { pid, prog_path, exit_status }),
                );
            },
            (Phase::Patch, Event::StepCompleted) => {
                self.phase = Phase::Server;
            },
            (Phase::Patch, Event::PatchFailed { error }) => {
                self.phase = Phase::Done;
                self.outcome = Some(Err(Error::ConfigPatchFailed { error }));
            },
            (Phase::Server, Event::SpawnFailed { program: _, error }) => {
                self.phase = Phase::Done;
                self.outcome = Some(Err(Error::ServerNotReady { error }));
            },
            (Phase::Server, Event::ServerReady) => {
                if self.use_existing_dir {
                    self.phase = self.control_phase();
                } else {
                    self.phase = Phase::MakeDb;
                }
            },
            (Phase::Server, Event::SignalObserved(s)) => {
                self.phase = Phase::Done;
                self.outcome = Some(Err(Error::Interrupt { signal: s }));
            },
            (Phase::Server, Event::ChildTerminated { pid, prog_path, exit_status }) => {
                self.phase = Phase::Done;
                self.outcome = Some(
                    Err(Error::UnexpectedChildTerminated { pid, prog_path, exit_status }),
                );
            },
            (Phase::MakeDb, Event::StepCompleted) => {
                self.phase = self.control_phase();
            },
            (Phase::MakeDb, Event::SpawnFailed { program: _, error }) => {
                self.phase = Phase::Done;
                self.outcome = Some(Err(Error::CreateDbError { error }));
            },
            (Phase::MakeDb, Event::SignalObserved(s)) => {
                self.phase = Phase::Done;
                self.outcome = Some(Err(Error::Interrupt { signal: s }));
            },
            (Phase::MakeDb, Event::ChildTerminated { pid, prog_path, exit_status }) => {
                self.phase = Phase::Done;
                self.outcome = Some(
                    Err(Error::UnexpectedChildTerminated { pid, prog_path, exit_status }),
                );
            },
            (Phase::SpawnControl, Event::Spawned) => {
                self.phase = Phase::AwaitControl;
            },
            (Phase::SpawnControl, Event::SpawnFailed { program, error }) => {
                self.phase = Phase::Done;
                self.outcome = Some(Err(Error::AroundError { prog_path: program, error }));
            },
            (Phase::AwaitControl, Event::ControllingExited) => {
                self.phase = Phase::Done;
                self.outcome = Some(Ok(()));
            },
            (Phase::AwaitControl, Event::SignalObserved(_)) => {},
            (Phase::AwaitControl, Event::ChildTerminated { pid, prog_path, exit_status }) => {
                self.phase = Phase::Done;
                self.outcome = Some(
                    Err(Error::UnexpectedChildTerminated { pid, prog_path, exit_status }),
                );
            },
            (Phase::AwaitSignal, Event::SignalObserved(s)) => {
                self.phase = Phase::Done;
                self.outcome = Some(Err(Error::Interrupt { signal: s }));
            },
            _ => {},
        }
    }

    /// The phase after provisioning, as executable code.
    fn after_provision(&self) -> (p: Phase)
        ensures
            p == spec_after_provision(*self),
    {
        if self.use_existing_dir {
            Phase::Server
        } else {
            Phase::Init
        }
    }

    /// The phase after server readiness and database creation, as
    /// executable code.
    fn control_phase(&self) -> (p: Phase)
        ensures
            p == spec_control_phase(*self),
    {
        if matches!(self.controlling, ControllingActivity::NoActivity) {
            Phase::AwaitSignal
        } else {
            Phase::SpawnControl
        }
    }
}

/// The machine after a whole sequence of observed events, first one first.
pub open spec fn spec_run(o: Orchestrator, evs: Seq<Event>) -> Orchestrator
    decreases evs.len(),
{
    if evs.len() == 0 {
        o
    } else {
        spec_run(spec_step(o, evs[0]), evs.skip(1))
    }
}

/// One step keeps the machine well-formed and never touches the run's
/// fixed inputs.
pub proof fn lemma_step_preserves_wf(o: Orchestrator, ev: Event)
    requires
        o.wf(),
    ensures
        spec_step(o, ev).wf(),
        spec_step(o, ev).use_existing_dir == o.use_existing_dir,
        spec_step(o, ev).controlling == o.controlling,
        spec_step(o, ev).directory == o.directory,
        spec_step(o, ev).port == o.port,
{
}

/// A run over an existing directory never performs a setup step: from any
/// well-formed state of such a run, no event leads into initialization,
/// configuration patching or database creation, and the machine never asks
/// for those actions.
pub proof fn lemma_reuse_skips_setup(o: Orchestrator, ev: Event)
    requires
        o.wf(),
        o.use_existing_dir,
    ensures
        !is_setup_phase(spec_step(o, ev).phase),
        spec_action(o) != Action::RunInitDb,
        spec_action(o) != Action::PatchConfig,
        spec_action(o) != Action::RunCreateDb,
{
}

/// Over any whole sequence of events, a run that reuses an existing
/// directory never reaches a setup phase, so initialization, configuration
/// patching and database creation are never asked for at any point of the
/// run.
pub proof fn lemma_reuse_never_reaches_setup(o: Orchestrator, evs: Seq<Event>)
    requires
        o.wf(),
        o.use_existing_dir,
    ensures
        spec_run(o, evs).wf(),
        !is_setup_phase(spec_run(o, evs).phase),
        spec_action(spec_run(o, evs)) != Action::RunInitDb,
        spec_action(spec_run(o, evs)) != Action::PatchConfig,
        spec_action(spec_run(o, evs)) != Action::RunCreateDb,
    decreases evs.len(),
{
    if evs.len() > 0 {
        lemma_step_preserves_wf(o, evs[0]);
        lemma_reuse_never_reaches_setup(spec_step(o, evs[0]), evs.skip(1));
    }
}

/// While a controlling process is being awaited, a non-hangup signal is
/// absorbed: the machine's state does not change, and the run keeps
/// waiting.
pub proof fn lemma_nonhangup_absorbed(o: Orchestrator, s: Signal)
    requires
        o.wf(),
        o.phase is AwaitControl,
        s != Signal::Hangup,
    ensures
        spec_step(o, Event::SignalObserved(s)) == o,
{
}

/// A hangup-class signal observed at any point of a live run ends it with
/// the hangup interruption as its outcome.
pub proof fn lemma_hangup_terminal(o: Orchestrator)
    requires
        o.wf(),
        !(o.phase is Done),
    ensures
        spec_step(o, Event::SignalObserved(Signal::Hangup)).phase is Done,
        spec_step(o, Event::SignalObserved(Signal::Hangup)).outcome == Some(
            Err::<(), Error>(Error::Interrupt { signal: Signal::Hangup }),
        ),
{
}

/// With no controlling activity, any signal at all ends the passive run
/// with an interruption carrying that signal.
pub proof fn lemma_passive_signal_ends_run(o: Orchestrator, s: Signal)
    requires
        o.wf(),
        o.phase is AwaitSignal,
    ensures
        spec_step(o, Event::SignalObserved(s)).phase is Done,
        spec_step(o, Event::SignalObserved(s)).outcome == Some(
            Err::<(), Error>(Error::Interrupt { signal: s }),
        ),
{
}

} // verus!
