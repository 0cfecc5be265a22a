//! Error taxonomy of a cluster run, and the signals that can end one.

use vstd::prelude::*;

use crate::numfmt::{dec_str, dec_str_signed, push_decimal, push_decimal_i32};

verus! {

/// An OS signal as the process supervisor reports it. `Hangup` is special:
/// it means the controlling terminal is gone, so no prompt can be answered.
#[derive(Clone, Copy, Debug, PartialEq, Eq, Structural)]
pub enum Signal {
    Hangup,
    Interrupt,
    Terminate,
}

/// Why provisioning the cluster directory failed.
#[derive(Clone, Debug)]
pub enum DirError {
    /// Creating a fresh directory failed; the payload is the cause's text.
    CreateFailed(String),
    /// The path exists but is a file, not a directory.
    IsFile,
    /// The path is a directory that already has entries, and reuse was not requested.
    IsNonempty,
}

/// Everything that can abort a run.
#[derive(Clone, Debug)]
pub enum Error {
    DirError { dir_path: String, error: DirError },
    Interrupt { signal: Signal },
    UnexpectedChildTerminated { pid: u64, prog_path: String, exit_status: Option<i32> },
    InitDbError { error: String },
    /// The server could not be brought to readiness: it was never spawned.
    ServerNotReady { error: String },
    /// The database-creation command could not be spawned.
    CreateDbError { error: String },
    /// Appending the configuration patch failed.
    ConfigPatchFailed { error: String },
    AroundError { prog_path: String, error: String },
    InitDbBadExit,
}

/// The name of a signal, as reports spell it.
pub open spec fn spec_signal_name(s: Signal) -> Seq<char> {
    match s {
        Signal::Hangup => "Hangup"@,
        Signal::Interrupt => "Interrupt"@,
        Signal::Terminate => "Terminate"@,
    }
}

/// How a child's exit is reported: its code when it exited, otherwise a
/// note that a signal ended it.
pub open spec fn spec_exit_text(exit_status: Option<i32>) -> Seq<char> {
    match exit_status {
        Some(code) => "exit status: "@ + dec_str_signed(code as int),
        None => "signal"@,
    }
}

/// The human-readable account of a provisioning failure at `path`.
pub open spec fn spec_dir_error_message(path: Seq<char>, e: DirError) -> Seq<char> {
    match e {
        DirError::CreateFailed(cause) => "create "@ + path + " dir failed with "@ + cause@,
        DirError::IsFile => path + " is a file, but a directory was expected"@,
        DirError::IsNonempty => path + " is a nonempty directory"@,
    }
}

/// The human-readable account of each error.
pub open spec fn spec_message(e: Error) -> Seq<char> {
    match e {
        Error::DirError { dir_path, error } => spec_dir_error_message(dir_path@, error),
        Error::Interrupt { signal } => "Interrupted by signal: "@ + spec_signal_name(signal),
        Error::UnexpectedChildTerminated { pid, prog_path, exit_status } => prog_path@ + " ["@
            + dec_str(pid as nat) + "] terminated unexpectedly with "@ + spec_exit_text(
            exit_status,
        ),
        Error::InitDbError { error } => "initdb failed with "@ + error@,
        Error::ServerNotReady { error } => "server did not become ready: "@ + error@,
        Error::CreateDbError { error } => "createdb failed with "@ + error@,
        Error::ConfigPatchFailed { error } => "patching the configuration failed with "@ + error@,
        Error::AroundError { prog_path, error } => "Failed to spawn "@ + prog_path@ + ": "@
            + error@,
        Error::InitDbBadExit => "initdb exited with a non-zero code"@,
    }
}

impl Signal {
    /// The signal's name as a string.
    pub fn name(&self) -> (r: &'static str)
        ensures
            r@ == spec_signal_name(*self),
    {
        match self {
            Signal::Hangup => "Hangup",
            Signal::Interrupt => "Interrupt",
            Signal::Terminate => "Terminate",
        }
    }
}

impl Error {
    /// Render the error for the user, exactly as `spec_message` states it.
    pub fn message(&self) -> (r: String)
        ensures
            r@ == spec_message(*self),
    {
        let mut r = String::new();
        match self {
            Error::DirError { dir_path, error } => {
                match error {
                    DirError::CreateFailed(cause) => {
                        r.append("create ");
                        r.append(dir_path.as_str());
                        r.append(" dir failed with ");
                        r.append(cause.as_str());
                    },
                    DirError::IsFile => {
                        r.append(dir_path.as_str());
                        r.append(" is a file, but a directory was expected");
                    },
                    DirError::IsNonempty => {
                        r.append(dir_path.as_str());
                        r.append(" is a nonempty directory");
                    },
                }
            },
            Error::Interrupt { signal } => {
                r.append("Interrupted by signal: ");
                r.append(signal.name());
            },
            Error::UnexpectedChildTerminated { pid, prog_path, exit_status } => {
                r.append(prog_path.as_str());
                r.append(" [");
                push_decimal(*pid, &mut r);
                r.append("] terminated unexpectedly with ");
                match exit_status {
                    Some(code) => {
                        r.append("exit status: ");
                        push_decimal_i32(*code, &mut r);
                    },
                    None => {
                        r.append("signal");
                    },
                }
            },
            Error::InitDbError { error } => {
                r.append("initdb failed with ");
                r.append(error.as_str());
            },
            Error::ServerNotReady { error } => {
                r.append("server did not become ready: ");
                r.append(error.as_str());
            },
            Error::CreateDbError { error } => {
                r.append("createdb failed with ");
                r.append(error.as_str());
            },
            Error::ConfigPatchFailed { error } => {
                r.append("patching the configuration failed with ");
                r.append(error.as_str());
            },
            Error::AroundError { prog_path, error } => {
                r.append("Failed to spawn ");
                r.append(prog_path.as_str());
                r.append(": ");
                r.append(error.as_str());
            },
            Error::InitDbBadExit => {
                r.append("initdb exited with a non-zero code");
            },
        }
        proof {
            assert(r@ =~= spec_message(*self));
        }
        r
    }
}

} // verus!
