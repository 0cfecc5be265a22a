//! Cleanup policy: whether the cluster directory is removed once the run is
//! over, and which exit code the run reports.

use vstd::prelude::*;

use crate::errors::{Error, Signal};

verus! {

/// What to do with a directory this run created, once the run ends.
#[derive(Clone, Copy, Debug, PartialEq, Eq, Structural)]
pub enum RemovalPolicy {
    AlwaysRemove,
    NeverRemove,
    AskInteractively,
}

/// The tri-state removal flag as given on the command line: set true, set
/// false, or unset (ask at cleanup time).
pub fn policy_of_flag(flag: Option<bool>) -> (r: RemovalPolicy)
    ensures
        flag == Some(true) ==> r is AlwaysRemove,
        flag == Some(false) ==> r is NeverRemove,
        flag is None ==> r is AskInteractively,
{
    match flag {
        Some(true) => RemovalPolicy::AlwaysRemove,
        Some(false) => RemovalPolicy::NeverRemove,
        None => RemovalPolicy::AskInteractively,
    }
}

/// Whether the run ended because a hangup-class signal interrupted it.
pub open spec fn spec_hangup_interrupted(outcome: Result<(), Error>) -> bool {
    outcome matches Err(Error::Interrupt { signal: Signal::Hangup })
}

/// Test whether the run was ended by a hangup-class signal.
pub fn hangup_interrupted(outcome: &Result<(), Error>) -> (r: bool)
    ensures
        r == spec_hangup_interrupted(*outcome),
{
    match outcome {
        Err(Error::Interrupt { signal: Signal::Hangup }) => true,
        _ => false,
    }
}

/// Resolve the removal policy for cleanup. A hangup means no terminal is
/// left to answer a prompt, and an orphaned cluster directory is the worse
/// default, so `AskInteractively` becomes `AlwaysRemove` in that one case;
/// every other combination keeps the policy as it was.
pub fn resolve_removal(policy: RemovalPolicy, outcome: &Result<(), Error>) -> (r: RemovalPolicy)
    ensures
        policy is AskInteractively && spec_hangup_interrupted(*outcome) ==> r is AlwaysRemove,
        !(policy is AskInteractively && spec_hangup_interrupted(*outcome)) ==> r == policy,
{
    if matches!(policy, RemovalPolicy::AskInteractively) && hangup_interrupted(outcome) {
        RemovalPolicy::AlwaysRemove
    } else {
        policy
    }
}

/// Whether cleanup must put the removal question to the user: only for a
/// directory this run created, and only under the interactive policy.
pub fn needs_prompt(created_by_us: bool, policy: RemovalPolicy) -> (r: bool)
    ensures
        r == (created_by_us && policy is AskInteractively),
{
    created_by_us && matches!(policy, RemovalPolicy::AskInteractively)
}

/// Whether cleanup deletes the directory. Only the run that created it may
/// delete it; then the resolved policy decides, with `confirmed` standing
/// for the user's answer where the policy asks.
pub fn should_delete(created_by_us: bool, policy: RemovalPolicy, confirmed: bool) -> (r: bool)
    ensures
        r == (created_by_us && (policy is AlwaysRemove || (policy is AskInteractively
            && confirmed))),
{
    created_by_us && (matches!(policy, RemovalPolicy::AlwaysRemove) || (matches!(
        policy,
        RemovalPolicy::AskInteractively,
    ) && confirmed))
}

/// The process exit code for an outcome: zero on success, one on any error.
pub fn exit_code(outcome: &Result<(), Error>) -> (r: i32)
    ensures
        outcome is Ok <==> r == 0,
        outcome is Err <==> r == 1,
{
    match outcome {
        Ok(()) => 0,
        Err(_) => 1,
    }
}

} // verus!
