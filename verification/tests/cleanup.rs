use pg_mux::cleanup::{
    exit_code, hangup_interrupted, needs_prompt, policy_of_flag, resolve_removal, should_delete,
    RemovalPolicy,
};
use pg_mux::errors::{Error, Signal};

#[test]
fn flag_maps_to_tri_state_policy() {
    assert_eq!(policy_of_flag(Some(true)), RemovalPolicy::AlwaysRemove);
    assert_eq!(policy_of_flag(Some(false)), RemovalPolicy::NeverRemove);
    assert_eq!(policy_of_flag(None), RemovalPolicy::AskInteractively);
}

#[test]
fn hangup_overrides_ask_to_always() {
    let hangup: Result<(), Error> = Err(Error::Interrupt { signal: Signal::Hangup });
    assert!(hangup_interrupted(&hangup));
    assert_eq!(
        resolve_removal(RemovalPolicy::AskInteractively, &hangup),
        RemovalPolicy::AlwaysRemove
    );
    // The override touches nothing but the ask case.
    assert_eq!(resolve_removal(RemovalPolicy::NeverRemove, &hangup), RemovalPolicy::NeverRemove);
    assert_eq!(resolve_removal(RemovalPolicy::AlwaysRemove, &hangup), RemovalPolicy::AlwaysRemove);
}

#[test]
fn other_outcomes_keep_the_policy() {
    let ok: Result<(), Error> = Ok(());
    let intr: Result<(), Error> = Err(Error::Interrupt { signal: Signal::Interrupt });
    assert!(!hangup_interrupted(&ok));
    assert!(!hangup_interrupted(&intr));
    assert_eq!(
        resolve_removal(RemovalPolicy::AskInteractively, &ok),
        RemovalPolicy::AskInteractively
    );
    assert_eq!(
        resolve_removal(RemovalPolicy::AskInteractively, &intr),
        RemovalPolicy::AskInteractively
    );
}

#[test]
fn only_the_creating_run_may_delete() {
    assert!(!should_delete(false, RemovalPolicy::AlwaysRemove, true));
    assert!(should_delete(true, RemovalPolicy::AlwaysRemove, false));
    assert!(!should_delete(true, RemovalPolicy::NeverRemove, true));
    assert!(should_delete(true, RemovalPolicy::AskInteractively, true));
    assert!(!should_delete(true, RemovalPolicy::AskInteractively, false));
}

#[test]
fn prompt_only_for_owned_directory_under_ask() {
    assert!(needs_prompt(true, RemovalPolicy::AskInteractively));
    assert!(!needs_prompt(false, RemovalPolicy::AskInteractively));
    assert!(!needs_prompt(true, RemovalPolicy::AlwaysRemove));
    assert!(!needs_prompt(true, RemovalPolicy::NeverRemove));
}

#[test]
fn exit_codes() {
    let ok: Result<(), Error> = Ok(());
    let err: Result<(), Error> = Err(Error::InitDbBadExit);
    assert_eq!(exit_code(&ok), 0);
    assert_eq!(exit_code(&err), 1);
}
