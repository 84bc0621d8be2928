//! The decisions behind installing the hook that receives every hash result
//! (for a zkVM to read back as a hint). The hook itself, the state word it is
//! guarded by and the atomic operations on it live with the caller; this
//! module says what each observed state leads to.

use vstd::prelude::*;

verus! {

/// No hook has been installed and none is being installed.
pub const UNINITIALIZED: usize = 0;

/// A hook is being installed.
pub const INITIALIZING: usize = 1;

/// A hook has been installed.
pub const INITIALIZED: usize = 2;

/// Returned when a hook had already been installed, or was being installed.
#[derive(Debug)]
pub struct SetZkvmHintHookError(pub(crate) ());

impl SetZkvmHintHookError {
    /// The error value.
    pub fn new() -> (r: SetZkvmHintHookError) {
        SetZkvmHintHookError(())
    }
}

/// What an attempt to install the hook does after it tried to move the state
/// from `UNINITIALIZED` to `INITIALIZING`.
#[derive(Debug, Clone, Copy, PartialEq, Eq)]
pub enum InstallAction {
    /// The attempt won: store the hook, set the state to `INITIALIZED`, and
    /// report success.
    Install,
    /// Another attempt is installing a hook: wait while the state is
    /// `INITIALIZING`, then report the error.
    WaitThenFail,
    /// A hook is already installed (or the state is unknown): report the
    /// error.
    Fail,
}

/// The action of an installation attempt, given the state that the
/// compare-and-exchange from `UNINITIALIZED` to `INITIALIZING` observed (on
/// success it observed `UNINITIALIZED`).
pub fn install_action(observed: usize) -> (a: InstallAction)
    ensures
        a == (if observed == UNINITIALIZED {
            InstallAction::Install
        } else if observed == INITIALIZING {
            InstallAction::WaitThenFail
        } else {
            InstallAction::Fail
        }),
{
    if observed == UNINITIALIZED {
        InstallAction::Install
    } else if observed == INITIALIZING {
        InstallAction::WaitThenFail
    } else {
        InstallAction::Fail
    }
}

/// The result that an installation attempt reports once its action is done.
pub fn install_result(action: InstallAction) -> (r: Result<(), SetZkvmHintHookError>)
    ensures
        r is Ok <==> action == InstallAction::Install,
{
    match action {
        InstallAction::Install => Ok(()),
        _ => Err(SetZkvmHintHookError::new()),
    }
}

/// Whether a waiting attempt keeps waiting in the given state.
pub fn keeps_waiting(state: usize) -> (r: bool)
    ensures
        r == (state == INITIALIZING),
{
    state == INITIALIZING
}

/// Whether a hash result is handed to the installed hook (rather than to the
/// default hook, which ignores it), given the state read with acquire
/// ordering.
pub fn hint_uses_hook(state: usize) -> (r: bool)
    ensures
        r == (state == INITIALIZED),
{
    state == INITIALIZED
}

} // verus!
