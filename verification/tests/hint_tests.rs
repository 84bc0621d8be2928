use poseidon_bn254::hint::{
    hint_uses_hook, install_action, install_result, keeps_waiting, InstallAction, INITIALIZED,
    INITIALIZING, UNINITIALIZED,
};

#[test]
fn test_install_actions() {
    assert_eq!(install_action(UNINITIALIZED), InstallAction::Install);
    assert_eq!(install_action(INITIALIZING), InstallAction::WaitThenFail);
    assert_eq!(install_action(INITIALIZED), InstallAction::Fail);
    assert_eq!(install_action(7), InstallAction::Fail);
}

#[test]
fn test_install_results() {
    assert!(install_result(InstallAction::Install).is_ok());
    assert!(install_result(InstallAction::WaitThenFail).is_err());
    assert!(install_result(InstallAction::Fail).is_err());
}

#[test]
fn test_waiting_and_hint() {
    assert!(keeps_waiting(INITIALIZING));
    assert!(!keeps_waiting(INITIALIZED));
    assert!(hint_uses_hook(INITIALIZED));
    assert!(!hint_uses_hook(UNINITIALIZED));
    assert!(!hint_uses_hook(INITIALIZING));
}
