use lapsus::settings::{
    control_state, default_logon_item_enabled, is_control_on, logon_item_action,
    logon_item_is_enabled, RegistrationAction, ServiceStatus, CONTROL_STATE_OFF, CONTROL_STATE_ON,
};

#[test]
fn enabling_login_item() {
    assert_eq!(logon_item_action(true, ServiceStatus::Enabled), RegistrationAction::Keep);
    assert_eq!(logon_item_action(true, ServiceStatus::RequiresApproval), RegistrationAction::Keep);
    assert_eq!(logon_item_action(true, ServiceStatus::NotRegistered), RegistrationAction::Register);
    assert_eq!(logon_item_action(true, ServiceStatus::NotFound), RegistrationAction::Register);
}

#[test]
fn disabling_login_item() {
    assert_eq!(logon_item_action(false, ServiceStatus::NotRegistered), RegistrationAction::Keep);
    assert_eq!(logon_item_action(false, ServiceStatus::Enabled), RegistrationAction::Unregister);
    assert_eq!(logon_item_action(false, ServiceStatus::RequiresApproval), RegistrationAction::Unregister);
    assert_eq!(logon_item_action(false, ServiceStatus::NotFound), RegistrationAction::Unregister);
}

#[test]
fn keep_only_when_settled() {
    for status in [
        ServiceStatus::NotRegistered,
        ServiceStatus::Enabled,
        ServiceStatus::RequiresApproval,
        ServiceStatus::NotFound,
    ] {
        for wanted in [false, true] {
            if logon_item_action(wanted, status) == RegistrationAction::Keep {
                assert_eq!(logon_item_is_enabled(status), wanted);
            }
        }
    }
}

#[test]
fn login_item_enabled_states() {
    assert!(logon_item_is_enabled(ServiceStatus::Enabled));
    assert!(logon_item_is_enabled(ServiceStatus::RequiresApproval));
    assert!(!logon_item_is_enabled(ServiceStatus::NotRegistered));
    assert!(!logon_item_is_enabled(ServiceStatus::NotFound));
}

#[test]
fn login_item_default_is_on() {
    assert!(default_logon_item_enabled());
}

#[test]
fn control_states() {
    assert_eq!(CONTROL_STATE_ON, 1);
    assert_eq!(CONTROL_STATE_OFF, 0);
    assert_eq!(control_state(true), 1);
    assert_eq!(control_state(false), 0);
    assert!(is_control_on(1));
    assert!(!is_control_on(0));
    assert!(!is_control_on(-1));
}

#[test]
fn control_state_round_trip() {
    assert!(is_control_on(control_state(true)));
    assert!(!is_control_on(control_state(false)));
}
