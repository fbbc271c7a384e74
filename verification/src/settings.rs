//! Decisions behind the settings window: the login item and checkbox states.
use vstd::prelude::*;

verus! {

/// The registration status of the application's login item, as the Service
/// Management framework reports it.
#[derive(Clone, Copy, Debug, PartialEq, Eq, Structural)]
pub enum ServiceStatus {
    /// Not registered to launch at login.
    NotRegistered,
    /// Registered and allowed to launch at login.
    Enabled,
    /// Registered, waiting for the user's approval.
    RequiresApproval,
    /// The service could not be found.
    NotFound,
}

/// What to do with the login item's registration.
#[derive(Clone, Copy, Debug, PartialEq, Eq, Structural)]
pub enum RegistrationAction {
    /// The registration is as requested already.
    Keep,
    /// Register the login item.
    Register,
    /// Unregister the login item.
    Unregister,
}

/// The login item counts as enabled while it is registered, approved or not.
pub open spec fn logon_enabled_spec(status: ServiceStatus) -> bool {
    status == ServiceStatus::Enabled || status == ServiceStatus::RequiresApproval
}

/// Enabling keeps a registered item as it is; disabling keeps an item that is
/// not registered. Otherwise the item is registered when enabling and
/// unregistered when disabling.
pub open spec fn logon_item_action_spec(is_enabled: bool, status: ServiceStatus) -> RegistrationAction {
    if is_enabled && logon_enabled_spec(status) {
        RegistrationAction::Keep
    } else if !is_enabled && status == ServiceStatus::NotRegistered {
        RegistrationAction::Keep
    } else if is_enabled {
        RegistrationAction::Register
    } else {
        RegistrationAction::Unregister
    }
}

/// Decides how to bring the login item to the requested state `is_enabled`
/// from its current status.
pub fn logon_item_action(is_enabled: bool, status: ServiceStatus) -> (res: RegistrationAction)
    ensures
        res == logon_item_action_spec(is_enabled, status),
{
    let already_set = match (is_enabled, status) {
        (true, ServiceStatus::Enabled) | (true, ServiceStatus::RequiresApproval) => true,
        (false, ServiceStatus::NotRegistered) => true,
        _ => false,
    };
    if already_set {
        return RegistrationAction::Keep;
    }
    if is_enabled {
        RegistrationAction::Register
    } else {
        RegistrationAction::Unregister
    }
}

/// Returns true if the login item is registered, approved or awaiting
/// approval.
pub fn logon_item_is_enabled(status: ServiceStatus) -> (res: bool)
    ensures
        res == logon_enabled_spec(status),
{
    match status {
        ServiceStatus::Enabled | ServiceStatus::RequiresApproval => true,
        _ => false,
    }
}

/// Launching at login is on unless the settings say otherwise.
pub fn default_logon_item_enabled() -> (res: bool)
    ensures
        res,
{
    true
}

/// The state value of a checkbox that is on (NSControlStateValueOn).
pub const CONTROL_STATE_ON: isize = 1;

/// The state value of a checkbox that is off (NSControlStateValueOff).
pub const CONTROL_STATE_OFF: isize = 0;

/// The checkbox state that shows `enabled`.
pub fn control_state(enabled: bool) -> (res: isize)
    ensures
        res == (if enabled { CONTROL_STATE_ON } else { CONTROL_STATE_OFF }),
{
    if enabled {
        CONTROL_STATE_ON
    } else {
        CONTROL_STATE_OFF
    }
}

/// Whether a checkbox in state `state` is on; the mixed state is not.
pub fn is_control_on(state: isize) -> (res: bool)
    ensures
        res == (state == CONTROL_STATE_ON),
{
    state == CONTROL_STATE_ON
}

/// A checkbox set to show a setting reads back as that setting.
pub proof fn lemma_control_state_round_trip(enabled: bool)
    ensures
        (if enabled { CONTROL_STATE_ON } else { CONTROL_STATE_OFF }) == CONTROL_STATE_ON
            <==> enabled,
{
}

/// The login item is left alone only when it is already in the requested
/// state.
pub proof fn lemma_keep_only_when_settled(is_enabled: bool, status: ServiceStatus)
    ensures
        logon_item_action_spec(is_enabled, status) == RegistrationAction::Keep
            ==> logon_enabled_spec(status) == is_enabled,
{
}

/// Enabling never unregisters and disabling never registers.
pub proof fn lemma_action_follows_request(is_enabled: bool, status: ServiceStatus)
    ensures
        is_enabled ==> logon_item_action_spec(is_enabled, status) != RegistrationAction::Unregister,
        !is_enabled ==> logon_item_action_spec(is_enabled, status) != RegistrationAction::Register,
{
}

/// Enabling an item that is not registered, or is missing, registers it.
pub proof fn lemma_enable_registers_unregistered(status: ServiceStatus)
    requires
        !logon_enabled_spec(status),
    ensures
        logon_item_action_spec(true, status) == RegistrationAction::Register,
{
}


/// Registered items, approved or waiting for approval, count as enabled;
/// items that are not registered or not found do not.
pub proof fn lemma_enabled_statuses()
    ensures
        logon_enabled_spec(ServiceStatus::Enabled),
        logon_enabled_spec(ServiceStatus::RequiresApproval),
        !logon_enabled_spec(ServiceStatus::NotRegistered),
        !logon_enabled_spec(ServiceStatus::NotFound),
{
}

/// Enabling keeps exactly the registered items and registers the others;
/// disabling keeps exactly the unregistered item and unregisters all others,
/// a missing one included.
pub proof fn lemma_action_by_status(status: ServiceStatus)
    ensures
        logon_item_action_spec(true, status) == RegistrationAction::Keep <==> (status
            == ServiceStatus::Enabled || status == ServiceStatus::RequiresApproval),
        logon_item_action_spec(true, status) != RegistrationAction::Keep ==> logon_item_action_spec(
            true,
            status,
        ) == RegistrationAction::Register,
        logon_item_action_spec(false, status) == RegistrationAction::Keep <==> status
            == ServiceStatus::NotRegistered,
        logon_item_action_spec(false, status) != RegistrationAction::Keep ==> logon_item_action_spec(
            false,
            status,
        ) == RegistrationAction::Unregister,
{
}

/// The checkbox state values are those of AppKit: on is 1, off is 0.
pub proof fn lemma_control_state_values()
    ensures
        CONTROL_STATE_ON == 1,
        CONTROL_STATE_OFF == 0,
{
}

} // verus!
