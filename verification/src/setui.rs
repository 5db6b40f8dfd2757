//! The handlers of two settings: night mode, which is stored, and power, which
//! is a request to reboot.
//!
//! A handler decides what a request comes to. Reading and writing the store,
//! and talking to the service that reboots the device, is left to the caller:
//! the handler is given what was read, and says what is to be written or done.

use vstd::prelude::*;

verus! {

/// The setting whether night mode is on.
#[derive(Debug, Clone, Copy, PartialEq, Eq, Structural)]
pub struct NightModeInfo {
    /// Whether night mode is on, where that was ever set.
    pub night_mode_enabled: Option<bool>,
}

/// The key under which the night mode setting is stored.
pub const NIGHT_MODE_KEY: &'static str = "night_mode_info";

impl NightModeInfo {
    /// The setting of a device on which night mode was never set.
    pub fn default_value() -> (info: NightModeInfo)
        ensures
            info == (NightModeInfo { night_mode_enabled: None }),
    {
        NightModeInfo { night_mode_enabled: None }
    }

    /// This setting among the settings of all kinds.
    pub fn into(self) -> (info: SettingInfo)
        ensures
            info == SettingInfo::NightMode(self),
    {
        SettingInfo::NightMode(self)
    }
}

/// The kinds of setting.
#[derive(Debug, Clone, Copy, PartialEq, Eq, Structural)]
pub enum SettingType {
    /// Night mode.
    NightMode,
    /// Power.
    Power,
}

/// The value of a setting, of whatever kind.
#[derive(Debug, Clone, Copy, PartialEq, Eq, Structural)]
pub enum SettingInfo {
    /// The night mode setting.
    NightMode(NightModeInfo),
}

/// What can be asked of a handler.
#[derive(Debug, Clone, Copy, PartialEq, Eq, Structural)]
#[non_exhaustive]
pub enum Request {
    /// Tell the value of the setting.
    Get,
    /// Reboot the device.
    Reboot,
    /// Set night mode.
    SetNightModeInfo(NightModeInfo),
}

/// Why a handler failed.
#[derive(Debug, Clone, Copy, PartialEq, Eq)]
pub enum ControllerError {
    /// A service outside failed: for this kind of setting, this service, at
    /// this step.
    ExternalFailure(SettingType, &'static str, &'static str),
}

/// How a request ended: with the value of the setting, or with nothing to
/// tell, or with a failure.
pub type SettingHandlerResult = Result<Option<SettingInfo>, ControllerError>;

/// What the handler of night mode makes of a request.
#[derive(Debug, Clone, Copy, PartialEq, Eq)]
pub enum NightModeStep {
    /// The setting is to be stored with this value, and nobody is notified.
    /// The request ends as the store says.
    Write(NightModeInfo),
    /// The request ends with this.
    Done(SettingHandlerResult),
}

/// The handler of the night mode setting.
#[derive(Debug, Clone, Copy)]
pub struct NightModeController;

impl NightModeController {
    /// What a request comes to, where `current` is the setting as it is
    /// stored. To set night mode is to store the setting with the new word on
    /// night mode. To get it is to tell the stored setting. The handler knows
    /// no other request.
    pub fn handle(&self, request: Request, current: NightModeInfo) -> (step: Option<
        NightModeStep,
    >)
        ensures
            step == match request {
                Request::SetNightModeInfo(night_mode_info) => Some(
                    NightModeStep::Write(
                        NightModeInfo { night_mode_enabled: night_mode_info.night_mode_enabled },
                    ),
                ),
                Request::Get => Some(
                    NightModeStep::Done(
                        Ok::<Option<SettingInfo>, ControllerError>(
                            Some(SettingInfo::NightMode(current)),
                        ),
                    ),
                ),
                _ => None,
            },
    {
        match request {
            Request::SetNightModeInfo(night_mode_info) => {
                let mut current = current;

                // Save the value locally.
                current.night_mode_enabled = night_mode_info.night_mode_enabled;
                Some(NightModeStep::Write(current))
            },
            Request::Get => Some(NightModeStep::Done(Ok(Some(SettingInfo::NightMode(current))))),
            _ => None,
        }
    }
}

/// The name by which failures speak of the service that reboots the device.
pub const POWER_SERVICE: &'static str = "hardware_power_statecontrol_manager";

/// How far a reboot got.
#[derive(Debug, Clone, Copy, PartialEq, Eq, Structural)]
pub enum RebootOutcome {
    /// The service could not be connected to.
    ConnectFailed,
    /// The call did not reach the service, or no answer came back.
    CallFailed,
    /// The service refused, with this status.
    Refused(i32),
    /// The service accepted.
    Accepted,
}

/// What the handler of power makes of a request.
#[derive(Debug, Clone, Copy, PartialEq, Eq, Structural)]
pub enum PowerStep {
    /// The device is to be rebooted at the request of the user. The request
    /// ends as [`reboot`] says of the outcome.
    Reboot,
}

/// How a reboot ended for whoever asked for it: a reboot that the service
/// accepted is a success, and any other outcome is a failure of that service,
/// at the connection or at the reboot.
pub fn reboot(outcome: RebootOutcome) -> (result: Result<(), ControllerError>)
    ensures
        result == match outcome {
            RebootOutcome::ConnectFailed => Err::<(), ControllerError>(
                ControllerError::ExternalFailure(SettingType::Power, POWER_SERVICE, "connect"),
            ),
            RebootOutcome::CallFailed => Err(
                ControllerError::ExternalFailure(SettingType::Power, POWER_SERVICE, "reboot"),
            ),
            RebootOutcome::Refused(_) => Err(
                ControllerError::ExternalFailure(SettingType::Power, POWER_SERVICE, "reboot"),
            ),
            RebootOutcome::Accepted => Ok(()),
        },
{
    match outcome {
        RebootOutcome::ConnectFailed => Err(
            ControllerError::ExternalFailure(SettingType::Power, POWER_SERVICE, "connect"),
        ),
        RebootOutcome::CallFailed | RebootOutcome::Refused(_) => Err(
            ControllerError::ExternalFailure(SettingType::Power, POWER_SERVICE, "reboot"),
        ),
        RebootOutcome::Accepted => Ok(()),
    }
}

/// The handler of power.
#[derive(Debug, Clone, Copy)]
pub struct PowerController;

impl PowerController {
    /// What a request comes to: the handler knows the request to reboot, and
    /// no other.
    pub fn handle(&self, request: Request) -> (step: Option<PowerStep>)
        ensures
            step == match request {
                Request::Reboot => Some(PowerStep::Reboot),
                _ => None,
            },
    {
        match request {
            Request::Reboot => Some(PowerStep::Reboot),
            _ => None,
        }
    }

    /// How the request to reboot ends, given how far the reboot got: with
    /// nothing to tell where the service accepted, and with the failure where
    /// not.
    pub fn rebooted(&self, outcome: RebootOutcome) -> (result: SettingHandlerResult)
        ensures
            result == match outcome {
                RebootOutcome::ConnectFailed => Err::<Option<SettingInfo>, ControllerError>(
                    ControllerError::ExternalFailure(SettingType::Power, POWER_SERVICE, "connect"),
                ),
                RebootOutcome::CallFailed => Err(
                    ControllerError::ExternalFailure(SettingType::Power, POWER_SERVICE, "reboot"),
                ),
                RebootOutcome::Refused(_) => Err(
                    ControllerError::ExternalFailure(SettingType::Power, POWER_SERVICE, "reboot"),
                ),
                RebootOutcome::Accepted => Ok(None),
            },
    {
        match reboot(outcome) {
            Ok(()) => Ok(None),
            Err(e) => Err(e),
        }
    }
}

} // verus!
