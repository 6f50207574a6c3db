//! Decoding of the status record that the service control manager reports
//! for a service.

use vstd::prelude::*;

use crate::error::{Error, Field};
use crate::flags::{only_known_bits, ServiceActiveState, ServiceControlAccept, ServiceType};

verus! {

/// The exit code by which a service says that its real exit code is
/// specific to the service.
pub const ERROR_SERVICE_SPECIFIC_ERROR: u32 = 1066;

/// A status record as the service control manager lays it out: seven
/// unsigned 32-bit fields.
#[derive(Debug, Clone, Copy, PartialEq, Eq, Hash, Structural)]
pub struct RawServiceStatus {
    pub service_type: u32,
    pub current_state: u32,
    pub controls_accepted: u32,
    pub win32_exit_code: u32,
    pub service_specific_exit_code: u32,
    pub check_point: u32,
    pub wait_hint: u32,
}

/// The run state of a service.
#[derive(Debug, Clone, Copy, PartialEq, Eq, Hash, Structural)]
pub enum ServiceState {
    Stopped,
    StartPending,
    StopPending,
    Running,
    ContinuePending,
    PausePending,
    Paused,
}

impl ServiceState {
    /// The number that stands for the state in a status record.
    pub open spec fn spec_to_raw(&self) -> u32 {
        match self {
            ServiceState::Stopped => 1,
            ServiceState::StartPending => 2,
            ServiceState::StopPending => 3,
            ServiceState::Running => 4,
            ServiceState::ContinuePending => 5,
            ServiceState::PausePending => 6,
            ServiceState::Paused => 7,
        }
    }

    /// The state that a number stands for, if any.
    pub open spec fn spec_from_raw(raw: u32) -> Option<ServiceState> {
        if raw == 1 {
            Some(ServiceState::Stopped)
        } else if raw == 2 {
            Some(ServiceState::StartPending)
        } else if raw == 3 {
            Some(ServiceState::StopPending)
        } else if raw == 4 {
            Some(ServiceState::Running)
        } else if raw == 5 {
            Some(ServiceState::ContinuePending)
        } else if raw == 6 {
            Some(ServiceState::PausePending)
        } else if raw == 7 {
            Some(ServiceState::Paused)
        } else {
            None
        }
    }

    /// Every state but stopped counts as active.
    pub open spec fn spec_is_active(&self) -> bool {
        *self != ServiceState::Stopped
    }

    /// The number that stands for the state in a status record.
    #[verifier::when_used_as_spec(spec_to_raw)]
    pub fn to_raw(&self) -> (raw: u32)
        ensures
            raw == self.spec_to_raw(),
            ServiceState::spec_from_raw(raw) == Some(*self),
    {
        match self {
            ServiceState::Stopped => 1,
            ServiceState::StartPending => 2,
            ServiceState::StopPending => 3,
            ServiceState::Running => 4,
            ServiceState::ContinuePending => 5,
            ServiceState::PausePending => 6,
            ServiceState::Paused => 7,
        }
    }

    /// The state that a number stands for. A number that stands for none
    /// is an error, not some default state.
    pub fn from_raw(raw: u32) -> (r: Result<ServiceState, Error>)
        ensures
            r == match ServiceState::spec_from_raw(raw) {
                Some(state) => Ok::<ServiceState, Error>(state),
                None => Err::<ServiceState, Error>(Error::ParseValue(Field::CurrentState, raw)),
            },
            r matches Ok(state) ==> state.spec_to_raw() == raw,
    {
        match raw {
            1 => Ok(ServiceState::Stopped),
            2 => Ok(ServiceState::StartPending),
            3 => Ok(ServiceState::StopPending),
            4 => Ok(ServiceState::Running),
            5 => Ok(ServiceState::ContinuePending),
            6 => Ok(ServiceState::PausePending),
            7 => Ok(ServiceState::Paused),
            _ => Err(Error::ParseValue(Field::CurrentState, raw)),
        }
    }

    /// Whether the state counts as active in a listing.
    #[verifier::when_used_as_spec(spec_is_active)]
    pub fn is_active(&self) -> (active: bool)
        ensures
            active == self.spec_is_active(),
    {
        match self {
            ServiceState::Stopped => false,
            _ => true,
        }
    }
}

/// How a service ended, or that it runs.
#[derive(Debug, Clone, Copy, PartialEq, Eq, Hash, Structural)]
pub enum ServiceExitCode {
    /// An exit code of the platform; zero while the service runs or after
    /// it ended without error.
    Win32(u32),
    /// An exit code whose meaning the service defines.
    ServiceSpecific(u32),
}

impl ServiceExitCode {
    /// The exit code that a status record reports.
    pub open spec fn spec_from_raw(raw: RawServiceStatus) -> ServiceExitCode {
        if raw.win32_exit_code == ERROR_SERVICE_SPECIFIC_ERROR {
            ServiceExitCode::ServiceSpecific(raw.service_specific_exit_code)
        } else {
            ServiceExitCode::Win32(raw.win32_exit_code)
        }
    }

    /// The exit code that a status record reports.
    pub fn from_raw(raw: &RawServiceStatus) -> (code: ServiceExitCode)
        ensures
            code == ServiceExitCode::spec_from_raw(*raw),
    {
        if raw.win32_exit_code == ERROR_SERVICE_SPECIFIC_ERROR {
            ServiceExitCode::ServiceSpecific(raw.service_specific_exit_code)
        } else {
            ServiceExitCode::Win32(raw.win32_exit_code)
        }
    }
}

/// The decoded status of a service at the moment it was asked for. A later
/// query gives a new value; none is changed in place.
#[derive(Debug, Clone, Copy, PartialEq, Eq, Hash, Structural)]
pub struct ServiceStatus {
    /// The kind of the service.
    pub service_type: ServiceType,
    /// The run state.
    pub current_state: ServiceState,
    /// The control codes that the service accepts.
    pub controls_accepted: ServiceControlAccept,
    /// How the service ended, or that it runs.
    pub exit_code: ServiceExitCode,
    /// A counter that the service raises during a long start, stop, pause
    /// or continue.
    pub checkpoint: u32,
    /// The time in milliseconds that the service expects a pending
    /// operation to take.
    pub wait_hint: u32,
}

/// The first field of the record, in the order service type, current
/// state, controls accepted, that holds a value without a meaning, with
/// that value.
pub open spec fn first_invalid_field(raw: RawServiceStatus) -> Option<(Field, u32)> {
    if !only_known_bits(raw.service_type, ServiceType::KNOWN_BITS) {
        Some((Field::ServiceType, raw.service_type))
    } else if ServiceState::spec_from_raw(raw.current_state) is None {
        Some((Field::CurrentState, raw.current_state))
    } else if !only_known_bits(raw.controls_accepted, ServiceControlAccept::KNOWN_BITS) {
        Some((Field::ControlsAccepted, raw.controls_accepted))
    } else {
        None
    }
}

impl ServiceStatus {
    /// Every field of the status says what the same field of the record
    /// says.
    pub open spec fn describes(self, raw: RawServiceStatus) -> bool {
        &&& self.service_type.bits() == raw.service_type
        &&& self.current_state.spec_to_raw() == raw.current_state
        &&& self.controls_accepted.bits() == raw.controls_accepted
        &&& self.exit_code == ServiceExitCode::spec_from_raw(raw)
        &&& self.checkpoint == raw.check_point
        &&& self.wait_hint == raw.wait_hint
    }

    /// Decodes a status record. Service type, current state and accepted
    /// controls must each hold a known value: the first of them that does
    /// not is reported with its value, and nothing is decoded. Exit codes,
    /// checkpoint and wait hint are taken as they are.
    pub fn from_raw(raw: &RawServiceStatus) -> (r: Result<ServiceStatus, Error>)
        ensures
            match first_invalid_field(*raw) {
                Some((field, value)) => r == Err::<ServiceStatus, Error>(
                    Error::ParseValue(field, value),
                ),
                None => r matches Ok(status) && status.describes(*raw),
            },
    {
        let service_type = match ServiceType::from_bits(raw.service_type) {
            Some(service_type) => service_type,
            None => {
                return Err(Error::ParseValue(Field::ServiceType, raw.service_type));
            },
        };
        let current_state = match ServiceState::from_raw(raw.current_state) {
            Ok(state) => state,
            Err(e) => {
                return Err(e);
            },
        };
        let controls_accepted = match ServiceControlAccept::from_bits(raw.controls_accepted) {
            Some(controls) => controls,
            None => {
                return Err(Error::ParseValue(Field::ControlsAccepted, raw.controls_accepted));
            },
        };
        Ok(
            ServiceStatus {
                service_type,
                current_state,
                controls_accepted,
                exit_code: ServiceExitCode::from_raw(raw),
                checkpoint: raw.check_point,
                wait_hint: raw.wait_hint,
            },
        )
    }
}

impl ServiceActiveState {
    /// Whether a listing under this filter is meant to hold a service in
    /// the given state: an active one under [`ServiceActiveState::ACTIVE`],
    /// a stopped one under [`ServiceActiveState::INACTIVE`].
    pub open spec fn spec_selects(&self, state: ServiceState) -> bool {
        if state.spec_is_active() {
            self.bits() & ServiceActiveState::ACTIVE != 0
        } else {
            self.bits() & ServiceActiveState::INACTIVE != 0
        }
    }

    /// Whether a listing under this filter is meant to hold a record that
    /// reports the given state number.
    pub open spec fn selects_raw(&self, raw_state: u32) -> bool {
        ServiceState::spec_from_raw(raw_state) matches Some(state) && self.spec_selects(state)
    }

    /// Whether a listing under this filter is meant to hold a service in
    /// the given state.
    #[verifier::when_used_as_spec(spec_selects)]
    pub fn selects(&self, state: ServiceState) -> (selected: bool)
        ensures
            selected == self.spec_selects(state),
    {
        if state.is_active() {
            self.bits() & ServiceActiveState::ACTIVE != 0
        } else {
            self.bits() & ServiceActiveState::INACTIVE != 0
        }
    }
}

/// A decoded status is in the same class of activity as its record: what a
/// filter selects by the record's state number, it selects by the decoded
/// state, and the other way round.
pub proof fn lemma_decoding_keeps_activity(
    filter: ServiceActiveState,
    raw: RawServiceStatus,
    status: ServiceStatus,
)
    requires
        status.describes(raw),
    ensures
        filter.selects_raw(raw.current_state) <==> filter.spec_selects(status.current_state),
{
}

} // verus!
