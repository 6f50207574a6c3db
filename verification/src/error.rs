//! Error types shared by all operations.

use vstd::prelude::*;

verus! {

/// Text contained a nul character somewhere before its final position.
#[derive(Debug, Clone, Copy, PartialEq, Eq, Hash, Structural)]
pub struct NulByteInInput;

/// The text arguments that are handed to the service control manager.
#[derive(Debug, Clone, Copy, PartialEq, Eq, Hash, Structural)]
pub enum Argument {
    MachineName,
    DatabaseName,
    /// The name of a service: the one that is opened, or the one in a
    /// description that is encoded on its own.
    ServiceName,
    /// The name of the service that is to be created, as the creation of
    /// a service reports it.
    NewServiceName,
    DisplayName,
    ExecutablePath,
    LaunchArgument,
    Dependency,
    AccountName,
    AccountPassword,
}

impl Argument {
    /// The argument's name as it appears in messages.
    pub open spec fn spec_name(self) -> Seq<char> {
        match self {
            Argument::MachineName => "machine name"@,
            Argument::DatabaseName => "database name"@,
            Argument::ServiceName => "service name"@,
            Argument::NewServiceName => "service_name"@,
            Argument::DisplayName => "display name"@,
            Argument::ExecutablePath => "executable path"@,
            Argument::LaunchArgument => "launch argument"@,
            Argument::Dependency => "dependency"@,
            Argument::AccountName => "account name"@,
            Argument::AccountPassword => "account password"@,
        }
    }

    /// The argument's name as it appears in messages.
    pub fn name(&self) -> (name: &'static str)
        ensures
            name@ == self.spec_name(),
    {
        match self {
            Argument::MachineName => "machine name",
            Argument::DatabaseName => "database name",
            Argument::ServiceName => "service name",
            Argument::NewServiceName => "service_name",
            Argument::DisplayName => "display name",
            Argument::ExecutablePath => "executable path",
            Argument::LaunchArgument => "launch argument",
            Argument::Dependency => "dependency",
            Argument::AccountName => "account name",
            Argument::AccountPassword => "account password",
        }
    }
}

/// The fields of a status record that hold one of a fixed set of values.
#[derive(Debug, Clone, Copy, PartialEq, Eq, Hash, Structural)]
pub enum Field {
    ServiceType,
    CurrentState,
    ControlsAccepted,
}

impl Field {
    /// The field's name as it appears in messages.
    pub open spec fn spec_name(self) -> Seq<char> {
        match self {
            Field::ServiceType => "service type"@,
            Field::CurrentState => "current state"@,
            Field::ControlsAccepted => "controls accepted"@,
        }
    }

    /// The field's name as it appears in messages.
    pub fn name(&self) -> (name: &'static str)
        ensures
            name@ == self.spec_name(),
    {
        match self {
            Field::ServiceType => "service type",
            Field::CurrentState => "current state",
            Field::ControlsAccepted => "controls accepted",
        }
    }
}

/// Why an operation failed.
#[derive(Debug, Clone, Copy, PartialEq, Eq, Hash, Structural)]
pub enum Error {
    /// The named argument holds a nul character before its final position.
    /// Found before any native call is made.
    ArgumentHasNulByte(Argument),
    /// A record of the service control manager holds, in the named field,
    /// the given value, which is none of the values known for that field.
    ParseValue(Field, u32),
    /// The service control manager refused a call. The code is the
    /// platform's last-error code, unchanged.
    Winapi(u32),
}

} // verus!
