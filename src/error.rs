//! Failure kinds of the two operations, and their text at the boundary.
use vstd::prelude::*;

verus! {

/// Why `discover_and_connect` failed.
#[derive(Debug, PartialEq, Eq)]
pub enum DiscoveryError {
    /// The radio stack could not be reached or could not list its adapters.
    Radio(String),
    /// The host exposes no adapter.
    NoAdapter,
    /// Starting the scan, or enumerating what it saw, failed.
    ScanFailed(String),
    /// No peripheral with the target name was seen in the scan window.
    DeviceNotFound,
    /// The link could not be established.
    ConnectFailed(String),
    /// The attribute table could not be resolved on the connected link.
    ResolveFailed(String),
}

/// Why `send_command` failed.
#[derive(Debug, PartialEq, Eq)]
pub enum CommandError {
    /// No peripheral is stored in the connection slot.
    NotConnected,
    /// The stored peripheral's attribute table lacks the target characteristic.
    CharacteristicNotFound,
    /// The confirmed write failed or was not acknowledged.
    WriteFailed(String),
}

/// The text a caller sees for a discovery failure.
pub open spec fn discovery_message(e: DiscoveryError) -> Seq<char> {
    match e {
        DiscoveryError::NoAdapter => "No Bluetooth adapter found"@,
        DiscoveryError::DeviceNotFound => "Device not found"@,
        DiscoveryError::Radio(m) => m@,
        DiscoveryError::ScanFailed(m) => m@,
        DiscoveryError::ConnectFailed(m) => m@,
        DiscoveryError::ResolveFailed(m) => m@,
    }
}

/// The text a caller sees for a command failure.
pub open spec fn command_message(e: CommandError) -> Seq<char> {
    match e {
        CommandError::NotConnected => "Not connected"@,
        CommandError::CharacteristicNotFound => "Characteristic not found"@,
        CommandError::WriteFailed(m) => m@,
    }
}

impl DiscoveryError {
    /// An equal copy of the failure.
    pub fn duplicate(&self) -> (r: Self)
        ensures
            r == *self,
    {
        match self {
            DiscoveryError::NoAdapter => DiscoveryError::NoAdapter,
            DiscoveryError::DeviceNotFound => DiscoveryError::DeviceNotFound,
            DiscoveryError::Radio(m) => DiscoveryError::Radio(m.clone()),
            DiscoveryError::ScanFailed(m) => DiscoveryError::ScanFailed(m.clone()),
            DiscoveryError::ConnectFailed(m) => DiscoveryError::ConnectFailed(m.clone()),
            DiscoveryError::ResolveFailed(m) => DiscoveryError::ResolveFailed(m.clone()),
        }
    }

    /// Collapses the failure to the text shown at the boundary.
    pub fn message(&self) -> (r: String)
        ensures
            r@ == discovery_message(*self),
    {
        match self {
            DiscoveryError::NoAdapter => "No Bluetooth adapter found".to_owned(),
            DiscoveryError::DeviceNotFound => "Device not found".to_owned(),
            DiscoveryError::Radio(m) => m.clone(),
            DiscoveryError::ScanFailed(m) => m.clone(),
            DiscoveryError::ConnectFailed(m) => m.clone(),
            DiscoveryError::ResolveFailed(m) => m.clone(),
        }
    }
}

impl CommandError {
    /// Collapses the failure to the text shown at the boundary.
    pub fn message(&self) -> (r: String)
        ensures
            r@ == command_message(*self),
    {
        match self {
            CommandError::NotConnected => "Not connected".to_owned(),
            CommandError::CharacteristicNotFound => "Characteristic not found".to_owned(),
            CommandError::WriteFailed(m) => m.clone(),
        }
    }
}

} // verus!
