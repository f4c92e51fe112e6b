//! The error kinds that the broker state core reports.

use vstd::prelude::*;

verus! {

/// Why an operation of the core was refused or failed.
#[derive(Clone, Copy, Debug, PartialEq, Eq, Structural)]
pub enum CoreError {
    /// No session is known under the client id.
    UnknownClient,
    /// No connection is registered under the connection id.
    UnknownConnection,
    /// The session is attached to another live connection.
    AlreadyBound,
    /// Every packet identifier of the client is in flight and the deadline has passed.
    PkidExhausted,
    /// A topic alias of zero, or above the connection's limit.
    AliasOutOfRange,
    /// A frame larger than the connection accepts.
    MaxPacketSizeExceeded,
    /// The access rules deny the request.
    Unauthorized,
    /// The connection has not completed its login.
    NotLoggedIn,
    /// A call to the control-plane store failed and may be tried again.
    TransientControlPlaneError,
    /// Metadata could not be loaded at startup.
    FatalBootstrap,
    /// The inbound packet identifier is already recorded for the client.
    DuplicateInbound,
    /// No waiter is registered for the acknowledged packet identifier.
    UnknownWaiter,
}

impl CoreError {
    /// A short name of the error kind, for messages.
    pub fn name(&self) -> (text: String)
        ensures
            text@ == self.name_spec(),
    {
        match self {
            CoreError::UnknownClient => "UnknownClient".to_string(),
            CoreError::UnknownConnection => "UnknownConnection".to_string(),
            CoreError::AlreadyBound => "AlreadyBound".to_string(),
            CoreError::PkidExhausted => "PkidExhausted".to_string(),
            CoreError::AliasOutOfRange => "AliasOutOfRange".to_string(),
            CoreError::MaxPacketSizeExceeded => "MaxPacketSizeExceeded".to_string(),
            CoreError::Unauthorized => "Unauthorized".to_string(),
            CoreError::NotLoggedIn => "NotLoggedIn".to_string(),
            CoreError::TransientControlPlaneError => "TransientControlPlaneError".to_string(),
            CoreError::FatalBootstrap => "FatalBootstrap".to_string(),
            CoreError::DuplicateInbound => "DuplicateInbound".to_string(),
            CoreError::UnknownWaiter => "UnknownWaiter".to_string(),
        }
    }

    pub open spec fn name_spec(&self) -> Seq<char> {
        match self {
            CoreError::UnknownClient => "UnknownClient"@,
            CoreError::UnknownConnection => "UnknownConnection"@,
            CoreError::AlreadyBound => "AlreadyBound"@,
            CoreError::PkidExhausted => "PkidExhausted"@,
            CoreError::AliasOutOfRange => "AliasOutOfRange"@,
            CoreError::MaxPacketSizeExceeded => "MaxPacketSizeExceeded"@,
            CoreError::Unauthorized => "Unauthorized"@,
            CoreError::NotLoggedIn => "NotLoggedIn"@,
            CoreError::TransientControlPlaneError => "TransientControlPlaneError"@,
            CoreError::FatalBootstrap => "FatalBootstrap"@,
            CoreError::DuplicateInbound => "DuplicateInbound"@,
            CoreError::UnknownWaiter => "UnknownWaiter"@,
        }
    }
}

} // verus!
