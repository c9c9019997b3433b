//! The failures of the daemon.

use vstd::prelude::*;
use vstd::string::StringExecFns;
use crate::message::MAX_MESSAGE_SIZE;
use crate::text::{join, decimal, push_decimal};

verus! {

/// What can go wrong in the daemon. Discovery failures end discovery; a
/// failure to start the server ends start-up; every other failure ends one
/// connection or one operation, never the daemon.
#[derive(Debug, Clone, PartialEq)]
pub enum DaemonError {
    /// The discovery service could not be set up.
    MdnsInitialization(String),
    /// The service could not be announced.
    MdnsRegistration(String),
    /// Peers could not be sought.
    MdnsBrowsing(String),
    /// The listener could not be bound.
    ServerStart(String),
    /// A read or a write on a connection failed.
    NetworkError(String),
    /// A message exceeded the size limit, with the size seen.
    MessageTooLarge(usize),
    /// The bytes of a message could not be decoded.
    MessageDeserialization(String),
    /// A response could not be encoded.
    MessageSerialization(String),
    /// A read or a write did not finish in time.
    Timeout(String),
    /// Shared state could not be locked.
    LockError(String),
}

/// What a failure puts an end to.
#[derive(Debug, Clone, Copy, PartialEq, Eq, Structural)]
pub enum Scope {
    /// The discovery service; the listener goes on.
    Discovery,
    /// The start of the daemon.
    Startup,
    /// One connection; every other connection goes on.
    Connection,
    /// One operation on shared state.
    Operation,
}

impl DaemonError {
    /// What the failure puts an end to: a failure of discovery ends
    /// discovery, a listener that cannot be bound ends the start, a failure
    /// on a connection or in a message ends that connection, and a lock that
    /// cannot be taken ends the operation that asked for it.
    pub open spec fn reach(&self) -> Scope {
        match *self {
            DaemonError::MdnsInitialization(_) => Scope::Discovery,
            DaemonError::MdnsRegistration(_) => Scope::Discovery,
            DaemonError::MdnsBrowsing(_) => Scope::Discovery,
            DaemonError::ServerStart(_) => Scope::Startup,
            DaemonError::NetworkError(_) => Scope::Connection,
            DaemonError::MessageTooLarge(_) => Scope::Connection,
            DaemonError::MessageDeserialization(_) => Scope::Connection,
            DaemonError::MessageSerialization(_) => Scope::Connection,
            DaemonError::Timeout(_) => Scope::Connection,
            DaemonError::LockError(_) => Scope::Operation,
        }
    }

    /// What the failure puts an end to.
    pub fn scope(&self) -> (scope: Scope)
        ensures
            scope == self.reach(),
    {
        match self {
            DaemonError::MdnsInitialization(_) => Scope::Discovery,
            DaemonError::MdnsRegistration(_) => Scope::Discovery,
            DaemonError::MdnsBrowsing(_) => Scope::Discovery,
            DaemonError::ServerStart(_) => Scope::Startup,
            DaemonError::NetworkError(_) => Scope::Connection,
            DaemonError::MessageTooLarge(_) => Scope::Connection,
            DaemonError::MessageDeserialization(_) => Scope::Connection,
            DaemonError::MessageSerialization(_) => Scope::Connection,
            DaemonError::Timeout(_) => Scope::Connection,
            DaemonError::LockError(_) => Scope::Operation,
        }
    }

    /// The failure in words.
    pub open spec fn text(&self) -> Seq<char> {
        match *self {
            DaemonError::MdnsInitialization(detail) => "mDNS initialization failed: "@ + detail@,
            DaemonError::MdnsRegistration(detail) => "mDNS registration failed: "@ + detail@,
            DaemonError::MdnsBrowsing(detail) => "mDNS browsing failed: "@ + detail@,
            DaemonError::ServerStart(detail) => "Server start failed: "@ + detail@,
            DaemonError::NetworkError(detail) => "Network error: "@ + detail@,
            DaemonError::MessageTooLarge(size) => "Message too large: "@ + decimal(size as nat)
                + " bytes (max: "@ + decimal(MAX_MESSAGE_SIZE as nat) + ")"@,
            DaemonError::MessageDeserialization(detail) => "Message deserialization failed: "@
                + detail@,
            DaemonError::MessageSerialization(detail) => "Message serialization failed: "@
                + detail@,
            DaemonError::Timeout(detail) => "Operation timeout: "@ + detail@,
            DaemonError::LockError(detail) => "Lock error: "@ + detail@,
        }
    }

    /// The failure in words.
    pub fn to_string(&self) -> (text: String)
        ensures
            text@ == self.text(),
    {
        match self {
            DaemonError::MdnsInitialization(detail) => join(
                "mDNS initialization failed: ",
                detail.as_str(),
            ),
            DaemonError::MdnsRegistration(detail) => join(
                "mDNS registration failed: ",
                detail.as_str(),
            ),
            DaemonError::MdnsBrowsing(detail) => join("mDNS browsing failed: ", detail.as_str()),
            DaemonError::ServerStart(detail) => join("Server start failed: ", detail.as_str()),
            DaemonError::NetworkError(detail) => join("Network error: ", detail.as_str()),
            DaemonError::MessageTooLarge(size) => {
                let mut text = String::from_str("Message too large: ");
                push_decimal(&mut text, *size as u64);
                text.append(" bytes (max: ");
                push_decimal(&mut text, MAX_MESSAGE_SIZE as u64);
                text.append(")");
                text
            },
            DaemonError::MessageDeserialization(detail) => join(
                "Message deserialization failed: ",
                detail.as_str(),
            ),
            DaemonError::MessageSerialization(detail) => join(
                "Message serialization failed: ",
                detail.as_str(),
            ),
            DaemonError::Timeout(detail) => join("Operation timeout: ", detail.as_str()),
            DaemonError::LockError(detail) => join("Lock error: ", detail.as_str()),
        }
    }
}

} // verus!
