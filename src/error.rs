//! The closed set of failures that every component reports.
use vstd::prelude::*;
use crate::identity::DeviceIdentifier;
use crate::identity::WorkspacePublicKey;
use crate::identity::debug_str;
use crate::identity::debug_string;

verus! {

/// A failure of one of the core operations.
#[derive(Clone, Debug, PartialEq, Eq)]
pub enum Error {
    /// An operation on a replicated namespace failed.
    Docs(String),
    /// An operation on the relational store failed.
    Database(String),
    /// The device could not be resolved.
    DeviceNotFound(DeviceIdentifier),
    /// Discovery failed for another reason than an absent device.
    DeviceDiscoveryFailed(String),
    /// The reachability probe failed.
    DevicePingFailed(String),
}

/// Appends `tail` to a fresh copy of the literal `head`.
pub(crate) fn concat_lit(head: &str, tail: &str) -> (r: String)
    ensures
        r@ == head@ + tail@,
{
    let mut s = String::from_str(head);
    s.append(tail);
    s
}

impl Error {
    /// The human-readable message of a failure.
    pub open spec fn message_spec(&self) -> Seq<char> {
        match self {
            Error::Docs(m) => "Iroh doc error : "@ + m@,
            Error::Database(m) => "database error: "@ + m@,
            Error::DeviceNotFound(d) => "Target device not found: "@ + d.text_spec(),
            Error::DeviceDiscoveryFailed(m) => "Device discovery failed: "@ + m@,
            Error::DevicePingFailed(m) => "iroh-ping failed: "@ + m@,
        }
    }

    /// The human-readable message of a failure.
    pub fn message(&self) -> (r: String)
        ensures
            r@ == self.message_spec(),
    {
        match self {
            Error::Docs(m) => concat_lit("Iroh doc error : ", m.as_str()),
            Error::Database(m) => concat_lit("database error: ", m.as_str()),
            Error::DeviceNotFound(d) => {
                let t = d.text();
                concat_lit("Target device not found: ", t.as_str())
            },
            Error::DeviceDiscoveryFailed(m) => concat_lit("Device discovery failed: ", m.as_str()),
            Error::DevicePingFailed(m) => concat_lit("iroh-ping failed: ", m.as_str()),
        }
    }

    /// The form in which `{:?}` writes a failure: the kind's name and its
    /// payload in parentheses.
    pub open spec fn debug_text(&self) -> Seq<char> {
        match self {
            Error::Docs(m) => "Docs("@ + debug_str(m@) + ")"@,
            Error::Database(m) => "Database("@ + debug_str(m@) + ")"@,
            Error::DeviceNotFound(d) => "DeviceNotFound("@ + d.debug_text() + ")"@,
            Error::DeviceDiscoveryFailed(m) => "DeviceDiscoveryFailed("@ + debug_str(m@) + ")"@,
            Error::DevicePingFailed(m) => "DevicePingFailed("@ + debug_str(m@) + ")"@,
        }
    }

    /// The form in which `{:?}` writes a failure.
    pub fn debug(&self) -> (r: String)
        ensures
            r@ == self.debug_text(),
    {
        let (mut s, inner) = match self {
            Error::Docs(m) => (String::from_str("Docs("), debug_string(m.as_str())),
            Error::Database(m) => (String::from_str("Database("), debug_string(m.as_str())),
            Error::DeviceNotFound(d) => (String::from_str("DeviceNotFound("), d.debug()),
            Error::DeviceDiscoveryFailed(m) => (
                String::from_str("DeviceDiscoveryFailed("),
                debug_string(m.as_str()),
            ),
            Error::DevicePingFailed(m) => (String::from_str("DevicePingFailed("), debug_string(m.as_str())),
        };
        s.append(inner.as_str());
        s.append(")");
        proof {
            reveal_strlit("Docs(");
            reveal_strlit("Database(");
            reveal_strlit("DeviceNotFound(");
            reveal_strlit("DeviceDiscoveryFailed(");
            reveal_strlit("DevicePingFailed(");
            reveal_strlit(")");
        }
        s
    }

    /// The kind of a failure, without its payload.
    pub open spec fn kind_spec(&self) -> ErrorKind {
        match self {
            Error::Docs(_) => ErrorKind::Docs,
            Error::Database(_) => ErrorKind::Database,
            Error::DeviceNotFound(_) => ErrorKind::DeviceNotFound,
            Error::DeviceDiscoveryFailed(_) => ErrorKind::DeviceDiscoveryFailed,
            Error::DevicePingFailed(_) => ErrorKind::DevicePingFailed,
        }
    }

    /// The kind of a failure, without its payload.
    pub fn kind(&self) -> (r: ErrorKind)
        ensures
            r == self.kind_spec(),
    {
        match self {
            Error::Docs(_) => ErrorKind::Docs,
            Error::Database(_) => ErrorKind::Database,
            Error::DeviceNotFound(_) => ErrorKind::DeviceNotFound,
            Error::DeviceDiscoveryFailed(_) => ErrorKind::DeviceDiscoveryFailed,
            Error::DevicePingFailed(_) => ErrorKind::DevicePingFailed,
        }
    }

    /// A failure of the relational store, from the store's own message.
    pub fn from_database(message: String) -> (r: Error)
        ensures
            r == Error::Database(message),
    {
        Error::Database(message)
    }

    /// A failure of device discovery: an absent device becomes
    /// `DeviceNotFound` with the device's key, anything else
    /// `DeviceDiscoveryFailed` with the discovery subsystem's text.
    pub fn from_discovery(failure: DiscoveryFailure) -> (r: Error)
        ensures
            r == (match failure {
                DiscoveryFailure::NoResults(k) => Error::DeviceNotFound(DeviceIdentifier::PublicKey(k)),
                DiscoveryFailure::Other(m) => Error::DeviceDiscoveryFailed(m),
            }),
    {
        match failure {
            DiscoveryFailure::NoResults(k) => Error::DeviceNotFound(DeviceIdentifier::PublicKey(k)),
            DiscoveryFailure::Other(m) => Error::DeviceDiscoveryFailed(m),
        }
    }
}

/// The kinds of failure, as a tag.
#[derive(Clone, Copy, Debug, PartialEq, Eq)]
pub enum ErrorKind {
    Docs,
    Database,
    DeviceNotFound,
    DeviceDiscoveryFailed,
    DevicePingFailed,
}

/// How device discovery failed.
#[derive(Clone, Debug, PartialEq, Eq)]
pub enum DiscoveryFailure {
    /// No discovery service knew the device with this key.
    NoResults(WorkspacePublicKey),
    /// Any other failure, with the subsystem's diagnostic text.
    Other(String),
}

} // verus!
