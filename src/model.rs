//! The requests and responses of the tools, and the device operations that
//! back the ping tool.
use vstd::prelude::*;
use crate::error::DiscoveryFailure;
use crate::error::Error;
use crate::identity::DeviceIdentifier;
use crate::identity::WorkspacePublicKey;
use crate::workspace::DocTicket;
use crate::workspace::Model;

verus! {

/// Asks to create a workspace.
#[derive(Clone, Debug, PartialEq, Eq)]
pub struct WorkspaceInitRequest {
    pub name: String,
}

/// The workspace that was created.
#[derive(Clone, Debug, PartialEq, Eq)]
pub struct WorkspaceInitResponse {
    pub workspace: Model,
}

/// Asks to join the namespace of a ticket under a local name.
#[derive(Clone, Debug, PartialEq, Eq)]
pub struct WorkspaceJoinRequest {
    pub name: String,
    pub ticket: DocTicket,
}

/// The workspace that was joined.
#[derive(Clone, Debug, PartialEq, Eq)]
pub struct WorkspaceJoinResponse {
    pub workspace: Model,
}

/// Asks to probe whether a device can be reached.
#[derive(Clone, Debug, PartialEq, Eq)]
pub struct DevPingRequest {
    pub device: DeviceIdentifier,
}

/// The probe's round-trip time.
#[derive(Clone, Copy, Debug, PartialEq, Eq)]
pub struct DevPingResponse {
    pub rtt_micros: u64,
}

/// A device that discovery found, ready to be connected to.
#[derive(Clone, Debug, PartialEq, Eq)]
pub struct NetworkTarget {
    pub key: WorkspacePublicKey,
    pub addresses: Vec<String>,
}

/// The result of resolving a device, from what discovery answered.
pub fn resolve_outcome(answer: Result<NetworkTarget, DiscoveryFailure>) -> (r: Result<
    NetworkTarget,
    Error,
>)
    ensures
        answer matches Ok(t) ==> r == Ok::<NetworkTarget, Error>(t),
        answer matches Err(DiscoveryFailure::NoResults(k)) ==> r == Err::<NetworkTarget, Error>(
            Error::DeviceNotFound(DeviceIdentifier::PublicKey(k)),
        ),
        answer matches Err(DiscoveryFailure::Other(m)) ==> r == Err::<NetworkTarget, Error>(
            Error::DeviceDiscoveryFailed(m),
        ),
{
    match answer {
        Ok(t) => Ok(t),
        Err(f) => Err(Error::from_discovery(f)),
    }
}

/// The result of a ping, from what the probe answered: the round-trip
/// time, or the transport's message as a `DevicePingFailed` error. No
/// trust between the devices is asked for.
pub fn ping_outcome(answer: Result<u64, String>) -> (r: Result<DevPingResponse, Error>)
    ensures
        answer matches Ok(t) ==> r == Ok::<DevPingResponse, Error>(DevPingResponse { rtt_micros: t }),
        answer matches Err(m) ==> r == Err::<DevPingResponse, Error>(Error::DevicePingFailed(m)),
{
    match answer {
        Ok(t) => Ok(DevPingResponse { rtt_micros: t }),
        Err(m) => Err(Error::DevicePingFailed(m)),
    }
}

/// The operations that a capability provider offers.
pub trait Api {
    type Error;

    /// Pings another device. Works between devices that do not trust
    /// each other.
    fn dev_ping(&self, params: DevPingRequest) -> Result<DevPingResponse, Self::Error>;
}

/// A description of the running application.
#[derive(Clone, Debug, PartialEq, Eq)]
pub struct AppInfo {
    pub name: String,
    pub version: String,
}

/// A command that the application can run.
pub trait RunnableCommand {
    fn run(self, app_info: AppInfo);
}

} // verus!
