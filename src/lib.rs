//! Workspaces shared between peers: the error taxonomy, the identities of
//! devices and namespaces, the workspace lifecycle as a state machine, and the
//! router that dispatches tool calls to capability providers.
use vstd::prelude::*;

pub mod error;
pub mod identity;
pub mod workspace;
pub mod model;
pub mod router;

verus! {

} // verus!
