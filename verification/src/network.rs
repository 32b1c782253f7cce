//! The deployment-wide aggregate record: a singleton created once at
//! bootstrap and mutated only by device registration and task completion.

use vstd::prelude::*;

verus! {

/// Singleton aggregate for the whole deployment. Identities are opaque
/// fixed-width handles supplied by the surrounding application.
/// `network_utilization` is reserved: no transition writes it.
#[derive(Clone, Copy, PartialEq, Eq, Structural, Debug)]
pub struct NetworkState {
    pub authority: u64,
    pub total_devices: u32,
    pub total_tasks_completed: u64,
    pub total_tokens_distributed: u64,
    pub network_utilization: u8,
}

/// Creates the network singleton with every counter zeroed and the given
/// authority identity.
pub fn initialize(authority: u64) -> (n: NetworkState)
    ensures
        n.authority == authority,
        n.total_devices == 0,
        n.total_tasks_completed == 0,
        n.total_tokens_distributed == 0,
        n.network_utilization == 0,
{
    NetworkState {
        authority,
        total_devices: 0,
        total_tasks_completed: 0,
        total_tokens_distributed: 0,
        network_utilization: 0,
    }
}

} // verus!
