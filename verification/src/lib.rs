//! Control plane of a decentralized compute marketplace: devices register
//! hardware capabilities and stake tokens to earn a tier, submitters post
//! tasks with reward bounties, tasks are matched to eligible devices, and
//! completed results are accepted or rejected by a 2/3 supermajority of
//! independent verifiers. Every state transition is specified and verified;
//! durable storage, authentication, token custody and the wall clock are
//! external collaborators that the surrounding application supplies.

pub mod consensus;
pub mod device;
pub mod laws;
pub mod matcher;
pub mod network;
pub mod staking;
pub mod task;
pub mod types;
