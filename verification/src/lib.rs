//! Contracts for the Soroban host with their behaviour stated and proved.
//!
//! [`CrowdfundVaultContract`] escrows contributions per project, releases
//! them to the project's owner once the admin has approved the milestone,
//! and keeps a reputation score per registered contributor.
//! [`LumenpulseContract`] and [`NewsContract`] are two small stores behind
//! an admin.
//!
//! [`host`] holds all that is assumed of the host, [`storage`] the vault's
//! keys and records, [`model`] the vault as a state machine over the entries
//! of its storage, [`laws`] what is proved of that machine, and [`vault`]
//! the operations themselves.
pub mod admin;
pub mod errors;
pub mod events;
pub mod host;
pub mod laws;
pub mod lumenpulse;
pub mod model;
pub mod news;
pub mod storage;
pub mod token;
pub mod vault;

pub use admin::AdminError;
pub use errors::CrowdfundError;
pub use lumenpulse::LumenpulseContract;
pub use news::NewsContract;
pub use storage::{DataKey, ProjectData};
pub use vault::CrowdfundVaultContract;
