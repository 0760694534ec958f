//! The ways in which an operation of the vault is refused.
use vstd::prelude::*;

verus! {

#[derive(Clone, Copy, Debug, PartialEq, Eq, Structural)]
pub enum CrowdfundError {
    /// An admin is already stored.
    AlreadyInitialized,
    /// No admin is stored yet.
    NotInitialized,
    /// An amount is zero or negative.
    InvalidAmount,
    /// No project has the given id.
    ProjectNotFound,
    /// The project's active flag is off.
    ProjectNotActive,
    /// The caller is not the stored admin.
    Unauthorized,
    /// The project's milestone has not been approved.
    MilestoneNotApproved,
    /// The project's balance is below the amount asked for.
    InsufficientBalance,
    /// The contributor is registered already.
    AlreadyRegistered,
    /// The contributor is not registered.
    ContributorNotFound,
}

} // verus!
