//! The events by which the vault reports what it did.
use crate::host::{
    in_invocation, effects, publish, running_contract, stored, strkey, symbol, Effect, EventRecord, Identity,
};
use soroban_sdk::{Address, Env};
use vstd::prelude::*;

verus! {

/// The record of the event that follows a successful `initialize`.
pub open spec fn initialized(admin: Identity) -> EventRecord {
    EventRecord {
        topic: "initialized"@,
        subject: admin,
        token: None,
        project: None,
        amount: None,
        previous: None,
    }
}

/// The record of the event that follows a successful `create_project`.
pub open spec fn project_created(owner: Identity, token_address: Identity, project_id: u64) -> EventRecord {
    EventRecord {
        topic: "project_created"@,
        subject: owner,
        token: Some(token_address),
        project: Some(project_id),
        amount: None,
        previous: None,
    }
}

/// The record of the event that follows a successful `deposit`.
pub open spec fn deposited(user: Identity, project_id: u64, amount: i128) -> EventRecord {
    EventRecord {
        topic: "deposit"@,
        subject: user,
        token: None,
        project: Some(project_id),
        amount: Some(amount),
        previous: None,
    }
}

/// The record of the event that follows a successful `approve_milestone`.
pub open spec fn milestone_approved(admin: Identity, project_id: u64) -> EventRecord {
    EventRecord {
        topic: "milestone_approved"@,
        subject: admin,
        token: None,
        project: Some(project_id),
        amount: None,
        previous: None,
    }
}

/// The record of the event that follows a successful `withdraw`.
pub open spec fn withdrawn(owner: Identity, project_id: u64, amount: i128) -> EventRecord {
    EventRecord {
        topic: "withdraw"@,
        subject: owner,
        token: None,
        project: Some(project_id),
        amount: Some(amount),
        previous: None,
    }
}

/// The record of the event that follows a successful `register_contributor`.
pub open spec fn contributor_registered(contributor: Identity) -> EventRecord {
    EventRecord {
        topic: "contributor_registered"@,
        subject: contributor,
        token: None,
        project: None,
        amount: None,
        previous: None,
    }
}

/// The record of the event that follows a successful `update_reputation`.
pub open spec fn reputation_updated(contributor: Identity, old_reputation: i128, new_reputation: i128) -> EventRecord {
    EventRecord {
        topic: "reputation_updated"@,
        subject: contributor,
        token: None,
        project: None,
        amount: Some(new_reputation),
        previous: Some(old_reputation),
    }
}

/// A state transition of the vault, ready to be published.
pub enum Event<'a> {
    Initialized { admin: &'a Address },
    ProjectCreated { owner: &'a Address, token_address: &'a Address, project_id: u64 },
    Deposit { user: &'a Address, project_id: u64, amount: i128 },
    MilestoneApproved { admin: &'a Address, project_id: u64 },
    Withdraw { owner: &'a Address, project_id: u64, amount: i128 },
    ContributorRegistered { contributor: &'a Address },
    ReputationUpdated { contributor: &'a Address, old_reputation: i128, new_reputation: i128 },
}

impl<'a> View for Event<'a> {
    type V = EventRecord;

    open spec fn view(&self) -> EventRecord {
        match self {
            Event::Initialized { admin } => initialized(strkey(**admin)),
            Event::ProjectCreated { owner, token_address, project_id } => project_created(
                strkey(**owner),
                strkey(**token_address),
                *project_id,
            ),
            Event::Deposit { user, project_id, amount } => deposited(
                strkey(**user),
                *project_id,
                *amount,
            ),
            Event::MilestoneApproved { admin, project_id } => milestone_approved(
                strkey(**admin),
                *project_id,
            ),
            Event::Withdraw { owner, project_id, amount } => withdrawn(
                strkey(**owner),
                *project_id,
                *amount,
            ),
            Event::ContributorRegistered { contributor } => contributor_registered(
                strkey(**contributor),
            ),
            Event::ReputationUpdated { contributor, old_reputation, new_reputation } => reputation_updated(
                strkey(**contributor),
                *old_reputation,
                *new_reputation,
            ),
        }
    }
}

impl<'a> Event<'a> {
    /// Publishes the event: it becomes the newest effect of the invocation.
    pub fn publish(&self, env: &mut Env)
        requires
            in_invocation(*old(env)),
        ensures
            effects(*final(env)) == effects(*old(env)).push(Effect::Published { event: self@ }),
            stored(*final(env)) == stored(*old(env)),
            running_contract(*final(env)) == running_contract(*old(env)),
            in_invocation(*final(env)),
    {
        proof {
            reveal_strlit("initialized");
            reveal_strlit("project_created");
            reveal_strlit("deposit");
            reveal_strlit("milestone_approved");
            reveal_strlit("withdraw");
            reveal_strlit("contributor_registered");
            reveal_strlit("reputation_updated");
        }
        match self {
            Event::Initialized { admin } => {
                let topic = symbol(env, "initialized");
                publish(env, &topic, admin, None, None, None, None)
            },
            Event::ProjectCreated { owner, token_address, project_id } => {
                let topic = symbol(env, "project_created");
                publish(env, &topic, owner, Some(*token_address), Some(*project_id), None, None)
            },
            Event::Deposit { user, project_id, amount } => {
                let topic = symbol(env, "deposit");
                publish(env, &topic, user, None, Some(*project_id), Some(*amount), None)
            },
            Event::MilestoneApproved { admin, project_id } => {
                let topic = symbol(env, "milestone_approved");
                publish(env, &topic, admin, None, Some(*project_id), None, None)
            },
            Event::Withdraw { owner, project_id, amount } => {
                let topic = symbol(env, "withdraw");
                publish(env, &topic, owner, None, Some(*project_id), Some(*amount), None)
            },
            Event::ContributorRegistered { contributor } => {
                let topic = symbol(env, "contributor_registered");
                publish(env, &topic, contributor, None, None, None, None)
            },
            Event::ReputationUpdated { contributor, old_reputation, new_reputation } => {
                let topic = symbol(env, "reputation_updated");
                publish(
                    env,
                    &topic,
                    contributor,
                    None,
                    None,
                    Some(*new_reputation),
                    Some(*old_reputation),
                )
            },
        }
    }
}

} // verus!
