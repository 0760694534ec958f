//! The vault as a state machine over the entries of its storage.
//!
//! A [`Ledger`] is the content of the contract's storage. For each operation
//! the module says, as functions of the ledger and the arguments alone, which
//! result the operation returns (`*_outcome`), what the ledger is after a
//! success (`after_*`), and what the operation has the host do besides
//! (`*_effects`). A refused operation leaves the ledger as it was.
use crate::errors::CrowdfundError;
use crate::events;
use crate::host::{lookup, Datum, Effect, Identity, Slot};
use crate::storage::{
    admin_slot, amount_at, balance_slot, contributor_slot, counter_at, counter_slot, flag_at,
    identity_at, milestone_slot, project_at, project_slot, reputation_slot, ProjectRecord,
};
use vstd::prelude::*;

verus! {

/// The entries of the vault's storage.
pub type Ledger = Map<Slot, Datum>;

/// Whether an admin has been stored.
pub open spec fn is_initialized(s: Ledger) -> bool {
    s.contains_key(admin_slot())
}

/// The stored admin.
pub open spec fn admin(s: Ledger) -> Option<Identity> {
    identity_at(s, admin_slot())
}

/// The id that the next project will get.
pub open spec fn next_project_id(s: Ledger) -> u64 {
    match counter_at(s, counter_slot()) {
        Some(n) => n,
        None => 0,
    }
}

/// The record of a project.
pub open spec fn project(s: Ledger, id: u64) -> Option<ProjectRecord> {
    project_at(s, project_slot(id))
}

/// Whether a project with the id exists.
pub open spec fn has_project(s: Ledger, id: u64) -> bool {
    s.contains_key(project_slot(id))
}

/// Whether the project exists and its active flag is on.
pub open spec fn is_open(s: Ledger, id: u64) -> bool {
    project(s, id) matches Some(p) && p.is_active
}

/// What the vault holds for a project in a token; 0 where nothing is stored.
pub open spec fn balance(s: Ledger, id: u64, token: Identity) -> i128 {
    match amount_at(s, balance_slot(id, token)) {
        Some(n) => n,
        None => 0,
    }
}

/// Whether the project's milestone has been approved; `false` where nothing
/// is stored.
pub open spec fn is_approved(s: Ledger, id: u64) -> bool {
    flag_at(s, milestone_slot(id)) == Some(true)
}

/// Whether the identity is a registered contributor.
pub open spec fn is_contributor(s: Ledger, who: Identity) -> bool {
    s.contains_key(contributor_slot(who))
}

/// The reputation of an identity; 0 where nothing is stored.
pub open spec fn reputation(s: Ledger, who: Identity) -> i128 {
    match amount_at(s, reputation_slot(who)) {
        Some(n) => n,
        None => 0,
    }
}

/// Every entry under one of the vault's keys holds a value of the key's kind.
pub open spec fn well_typed(s: Ledger) -> bool {
    &&& lookup(s, admin_slot()) matches Some(d) ==> d is Identity
    &&& lookup(s, counter_slot()) matches Some(d) ==> d is Counter
    &&& forall|id: u64| lookup(s, #[trigger] project_slot(id)) matches Some(d) ==> d is Project
    &&& forall|id: u64| lookup(s, #[trigger] milestone_slot(id)) matches Some(d) ==> d is Flag
    &&& forall|id: u64, token: Identity|
        lookup(s, #[trigger] balance_slot(id, token)) matches Some(d) ==> d is Amount
    &&& forall|who: Identity| lookup(s, #[trigger] contributor_slot(who)) matches Some(d) ==> d is Flag
    &&& forall|who: Identity| lookup(s, #[trigger] reputation_slot(who)) matches Some(d) ==> d is Amount
}

/// The books of one project are in order: the record carries its own id and a
/// positive target, nothing more was withdrawn than deposited, and the
/// balance in the project's token is what was deposited less what was
/// withdrawn.
pub open spec fn books_balance(s: Ledger, id: u64) -> bool {
    match project(s, id) {
        Some(p) => {
            &&& p.id == id
            &&& p.target_amount > 0
            &&& 0 <= p.total_withdrawn <= p.total_deposited
            &&& balance(s, id, p.token_address) == p.total_deposited - p.total_withdrawn
        },
        None => true,
    }
}

/// The invariant of the vault's storage: entries are well typed, the books of
/// every project balance, the projects are exactly those with an id below the
/// counter, the counter is kept only once an admin is, and a reputation is
/// kept only for a registered contributor.
pub open spec fn sound(s: Ledger) -> bool {
    &&& well_typed(s)
    &&& forall|id: u64| #[trigger] has_project(s, id) ==> books_balance(s, id)
    &&& forall|id: u64| #[trigger] has_project(s, id) <==> id < next_project_id(s)
    &&& s.contains_key(counter_slot()) ==> is_initialized(s)
    &&& forall|who: Identity| s.contains_key(#[trigger] reputation_slot(who)) ==> is_contributor(s, who)
}

/// Every project's active flag is on.
pub open spec fn all_active(s: Ledger) -> bool {
    forall|id: u64| #[trigger] has_project(s, id) ==> is_open(s, id)
}

// ---------------------------------------------------------------------------
// initialize

pub open spec fn initialize_outcome(s: Ledger) -> Result<(), CrowdfundError> {
    if is_initialized(s) {
        Err(CrowdfundError::AlreadyInitialized)
    } else {
        Ok(())
    }
}

pub open spec fn after_initialize(s: Ledger, admin: Identity) -> Ledger {
    s.insert(admin_slot(), Datum::Identity(admin)).insert(counter_slot(), Datum::Counter(0))
}

pub open spec fn initialize_effects(s: Ledger, admin: Identity) -> Seq<Effect> {
    if is_initialized(s) {
        seq![]
    } else {
        seq![
            Effect::Confirmed { who: admin },
            Effect::Published { event: events::initialized(admin) },
        ]
    }
}

// ---------------------------------------------------------------------------
// create_project

pub open spec fn create_project_outcome(s: Ledger, target_amount: i128) -> Result<
    u64,
    CrowdfundError,
> {
    if !is_initialized(s) {
        Err(CrowdfundError::NotInitialized)
    } else if target_amount <= 0 {
        Err(CrowdfundError::InvalidAmount)
    } else {
        Ok(next_project_id(s))
    }
}

/// Where `create_project` succeeds, the counter can still advance.
pub open spec fn create_project_fits(s: Ledger, target_amount: i128) -> bool {
    create_project_outcome(s, target_amount) is Ok ==> next_project_id(s) < u64::MAX
}

/// The record of a project that was just created.
pub open spec fn fresh_project(
    id: u64,
    owner: Identity,
    name: Seq<char>,
    target_amount: i128,
    token_address: Identity,
) -> ProjectRecord {
    ProjectRecord {
        id,
        owner,
        name,
        target_amount,
        token_address,
        total_deposited: 0,
        total_withdrawn: 0,
        is_active: true,
    }
}

pub open spec fn after_create_project(
    s: Ledger,
    owner: Identity,
    name: Seq<char>,
    target_amount: i128,
    token_address: Identity,
) -> Ledger {
    let id = next_project_id(s);
    s.insert(
        project_slot(id),
        Datum::Project(fresh_project(id, owner, name, target_amount, token_address)),
    ).insert(balance_slot(id, token_address), Datum::Amount(0)).insert(
        milestone_slot(id),
        Datum::Flag(false),
    ).insert(counter_slot(), Datum::Counter((id + 1) as u64))
}

pub open spec fn create_project_effects(
    s: Ledger,
    owner: Identity,
    target_amount: i128,
    token_address: Identity,
) -> Seq<Effect> {
    match create_project_outcome(s, target_amount) {
        Err(CrowdfundError::NotInitialized) => seq![],
        Err(_) => seq![Effect::Confirmed { who: owner }],
        Ok(id) => seq![
            Effect::Confirmed { who: owner },
            Effect::Published { event: events::project_created(owner, token_address, id) },
        ],
    }
}

// ---------------------------------------------------------------------------
// deposit

pub open spec fn deposit_outcome(s: Ledger, project_id: u64, amount: i128) -> Result<
    (),
    CrowdfundError,
> {
    if !is_initialized(s) {
        Err(CrowdfundError::NotInitialized)
    } else if amount <= 0 {
        Err(CrowdfundError::InvalidAmount)
    } else {
        match project(s, project_id) {
            None => Err(CrowdfundError::ProjectNotFound),
            Some(p) => if !p.is_active {
                Err(CrowdfundError::ProjectNotActive)
            } else {
                Ok(())
            },
        }
    }
}

/// Where `deposit` succeeds, the project's total of deposits can take the
/// amount without leaving the range of `i128`.
pub open spec fn deposit_fits(s: Ledger, project_id: u64, amount: i128) -> bool {
    deposit_outcome(s, project_id, amount) is Ok ==> project(
        s,
        project_id,
    ).unwrap().total_deposited + amount <= i128::MAX
}

pub open spec fn after_deposit(s: Ledger, project_id: u64, amount: i128) -> Ledger {
    let p = project(s, project_id).unwrap();
    s.insert(
        balance_slot(project_id, p.token_address),
        Datum::Amount((balance(s, project_id, p.token_address) + amount) as i128),
    ).insert(
        project_slot(project_id),
        Datum::Project(
            ProjectRecord { total_deposited: (p.total_deposited + amount) as i128, ..p },
        ),
    )
}

pub open spec fn deposit_effects(
    s: Ledger,
    vault: Identity,
    user: Identity,
    project_id: u64,
    amount: i128,
) -> Seq<Effect> {
    match deposit_outcome(s, project_id, amount) {
        Err(CrowdfundError::NotInitialized) => seq![],
        Err(_) => seq![Effect::Confirmed { who: user }],
        Ok(_) => seq![
            Effect::Confirmed { who: user },
            Effect::Transferred {
                token: project(s, project_id).unwrap().token_address,
                from: user,
                to: vault,
                amount,
            },
            Effect::Published { event: events::deposited(user, project_id, amount) },
        ],
    }
}

// ---------------------------------------------------------------------------
// approve_milestone

pub open spec fn approve_milestone_outcome(s: Ledger, caller: Identity, project_id: u64) -> Result<
    (),
    CrowdfundError,
> {
    match admin(s) {
        None => Err(CrowdfundError::NotInitialized),
        Some(a) => if a != caller {
            Err(CrowdfundError::Unauthorized)
        } else if !has_project(s, project_id) {
            Err(CrowdfundError::ProjectNotFound)
        } else {
            Ok(())
        },
    }
}

pub open spec fn after_approve_milestone(s: Ledger, project_id: u64) -> Ledger {
    s.insert(milestone_slot(project_id), Datum::Flag(true))
}

pub open spec fn approve_milestone_effects(s: Ledger, caller: Identity, project_id: u64) -> Seq<
    Effect,
> {
    match approve_milestone_outcome(s, caller, project_id) {
        Err(CrowdfundError::ProjectNotFound) => seq![Effect::Confirmed { who: caller }],
        Err(_) => seq![],
        Ok(_) => seq![
            Effect::Confirmed { who: caller },
            Effect::Published { event: events::milestone_approved(caller, project_id) },
        ],
    }
}

// ---------------------------------------------------------------------------
// withdraw

pub open spec fn withdraw_outcome(s: Ledger, project_id: u64, amount: i128) -> Result<
    (),
    CrowdfundError,
> {
    if !is_initialized(s) {
        Err(CrowdfundError::NotInitialized)
    } else {
        match project(s, project_id) {
            None => Err(CrowdfundError::ProjectNotFound),
            Some(p) => if !p.is_active {
                Err(CrowdfundError::ProjectNotActive)
            } else if amount <= 0 {
                Err(CrowdfundError::InvalidAmount)
            } else if !is_approved(s, project_id) {
                Err(CrowdfundError::MilestoneNotApproved)
            } else if balance(s, project_id, p.token_address) < amount {
                Err(CrowdfundError::InsufficientBalance)
            } else {
                Ok(())
            },
        }
    }
}

pub open spec fn after_withdraw(s: Ledger, project_id: u64, amount: i128) -> Ledger {
    let p = project(s, project_id).unwrap();
    s.insert(
        balance_slot(project_id, p.token_address),
        Datum::Amount((balance(s, project_id, p.token_address) - amount) as i128),
    ).insert(
        project_slot(project_id),
        Datum::Project(
            ProjectRecord { total_withdrawn: (p.total_withdrawn + amount) as i128, ..p },
        ),
    )
}

pub open spec fn withdraw_effects(s: Ledger, vault: Identity, project_id: u64, amount: i128) -> Seq<
    Effect,
> {
    match withdraw_outcome(s, project_id, amount) {
        Err(CrowdfundError::NotInitialized) => seq![],
        Err(CrowdfundError::ProjectNotFound) => seq![],
        Err(_) => seq![Effect::Confirmed { who: project(s, project_id).unwrap().owner }],
        Ok(_) => {
            let p = project(s, project_id).unwrap();
            seq![
                Effect::Confirmed { who: p.owner },
                Effect::Transferred { token: p.token_address, from: vault, to: p.owner, amount },
                Effect::Published { event: events::withdrawn(p.owner, project_id, amount) },
            ]
        },
    }
}

// ---------------------------------------------------------------------------
// register_contributor

pub open spec fn register_contributor_outcome(s: Ledger, contributor: Identity) -> Result<
    (),
    CrowdfundError,
> {
    if is_contributor(s, contributor) {
        Err(CrowdfundError::AlreadyRegistered)
    } else {
        Ok(())
    }
}

pub open spec fn after_register_contributor(s: Ledger, contributor: Identity) -> Ledger {
    s.insert(contributor_slot(contributor), Datum::Flag(true)).insert(
        reputation_slot(contributor),
        Datum::Amount(0),
    )
}

pub open spec fn register_contributor_effects(s: Ledger, contributor: Identity) -> Seq<Effect> {
    if is_contributor(s, contributor) {
        seq![Effect::Confirmed { who: contributor }]
    } else {
        seq![
            Effect::Confirmed { who: contributor },
            Effect::Published { event: events::contributor_registered(contributor) },
        ]
    }
}

// ---------------------------------------------------------------------------
// update_reputation

pub open spec fn update_reputation_outcome(s: Ledger, caller: Identity, contributor: Identity) -> Result<
    (),
    CrowdfundError,
> {
    match admin(s) {
        None => Err(CrowdfundError::NotInitialized),
        Some(a) => if a != caller {
            Err(CrowdfundError::Unauthorized)
        } else if !is_contributor(s, contributor) {
            Err(CrowdfundError::ContributorNotFound)
        } else {
            Ok(())
        },
    }
}

/// Where `update_reputation` succeeds, the contributor's reputation can take
/// the change without leaving the range of `i128`.
pub open spec fn update_reputation_fits(
    s: Ledger,
    caller: Identity,
    contributor: Identity,
    change: i128,
) -> bool {
    update_reputation_outcome(s, caller, contributor) is Ok ==> i128::MIN <= reputation(
        s,
        contributor,
    ) + change <= i128::MAX
}

pub open spec fn after_update_reputation(s: Ledger, contributor: Identity, change: i128) -> Ledger {
    s.insert(
        reputation_slot(contributor),
        Datum::Amount((reputation(s, contributor) + change) as i128),
    )
}

pub open spec fn update_reputation_effects(
    s: Ledger,
    caller: Identity,
    contributor: Identity,
    change: i128,
) -> Seq<Effect> {
    match update_reputation_outcome(s, caller, contributor) {
        Err(CrowdfundError::ContributorNotFound) => seq![Effect::Confirmed { who: caller }],
        Err(_) => seq![],
        Ok(_) => seq![
            Effect::Confirmed { who: caller },
            Effect::Published {
                event: events::reputation_updated(
                    contributor,
                    reputation(s, contributor),
                    (reputation(s, contributor) + change) as i128,
                ),
            },
        ],
    }
}

// ---------------------------------------------------------------------------
// queries

pub open spec fn get_reputation_outcome(s: Ledger, contributor: Identity) -> Result<
    i128,
    CrowdfundError,
> {
    if is_contributor(s, contributor) {
        Ok(reputation(s, contributor))
    } else {
        Err(CrowdfundError::ContributorNotFound)
    }
}

pub open spec fn get_project_outcome(s: Ledger, project_id: u64) -> Result<
    ProjectRecord,
    CrowdfundError,
> {
    match project(s, project_id) {
        Some(p) => Ok(p),
        None => Err(CrowdfundError::ProjectNotFound),
    }
}

pub open spec fn get_balance_outcome(s: Ledger, project_id: u64) -> Result<i128, CrowdfundError> {
    match project(s, project_id) {
        Some(p) => Ok(balance(s, project_id, p.token_address)),
        None => Err(CrowdfundError::ProjectNotFound),
    }
}

pub open spec fn is_milestone_approved_outcome(s: Ledger, project_id: u64) -> Result<
    bool,
    CrowdfundError,
> {
    if has_project(s, project_id) {
        Ok(is_approved(s, project_id))
    } else {
        Err(CrowdfundError::ProjectNotFound)
    }
}

pub open spec fn get_admin_outcome(s: Ledger) -> Result<Identity, CrowdfundError> {
    match admin(s) {
        Some(a) => Ok(a),
        None => Err(CrowdfundError::NotInitialized),
    }
}

} // verus!

verus! {

/// One call of an operation that changes the vault, with its arguments.
pub ghost enum Call {
    Initialize { admin: Identity },
    CreateProject { owner: Identity, name: Seq<char>, target_amount: i128, token_address: Identity },
    Deposit { user: Identity, project_id: u64, amount: i128 },
    ApproveMilestone { admin: Identity, project_id: u64 },
    Withdraw { project_id: u64, amount: i128 },
    RegisterContributor { contributor: Identity },
    UpdateReputation { admin: Identity, contributor: Identity, change: i128 },
}

/// Whether the call succeeds on the ledger: its outcome is `Ok` and the
/// numbers it writes fit their types.
pub open spec fn accepted(s: Ledger, call: Call) -> bool {
    match call {
        Call::Initialize { admin } => initialize_outcome(s) is Ok,
        Call::CreateProject { owner, name, target_amount, token_address } => {
            create_project_outcome(s, target_amount) is Ok && create_project_fits(s, target_amount)
        },
        Call::Deposit { user, project_id, amount } => {
            deposit_outcome(s, project_id, amount) is Ok && deposit_fits(s, project_id, amount)
        },
        Call::ApproveMilestone { admin, project_id } => approve_milestone_outcome(
            s,
            admin,
            project_id,
        ) is Ok,
        Call::Withdraw { project_id, amount } => withdraw_outcome(s, project_id, amount) is Ok,
        Call::RegisterContributor { contributor } => register_contributor_outcome(
            s,
            contributor,
        ) is Ok,
        Call::UpdateReputation { admin, contributor, change } => {
            update_reputation_outcome(s, admin, contributor) is Ok && update_reputation_fits(
                s,
                admin,
                contributor,
                change,
            )
        },
    }
}

/// The ledger after the call: changed as the operation says where the call
/// is accepted, untouched where it is not.
pub open spec fn step(s: Ledger, call: Call) -> Ledger {
    if !accepted(s, call) {
        s
    } else {
        match call {
            Call::Initialize { admin } => after_initialize(s, admin),
            Call::CreateProject {
                owner,
                name,
                target_amount,
                token_address,
            } => after_create_project(s, owner, name, target_amount, token_address),
            Call::Deposit { user, project_id, amount } => after_deposit(s, project_id, amount),
            Call::ApproveMilestone { admin, project_id } => after_approve_milestone(s, project_id),
            Call::Withdraw { project_id, amount } => after_withdraw(s, project_id, amount),
            Call::RegisterContributor { contributor } => after_register_contributor(
                s,
                contributor,
            ),
            Call::UpdateReputation { admin, contributor, change } => after_update_reputation(
                s,
                contributor,
                change,
            ),
        }
    }
}

/// The ledger after a sequence of calls, made one after the other.
pub open spec fn run(s: Ledger, calls: Seq<Call>) -> Ledger
    decreases calls.len(),
{
    if calls.len() == 0 {
        s
    } else {
        run(step(s, calls[0]), calls.drop_first())
    }
}

/// The project ids that a sequence of calls hands out, in the order of the
/// calls: one for each accepted `create_project`.
pub open spec fn issued_ids(s: Ledger, calls: Seq<Call>) -> Seq<u64>
    decreases calls.len(),
{
    if calls.len() == 0 {
        seq![]
    } else {
        let rest = issued_ids(step(s, calls[0]), calls.drop_first());
        if calls[0] is CreateProject && accepted(s, calls[0]) {
            seq![next_project_id(s)] + rest
        } else {
            rest
        }
    }
}

} // verus!
