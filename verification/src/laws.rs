//! What holds of the vault's state machine, proved over the functions of the
//! model.
use crate::errors::CrowdfundError;
use crate::host::{Datum, Identity, Slot};
use crate::model::{
    accepted, admin, after_approve_milestone, after_create_project, after_deposit,
    after_initialize, after_register_contributor, after_update_reputation, after_withdraw,
    approve_milestone_outcome, balance, books_balance, create_project_fits,
    create_project_outcome, deposit_fits, deposit_outcome, fresh_project, get_balance_outcome,
    get_project_outcome, has_project, initialize_outcome, is_milestone_approved_outcome,
    is_approved, is_contributor, is_initialized, is_open, issued_ids, next_project_id, project,
    all_active, register_contributor_outcome, run, sound, step, update_reputation_outcome,
    withdraw_outcome, Call, Ledger,
};
use crate::storage::lemma_tag_lengths;
use vstd::prelude::*;

verus! {

/// Storage that holds nothing is sound.
pub proof fn lemma_empty_is_sound()
    ensures
        sound(Map::<Slot, Datum>::empty()),
{
}

/// A change that leaves the counter and the set of projects alone, and
/// touches the record and the balances of at most one project, whose books
/// balance afterwards, leaves the books of every project balanced and the
/// projects those with an id below the counter.
proof fn lemma_projects_carry_over(s: Ledger, t: Ledger, changed: Option<u64>)
    requires
        sound(s),
        next_project_id(t) == next_project_id(s),
        forall|id: u64| #[trigger] has_project(t, id) == has_project(s, id),
        forall|id: u64| Some(id) != changed ==> #[trigger] project(t, id) == project(s, id),
        forall|id: u64, token: Identity|
            Some(id) != changed ==> #[trigger] balance(t, id, token) == balance(s, id, token),
        changed matches Some(id) ==> books_balance(t, id),
    ensures
        forall|id: u64| #[trigger] has_project(t, id) ==> books_balance(t, id),
        forall|id: u64| #[trigger] has_project(t, id) <==> id < next_project_id(t),
{
    assert forall|id: u64| #[trigger] has_project(t, id) implies books_balance(t, id) by {
        if Some(id) != changed {
            assert(has_project(s, id));
            assert(books_balance(s, id));
            assert(project(t, id) == project(s, id));
        }
    }
    assert forall|id: u64| #[trigger] has_project(t, id) <==> id < next_project_id(t) by {
        assert(has_project(s, id) <==> id < next_project_id(s));
    }
}

/// A successful `initialize` keeps the storage sound.
pub proof fn lemma_initialize_keeps_sound(s: Ledger, admin: Identity)
    requires
        sound(s),
        initialize_outcome(s) is Ok,
    ensures
        sound(after_initialize(s, admin)),
{
    lemma_tag_lengths();
    lemma_projects_carry_over(s, after_initialize(s, admin), None);
}

/// A successful `create_project` keeps the storage sound.
pub proof fn lemma_create_project_keeps_sound(
    s: Ledger,
    owner: Identity,
    name: Seq<char>,
    target_amount: i128,
    token_address: Identity,
)
    requires
        sound(s),
        create_project_outcome(s, target_amount) is Ok,
        create_project_fits(s, target_amount),
    ensures
        sound(after_create_project(s, owner, name, target_amount, token_address)),
{
    lemma_tag_lengths();
    let t = after_create_project(s, owner, name, target_amount, token_address);
    let new_id = next_project_id(s);
    assert(!has_project(s, new_id));
    assert forall|id: u64| #[trigger] has_project(t, id) implies books_balance(t, id) by {
        if id != new_id {
            assert(has_project(s, id));
            assert(books_balance(s, id));
            assert(project(t, id) == project(s, id));
        }
    }
    assert forall|id: u64| #[trigger] has_project(t, id) <==> id < next_project_id(t) by {
        assert(has_project(s, id) <==> id < next_project_id(s));
    }
}

/// A successful deposit keeps the storage sound: in particular the project's
/// balance is again what was deposited less what was withdrawn.
pub proof fn lemma_deposit_keeps_sound(s: Ledger, project_id: u64, amount: i128)
    requires
        sound(s),
        deposit_outcome(s, project_id, amount) is Ok,
        deposit_fits(s, project_id, amount),
    ensures
        sound(after_deposit(s, project_id, amount)),
        books_balance(after_deposit(s, project_id, amount), project_id),
{
    lemma_tag_lengths();
    assert(has_project(s, project_id));
    assert(books_balance(s, project_id));
    lemma_projects_carry_over(s, after_deposit(s, project_id, amount), Some(project_id));
}

/// A successful `approve_milestone` keeps the storage sound.
pub proof fn lemma_approve_milestone_keeps_sound(s: Ledger, caller: Identity, project_id: u64)
    requires
        sound(s),
        approve_milestone_outcome(s, caller, project_id) is Ok,
    ensures
        sound(after_approve_milestone(s, project_id)),
{
    lemma_tag_lengths();
    lemma_projects_carry_over(s, after_approve_milestone(s, project_id), None);
}

/// A successful `register_contributor` keeps the storage sound.
pub proof fn lemma_register_contributor_keeps_sound(s: Ledger, contributor: Identity)
    requires
        sound(s),
    ensures
        sound(after_register_contributor(s, contributor)),
{
    lemma_tag_lengths();
    lemma_projects_carry_over(s, after_register_contributor(s, contributor), None);
}

/// A successful `update_reputation` keeps the storage sound.
pub proof fn lemma_update_reputation_keeps_sound(
    s: Ledger,
    caller: Identity,
    contributor: Identity,
    change: i128,
)
    requires
        sound(s),
        update_reputation_outcome(s, caller, contributor) is Ok,
    ensures
        sound(after_update_reputation(s, contributor, change)),
{
    lemma_tag_lengths();
    lemma_projects_carry_over(s, after_update_reputation(s, contributor, change), None);
}

/// A successful withdrawal keeps the storage sound: in particular the
/// project's balance is again what was deposited less what was withdrawn.
pub proof fn lemma_withdraw_keeps_sound(s: Ledger, project_id: u64, amount: i128)
    requires
        sound(s),
        withdraw_outcome(s, project_id, amount) is Ok,
    ensures
        sound(after_withdraw(s, project_id, amount)),
        books_balance(after_withdraw(s, project_id, amount), project_id),
{
    lemma_tag_lengths();
    assert(has_project(s, project_id));
    assert(books_balance(s, project_id));
    lemma_projects_carry_over(s, after_withdraw(s, project_id, amount), Some(project_id));
}

/// Whatever the call, and whether it is accepted or refused, sound storage
/// stays sound.
pub proof fn lemma_step_keeps_sound(s: Ledger, call: Call)
    requires
        sound(s),
    ensures
        sound(step(s, call)),
{
    if accepted(s, call) {
        match call {
            Call::Initialize { admin } => lemma_initialize_keeps_sound(s, admin),
            Call::CreateProject {
                owner,
                name,
                target_amount,
                token_address,
            } => lemma_create_project_keeps_sound(s, owner, name, target_amount, token_address),
            Call::Deposit { user, project_id, amount } => lemma_deposit_keeps_sound(
                s,
                project_id,
                amount,
            ),
            Call::ApproveMilestone { admin, project_id } => lemma_approve_milestone_keeps_sound(
                s,
                admin,
                project_id,
            ),
            Call::Withdraw { project_id, amount } => lemma_withdraw_keeps_sound(
                s,
                project_id,
                amount,
            ),
            Call::RegisterContributor { contributor } => lemma_register_contributor_keeps_sound(
                s,
                contributor,
            ),
            Call::UpdateReputation {
                admin,
                contributor,
                change,
            } => lemma_update_reputation_keeps_sound(s, admin, contributor, change),
        }
    }
}

/// Any sequence of calls leaves sound storage sound.
pub proof fn lemma_run_keeps_sound(s: Ledger, calls: Seq<Call>)
    requires
        sound(s),
    ensures
        sound(run(s, calls)),
    decreases calls.len(),
{
    if calls.len() > 0 {
        lemma_step_keeps_sound(s, calls[0]);
        lemma_run_keeps_sound(step(s, calls[0]), calls.drop_first());
    }
}

/// The books balance in every state that calls can reach from empty storage:
/// for every project, the balance in its token is what was deposited less
/// what was withdrawn, and no more was withdrawn than deposited.
pub proof fn lemma_books_always_balance(calls: Seq<Call>, project_id: u64)
    ensures
        match project(run(Map::empty(), calls), project_id) {
            Some(p) => {
                &&& balance(run(Map::empty(), calls), project_id, p.token_address)
                    == p.total_deposited - p.total_withdrawn
                &&& 0 <= p.total_withdrawn <= p.total_deposited
            },
            None => true,
        },
{
    lemma_empty_is_sound();
    lemma_run_keeps_sound(Map::empty(), calls);
    let s = run(Map::<Slot, Datum>::empty(), calls);
    if project(s, project_id) is Some {
        assert(has_project(s, project_id));
        assert(books_balance(s, project_id));
    }
}

/// An accepted `create_project` hands out the counter's value and advances
/// the counter by one; every other call, and every refused one, leaves the
/// counter where it was.
pub proof fn lemma_counter_advances_on_creation_only(s: Ledger, call: Call)
    requires
        sound(s),
    ensures
        next_project_id(step(s, call)) == if call is CreateProject && accepted(s, call) {
            next_project_id(s) + 1
        } else {
            next_project_id(s) as int
        },
        match call {
            Call::CreateProject { target_amount, .. } => accepted(s, call)
                ==> create_project_outcome(s, target_amount) == Ok::<u64, CrowdfundError>(
                next_project_id(s),
            ),
            _ => true,
        },
{
    lemma_tag_lengths();
}

/// A creation with a positive target on storage that holds an admin returns
/// the counter's value as the new id. The new project starts with nothing
/// deposited or withdrawn, a balance of 0 and an unapproved milestone,
/// whoever owns the other projects and whatever their token. Every project
/// that existed keeps its record, its balance in every token and its
/// milestone flag. This holds for every value of the counter; with the
/// counter at the largest `u64` the operation itself cannot be called.
pub proof fn lemma_creation_leaves_other_projects_alone(
    s: Ledger,
    owner: Identity,
    name: Seq<char>,
    target_amount: i128,
    token_address: Identity,
    other: u64,
    token: Identity,
)
    requires
        sound(s),
        is_initialized(s),
        target_amount > 0,
    ensures
        create_project_outcome(s, target_amount) == Ok::<u64, CrowdfundError>(next_project_id(s)),
        ({
            let t = after_create_project(s, owner, name, target_amount, token_address);
            let n = next_project_id(s);
            &&& get_project_outcome(t, n) == Ok::<_, CrowdfundError>(
                fresh_project(n, owner, name, target_amount, token_address),
            )
            &&& get_balance_outcome(t, n) == Ok::<i128, CrowdfundError>(0)
            &&& is_milestone_approved_outcome(t, n) == Ok::<bool, CrowdfundError>(false)
            &&& has_project(s, other) ==> {
                &&& other < n
                &&& get_project_outcome(t, other) == get_project_outcome(s, other)
                &&& get_balance_outcome(t, other) == get_balance_outcome(s, other)
                &&& balance(t, other, token) == balance(s, other, token)
                &&& is_milestone_approved_outcome(t, other) == is_milestone_approved_outcome(
                    s,
                    other,
                )
            }
        }),
{
    lemma_tag_lengths();
    let n = next_project_id(s);
    assert(has_project(s, n) <==> n < next_project_id(s));
    if has_project(s, other) {
        assert(has_project(s, other) <==> other < next_project_id(s));
    }
}

/// Project ids count up from the counter: the ids that a sequence of calls
/// hands out are the counter's value at the start, then each the successor
/// of the one before, and the counter ends behind the last of them.
pub proof fn lemma_ids_count_up(s: Ledger, calls: Seq<Call>)
    requires
        sound(s),
    ensures
        forall|i: int|
            0 <= i < issued_ids(s, calls).len() ==> #[trigger] issued_ids(s, calls)[i]
                == next_project_id(s) + i,
        next_project_id(run(s, calls)) == next_project_id(s) + issued_ids(s, calls).len(),
    decreases calls.len(),
{
    if calls.len() > 0 {
        let t = step(s, calls[0]);
        lemma_step_keeps_sound(s, calls[0]);
        lemma_counter_advances_on_creation_only(s, calls[0]);
        lemma_ids_count_up(t, calls.drop_first());
        let rest = issued_ids(t, calls.drop_first());
        assert forall|i: int| 0 <= i < issued_ids(s, calls).len() implies #[trigger] issued_ids(
            s,
            calls,
        )[i] == next_project_id(s) + i by {
            if calls[0] is CreateProject && accepted(s, calls[0]) {
                if i > 0 {
                    assert(issued_ids(s, calls)[i] == rest[i - 1]);
                }
            }
        }
    }
}

/// From empty storage the project ids are 0, 1, 2 and so on: the `i`-th id
/// handed out is `i`.
pub proof fn lemma_ids_start_at_zero(calls: Seq<Call>, i: int)
    requires
        0 <= i < issued_ids(Map::empty(), calls).len(),
    ensures
        issued_ids(Map::empty(), calls)[i] == i,
{
    lemma_empty_is_sound();
    lemma_ids_count_up(Map::empty(), calls);
}

/// `initialize` succeeds at most once: after a success every further call
/// of it is refused as `AlreadyInitialized`, whatever was called in between,
/// and the admin stays who it was.
pub proof fn lemma_initialize_only_once(s: Ledger, first: Identity, calls: Seq<Call>)
    requires
        sound(s),
        initialize_outcome(s) is Ok,
    ensures
        initialize_outcome(run(after_initialize(s, first), calls)) == Err::<(), CrowdfundError>(
            CrowdfundError::AlreadyInitialized,
        ),
        admin(run(after_initialize(s, first), calls)) == Some(first),
{
    lemma_tag_lengths();
    lemma_initialize_keeps_sound(s, first);
    lemma_run_keeps_admin(after_initialize(s, first), calls);
}

/// Once an admin is stored, no sequence of calls removes or replaces it.
pub proof fn lemma_run_keeps_admin(s: Ledger, calls: Seq<Call>)
    requires
        sound(s),
        is_initialized(s),
    ensures
        is_initialized(run(s, calls)),
        admin(run(s, calls)) == admin(s),
    decreases calls.len(),
{
    if calls.len() > 0 {
        lemma_tag_lengths();
        lemma_step_keeps_sound(s, calls[0]);
        assert(is_initialized(step(s, calls[0])));
        assert(admin(step(s, calls[0])) == admin(s));
        lemma_run_keeps_admin(step(s, calls[0]), calls.drop_first());
    }
}

/// A contributor is registered at most once: after a success every further
/// registration of the same identity is refused as `AlreadyRegistered`,
/// whatever was called in between.
pub proof fn lemma_register_only_once(s: Ledger, contributor: Identity, calls: Seq<Call>)
    requires
        register_contributor_outcome(s, contributor) is Ok,
    ensures
        register_contributor_outcome(
            run(after_register_contributor(s, contributor), calls),
            contributor,
        ) == Err::<(), CrowdfundError>(CrowdfundError::AlreadyRegistered),
{
    lemma_tag_lengths();
    lemma_run_keeps_contributors(after_register_contributor(s, contributor), contributor, calls);
}

/// No sequence of calls takes a registration away.
pub proof fn lemma_run_keeps_contributors(s: Ledger, contributor: Identity, calls: Seq<Call>)
    requires
        is_contributor(s, contributor),
    ensures
        is_contributor(run(s, calls), contributor),
    decreases calls.len(),
{
    if calls.len() > 0 {
        lemma_tag_lengths();
        assert(is_contributor(step(s, calls[0]), contributor));
        lemma_run_keeps_contributors(step(s, calls[0]), contributor, calls.drop_first());
    }
}

/// An amount of zero or less is never accepted by `create_project`,
/// `deposit` or `withdraw`. The refusal is `InvalidAmount` wherever the
/// checks that come before the amount's pass: an admin is stored and, for
/// `withdraw`, the project exists and is active.
pub proof fn lemma_nonpositive_amounts_are_refused(s: Ledger, project_id: u64, amount: i128)
    requires
        amount <= 0,
    ensures
        create_project_outcome(s, amount) is Err,
        deposit_outcome(s, project_id, amount) is Err,
        withdraw_outcome(s, project_id, amount) is Err,
        is_initialized(s) ==> create_project_outcome(s, amount) == Err::<u64, CrowdfundError>(
            CrowdfundError::InvalidAmount,
        ),
        is_initialized(s) ==> deposit_outcome(s, project_id, amount) == Err::<(), CrowdfundError>(
            CrowdfundError::InvalidAmount,
        ),
        is_initialized(s) && is_open(s, project_id) ==> withdraw_outcome(s, project_id, amount)
            == Err::<(), CrowdfundError>(CrowdfundError::InvalidAmount),
{
}

/// Without an approved milestone no withdrawal is accepted, however large
/// the balance. The refusal is `MilestoneNotApproved` wherever the checks
/// that come before the milestone's pass: an admin is stored, the project
/// exists and is active, and the amount is positive.
pub proof fn lemma_withdraw_waits_for_approval(s: Ledger, project_id: u64, amount: i128)
    requires
        !is_approved(s, project_id),
    ensures
        withdraw_outcome(s, project_id, amount) is Err,
        is_initialized(s) && is_open(s, project_id) && amount > 0 ==> withdraw_outcome(
            s,
            project_id,
            amount,
        ) == Err::<(), CrowdfundError>(CrowdfundError::MilestoneNotApproved),
{
}

/// Once the admin has approved the milestone, a withdrawal of a positive
/// amount that the balance covers is accepted.
pub proof fn lemma_withdraw_succeeds_once_approved(
    s: Ledger,
    caller: Identity,
    project_id: u64,
    amount: i128,
)
    requires
        sound(s),
        approve_milestone_outcome(s, caller, project_id) is Ok,
        is_open(s, project_id),
        0 < amount <= balance(s, project_id, project(s, project_id).unwrap().token_address),
    ensures
        withdraw_outcome(after_approve_milestone(s, project_id), project_id, amount) is Ok,
{
    lemma_tag_lengths();
}

/// The milestone flag is a latch: once a project's milestone is approved, no
/// sequence of calls takes the approval back.
pub proof fn lemma_approval_is_kept(s: Ledger, project_id: u64, calls: Seq<Call>)
    requires
        sound(s),
        has_project(s, project_id),
        is_approved(s, project_id),
    ensures
        is_approved(run(s, calls), project_id),
    decreases calls.len(),
{
    if calls.len() > 0 {
        lemma_tag_lengths();
        let t = step(s, calls[0]);
        lemma_step_keeps_sound(s, calls[0]);
        assert(has_project(s, project_id) <==> project_id < next_project_id(s));
        assert(has_project(t, project_id));
        assert(is_approved(t, project_id));
        lemma_approval_is_kept(t, project_id, calls.drop_first());
    }
}

/// A project keeps its id, its owner, its token and its target through any
/// sequence of calls.
pub proof fn lemma_project_identity_is_kept(s: Ledger, project_id: u64, calls: Seq<Call>)
    requires
        sound(s),
        has_project(s, project_id),
    ensures
        has_project(run(s, calls), project_id),
        project(run(s, calls), project_id) matches Some(q) && {
            let p = project(s, project_id).unwrap();
            &&& q.id == p.id
            &&& q.owner == p.owner
            &&& q.name == p.name
            &&& q.token_address == p.token_address
            &&& q.target_amount == p.target_amount
            &&& q.is_active == p.is_active
        },
    decreases calls.len(),
{
    lemma_tag_lengths();
    if calls.len() > 0 {
        let t = step(s, calls[0]);
        lemma_step_keeps_sound(s, calls[0]);
        assert(has_project(s, project_id) <==> project_id < next_project_id(s));
        assert(has_project(t, project_id));
        lemma_project_identity_is_kept(t, project_id, calls.drop_first());
    }
}

/// No call switches a project's active flag off: where every project is
/// active, every project is active after any sequence of calls.
pub proof fn lemma_run_keeps_projects_active(s: Ledger, calls: Seq<Call>)
    requires
        sound(s),
        all_active(s),
    ensures
        all_active(run(s, calls)),
    decreases calls.len(),
{
    if calls.len() > 0 {
        lemma_tag_lengths();
        let t = step(s, calls[0]);
        lemma_step_keeps_sound(s, calls[0]);
        assert forall|id: u64| #[trigger] has_project(t, id) implies is_open(t, id) by {
            if has_project(s, id) {
                assert(is_open(s, id));
            }
        }
        lemma_run_keeps_projects_active(t, calls.drop_first());
    }
}

/// In every state that calls can reach from empty storage, each project is
/// active: `ProjectNotActive` is returned only on storage that something
/// other than these operations has written.
pub proof fn lemma_projects_are_always_active(calls: Seq<Call>, project_id: u64, amount: i128)
    ensures
        has_project(run(Map::empty(), calls), project_id) ==> is_open(
            run(Map::empty(), calls),
            project_id,
        ),
        deposit_outcome(run(Map::empty(), calls), project_id, amount) != Err::<(), CrowdfundError>(
            CrowdfundError::ProjectNotActive,
        ),
        withdraw_outcome(run(Map::empty(), calls), project_id, amount) != Err::<
            (),
            CrowdfundError,
        >(CrowdfundError::ProjectNotActive),
{
    lemma_empty_is_sound();
    lemma_run_keeps_projects_active(Map::empty(), calls);
    lemma_run_keeps_sound(Map::empty(), calls);
    let s = run(Map::<Slot, Datum>::empty(), calls);
    if project(s, project_id) is Some {
        assert(has_project(s, project_id));
    }
}

} // verus!
