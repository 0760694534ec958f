//! The crowdfund vault: projects, escrowed deposits, the milestone gate and
//! contributor reputation, kept in the storage of a Soroban contract.
//!
//! Every operation takes the handle of the running invocation. Its contract
//! gives the result, the storage afterwards and what the host was asked to do
//! besides, each as a function of the storage before the call and of the
//! arguments. An operation that is refused writes nothing.
//!
//! The storage of a new contract holds nothing, which is sound
//! ([`crate::laws::lemma_empty_is_sound`]); every operation keeps it sound.
//!
//! An operation asks the host to confirm an authorization and, for deposits
//! and withdrawals, to have a token contract make a transfer. The host ends
//! the invocation where it will not; so each operation requires that the
//! host grants what the operation is going to ask.
use crate::errors::CrowdfundError;
use crate::events::Event;
use crate::host::{
    in_invocation, current_contract, effects, grants, require_control, running_contract, same_address, stored,
    strkey, symbol_text, Effect,
};
use crate::laws::{
    lemma_approve_milestone_keeps_sound, lemma_create_project_keeps_sound,
    lemma_deposit_keeps_sound, lemma_initialize_keeps_sound,
    lemma_register_contributor_keeps_sound, lemma_update_reputation_keeps_sound,
    lemma_withdraw_keeps_sound,
};
use crate::model::{
    after_approve_milestone, after_create_project, after_deposit, after_initialize,
    after_register_contributor, after_update_reputation, after_withdraw,
    approve_milestone_effects, approve_milestone_outcome, books_balance, create_project_fits,
    create_project_effects, create_project_outcome, deposit_effects, deposit_fits,
    deposit_outcome, get_admin_outcome, get_balance_outcome, get_project_outcome,
    get_reputation_outcome, has_project, initialize_effects, initialize_outcome,
    is_milestone_approved_outcome, register_contributor_effects, register_contributor_outcome,
    sound, update_reputation_effects, update_reputation_fits, update_reputation_outcome,
    withdraw_effects, withdraw_outcome,
};
use crate::storage::{
    get_address, get_amount, get_counter, get_flag, get_record, is_stored, lemma_tag_lengths,
    set_address, set_amount, set_counter, set_flag, set_record, DataKey, ProjectData,
};
use crate::token::transfer;
use soroban_sdk::{Address, Env, Symbol};
use vstd::prelude::*;

verus! {

/// The vault. Its state is the storage of the contract it runs in.
pub struct CrowdfundVaultContract;

impl CrowdfundVaultContract {
    /// Stores the admin and starts the project counter at 0. Succeeds once:
    /// with an admin stored the call is refused. The admin must authorize the
    /// call.
    pub fn initialize(env: &mut Env, admin: Address) -> (result: Result<(), CrowdfundError>)
        requires
            in_invocation(*old(env)),
            sound(stored(*old(env))),
            grants(*old(env), initialize_effects(stored(*old(env)), strkey(admin))),
        ensures
            result == initialize_outcome(stored(*old(env))),
            stored(*final(env)) == if result is Ok {
                after_initialize(stored(*old(env)), strkey(admin))
            } else {
                stored(*old(env))
            },
            effects(*final(env)) == effects(*old(env)) + initialize_effects(
                stored(*old(env)),
                strkey(admin),
            ),
            running_contract(*final(env)) == running_contract(*old(env)),
            sound(stored(*final(env))),
            in_invocation(*final(env)),
    {
        if is_stored(env, &DataKey::Admin) {
            assert(effects(*env) =~= effects(*old(env)) + Seq::empty());
            return Err(CrowdfundError::AlreadyInitialized);
        }
        proof {
            let asked = Effect::Confirmed { who: strkey(admin) };
            let event = Effect::Published { event: crate::events::initialized(strkey(admin)) };
            assert(seq![asked] + seq![event] =~= initialize_effects(stored(*env), strkey(admin)));
        }
        require_control(env, &admin);
        set_address(env, &DataKey::Admin, &admin);
        set_counter(env, &DataKey::NextProjectId, 0);
        Event::Initialized { admin: &admin }.publish(env);
        proof {
            lemma_initialize_keeps_sound(stored(*old(env)), strkey(admin));
            assert(effects(*env) =~= effects(*old(env)) + initialize_effects(
                stored(*old(env)),
                strkey(admin),
            ));
        }
        Ok(())
    }

    /// Creates a project with the next free id and returns the id. The new
    /// project is active, has nothing deposited or withdrawn, a balance of 0
    /// and an unapproved milestone. The owner must authorize the call.
    pub fn create_project(
        env: &mut Env,
        owner: Address,
        name: Symbol,
        target_amount: i128,
        token_address: Address,
    ) -> (result: Result<u64, CrowdfundError>)
        requires
            in_invocation(*old(env)),
            sound(stored(*old(env))),
            create_project_fits(stored(*old(env)), target_amount),
            grants(
                *old(env),
                create_project_effects(
                    stored(*old(env)),
                    strkey(owner),
                    target_amount,
                    strkey(token_address),
                ),
            ),
        ensures
            result == create_project_outcome(stored(*old(env)), target_amount),
            stored(*final(env)) == if result is Ok {
                after_create_project(
                    stored(*old(env)),
                    strkey(owner),
                    symbol_text(name),
                    target_amount,
                    strkey(token_address),
                )
            } else {
                stored(*old(env))
            },
            effects(*final(env)) == effects(*old(env)) + create_project_effects(
                stored(*old(env)),
                strkey(owner),
                target_amount,
                strkey(token_address),
            ),
            running_contract(*final(env)) == running_contract(*old(env)),
            sound(stored(*final(env))),
            in_invocation(*final(env)),
    {
        proof {
            lemma_tag_lengths();
        }
        if !is_stored(env, &DataKey::Admin) {
            assert(effects(*env) =~= effects(*old(env)) + Seq::empty());
            return Err(CrowdfundError::NotInitialized);
        }
        proof {
            let asked = Effect::Confirmed { who: strkey(owner) };
            let wanted = create_project_effects(
                stored(*env),
                strkey(owner),
                target_amount,
                strkey(token_address),
            );
            match create_project_outcome(stored(*env), target_amount) {
                Ok(id) => {
                    let event = Effect::Published {
                        event: crate::events::project_created(
                            strkey(owner),
                            strkey(token_address),
                            id,
                        ),
                    };
                    assert(seq![asked] + seq![event] =~= wanted);
                },
                Err(_) => {
                    assert(seq![asked] + Seq::empty() =~= wanted);
                },
            }
        }
        require_control(env, &owner);
        assert(effects(*env) =~= effects(*old(env)) + seq![Effect::Confirmed { who: strkey(owner) }]);
        if target_amount <= 0 {
            return Err(CrowdfundError::InvalidAmount);
        }
        let project_id: u64 = match get_counter(env, &DataKey::NextProjectId) {
            Some(n) => n,
            None => 0,
        };
        let project = ProjectData {
            id: project_id,
            owner,
            name,
            target_amount,
            token_address,
            total_deposited: 0,
            total_withdrawn: 0,
            is_active: true,
        };
        set_record(env, &DataKey::Project(project_id), &project);
        set_amount(env, &DataKey::ProjectBalance(project_id, &project.token_address), 0);
        set_flag(env, &DataKey::MilestoneApproved(project_id), false);
        set_counter(env, &DataKey::NextProjectId, project_id + 1);
        Event::ProjectCreated {
            owner: &project.owner,
            token_address: &project.token_address,
            project_id,
        }.publish(env);
        proof {
            lemma_create_project_keeps_sound(
                stored(*old(env)),
                strkey(owner),
                symbol_text(name),
                target_amount,
                strkey(token_address),
            );
            assert(effects(*env) =~= effects(*old(env)) + create_project_effects(
                stored(*old(env)),
                strkey(owner),
                target_amount,
                strkey(token_address),
            ));
        }
        Ok(project_id)
    }

    /// Takes `amount` of the project's token from `user` into the vault and
    /// adds it to the project's balance and to its total of deposits. The
    /// user must authorize the call. Neither the milestone nor the target
    /// limits a deposit.
    pub fn deposit(env: &mut Env, user: Address, project_id: u64, amount: i128) -> (result: Result<
        (),
        CrowdfundError,
    >)
        requires
            in_invocation(*old(env)),
            sound(stored(*old(env))),
            deposit_fits(stored(*old(env)), project_id, amount),
            grants(
                *old(env),
                deposit_effects(
                    stored(*old(env)),
                    running_contract(*old(env)),
                    strkey(user),
                    project_id,
                    amount,
                ),
            ),
        ensures
            result == deposit_outcome(stored(*old(env)), project_id, amount),
            stored(*final(env)) == if result is Ok {
                after_deposit(stored(*old(env)), project_id, amount)
            } else {
                stored(*old(env))
            },
            effects(*final(env)) == effects(*old(env)) + deposit_effects(
                stored(*old(env)),
                running_contract(*old(env)),
                strkey(user),
                project_id,
                amount,
            ),
            running_contract(*final(env)) == running_contract(*old(env)),
            sound(stored(*final(env))),
            in_invocation(*final(env)),
    {
        proof {
            lemma_tag_lengths();
        }
        if !is_stored(env, &DataKey::Admin) {
            assert(effects(*env) =~= effects(*old(env)) + Seq::empty());
            return Err(CrowdfundError::NotInitialized);
        }
        let ghost wanted = deposit_effects(
            stored(*env),
            running_contract(*env),
            strkey(user),
            project_id,
            amount,
        );
        let ghost asked = Effect::Confirmed { who: strkey(user) };
        proof {
            if deposit_outcome(stored(*env), project_id, amount) is Ok {
                assert(seq![asked] + seq![wanted[1], wanted[2]] =~= wanted);
            } else {
                assert(seq![asked] + Seq::empty() =~= wanted);
            }
        }
        require_control(env, &user);
        assert(effects(*env) =~= effects(*old(env)) + seq![Effect::Confirmed { who: strkey(user) }]);
        if amount <= 0 {
            return Err(CrowdfundError::InvalidAmount);
        }
        let mut project = match get_record(env, &DataKey::Project(project_id)) {
            Some(p) => p,
            None => {
                return Err(CrowdfundError::ProjectNotFound);
            },
        };
        if !project.is_active {
            return Err(CrowdfundError::ProjectNotActive);
        }
        let contract_address = current_contract(env);
        proof {
            assert(seq![asked] + seq![wanted[1], wanted[2]] =~= wanted);
            assert(seq![wanted[1]] + seq![wanted[2]] =~= seq![wanted[1], wanted[2]]);
        }
        transfer(env, &project.token_address, &user, &contract_address, &amount);
        proof {
            assert(has_project(stored(*old(env)), project_id));
            assert(books_balance(stored(*old(env)), project_id));
        }
        let current_balance = match get_amount(
            env,
            &DataKey::ProjectBalance(project_id, &project.token_address),
        ) {
            Some(n) => n,
            None => 0,
        };
        set_amount(
            env,
            &DataKey::ProjectBalance(project_id, &project.token_address),
            current_balance + amount,
        );
        project.total_deposited = project.total_deposited + amount;
        set_record(env, &DataKey::Project(project_id), &project);
        Event::Deposit { user: &user, project_id, amount }.publish(env);
        proof {
            lemma_deposit_keeps_sound(stored(*old(env)), project_id, amount);
            assert(effects(*env) =~= effects(*old(env)) + deposit_effects(
                stored(*old(env)),
                running_contract(*old(env)),
                strkey(user),
                project_id,
                amount,
            ));
        }
        Ok(())
    }

    /// Sets the project's milestone flag. Only the stored admin may do so,
    /// and must authorize the call. Approving again changes nothing and is no
    /// error.
    pub fn approve_milestone(env: &mut Env, admin: Address, project_id: u64) -> (result: Result<
        (),
        CrowdfundError,
    >)
        requires
            in_invocation(*old(env)),
            sound(stored(*old(env))),
            grants(
                *old(env),
                approve_milestone_effects(stored(*old(env)), strkey(admin), project_id),
            ),
        ensures
            result == approve_milestone_outcome(stored(*old(env)), strkey(admin), project_id),
            stored(*final(env)) == if result is Ok {
                after_approve_milestone(stored(*old(env)), project_id)
            } else {
                stored(*old(env))
            },
            effects(*final(env)) == effects(*old(env)) + approve_milestone_effects(
                stored(*old(env)),
                strkey(admin),
                project_id,
            ),
            running_contract(*final(env)) == running_contract(*old(env)),
            sound(stored(*final(env))),
            in_invocation(*final(env)),
    {
        proof {
            lemma_tag_lengths();
        }
        let stored_admin = match get_address(env, &DataKey::Admin) {
            Some(a) => a,
            None => {
                assert(effects(*env) =~= effects(*old(env)) + Seq::empty());
                return Err(CrowdfundError::NotInitialized);
            },
        };
        if !same_address(&admin, &stored_admin) {
            assert(effects(*env) =~= effects(*old(env)) + Seq::empty());
            return Err(CrowdfundError::Unauthorized);
        }
        proof {
            let asked = Effect::Confirmed { who: strkey(admin) };
            let wanted = approve_milestone_effects(stored(*env), strkey(admin), project_id);
            if approve_milestone_outcome(stored(*env), strkey(admin), project_id) is Ok {
                assert(seq![asked] + seq![wanted[1]] =~= wanted);
            } else {
                assert(seq![asked] + Seq::empty() =~= wanted);
            }
        }
        require_control(env, &admin);
        assert(effects(*env) =~= effects(*old(env)) + seq![Effect::Confirmed { who: strkey(admin) }]);
        if !is_stored(env, &DataKey::Project(project_id)) {
            return Err(CrowdfundError::ProjectNotFound);
        }
        set_flag(env, &DataKey::MilestoneApproved(project_id), true);
        Event::MilestoneApproved { admin: &admin, project_id }.publish(env);
        proof {
            lemma_approve_milestone_keeps_sound(stored(*old(env)), strkey(admin), project_id);
            assert(effects(*env) =~= effects(*old(env)) + approve_milestone_effects(
                stored(*old(env)),
                strkey(admin),
                project_id,
            ));
        }
        Ok(())
    }

    /// Pays `amount` out of a project's balance to its owner. The owner must
    /// authorize the call, the milestone must have been approved, and the
    /// balance must cover the amount.
    pub fn withdraw(env: &mut Env, project_id: u64, amount: i128) -> (result: Result<
        (),
        CrowdfundError,
    >)
        requires
            in_invocation(*old(env)),
            sound(stored(*old(env))),
            grants(
                *old(env),
                withdraw_effects(
                    stored(*old(env)),
                    running_contract(*old(env)),
                    project_id,
                    amount,
                ),
            ),
        ensures
            result == withdraw_outcome(stored(*old(env)), project_id, amount),
            stored(*final(env)) == if result is Ok {
                after_withdraw(stored(*old(env)), project_id, amount)
            } else {
                stored(*old(env))
            },
            effects(*final(env)) == effects(*old(env)) + withdraw_effects(
                stored(*old(env)),
                running_contract(*old(env)),
                project_id,
                amount,
            ),
            running_contract(*final(env)) == running_contract(*old(env)),
            sound(stored(*final(env))),
            in_invocation(*final(env)),
    {
        proof {
            lemma_tag_lengths();
        }
        if !is_stored(env, &DataKey::Admin) {
            assert(effects(*env) =~= effects(*old(env)) + Seq::empty());
            return Err(CrowdfundError::NotInitialized);
        }
        let mut project = match get_record(env, &DataKey::Project(project_id)) {
            Some(p) => p,
            None => {
                assert(effects(*env) =~= effects(*old(env)) + Seq::empty());
                return Err(CrowdfundError::ProjectNotFound);
            },
        };
        let ghost wanted = withdraw_effects(
            stored(*env),
            running_contract(*env),
            project_id,
            amount,
        );
        let ghost asked = Effect::Confirmed { who: strkey(project.owner) };
        proof {
            if withdraw_outcome(stored(*env), project_id, amount) is Ok {
                assert(seq![asked] + seq![wanted[1], wanted[2]] =~= wanted);
            } else {
                assert(seq![asked] + Seq::empty() =~= wanted);
            }
        }
        require_control(env, &project.owner);
        assert(effects(*env) =~= effects(*old(env)) + seq![
            Effect::Confirmed { who: strkey(project.owner) },
        ]);
        if !project.is_active {
            return Err(CrowdfundError::ProjectNotActive);
        }
        if amount <= 0 {
            return Err(CrowdfundError::InvalidAmount);
        }
        let is_approved = match get_flag(env, &DataKey::MilestoneApproved(project_id)) {
            Some(flag) => flag,
            None => false,
        };
        if !is_approved {
            return Err(CrowdfundError::MilestoneNotApproved);
        }
        let current_balance = match get_amount(
            env,
            &DataKey::ProjectBalance(project_id, &project.token_address),
        ) {
            Some(n) => n,
            None => 0,
        };
        if current_balance < amount {
            return Err(CrowdfundError::InsufficientBalance);
        }
        let contract_address = current_contract(env);
        proof {
            assert(seq![asked] + seq![wanted[1], wanted[2]] =~= wanted);
            assert(seq![wanted[1]] + seq![wanted[2]] =~= seq![wanted[1], wanted[2]]);
        }
        transfer(env, &project.token_address, &contract_address, &project.owner, &amount);
        set_amount(
            env,
            &DataKey::ProjectBalance(project_id, &project.token_address),
            current_balance - amount,
        );
        proof {
            assert(has_project(stored(*old(env)), project_id));
            assert(books_balance(stored(*old(env)), project_id));
        }
        project.total_withdrawn = project.total_withdrawn + amount;
        set_record(env, &DataKey::Project(project_id), &project);
        Event::Withdraw { owner: &project.owner, project_id, amount }.publish(env);
        proof {
            lemma_withdraw_keeps_sound(stored(*old(env)), project_id, amount);
            assert(effects(*env) =~= effects(*old(env)) + withdraw_effects(
                stored(*old(env)),
                running_contract(*old(env)),
                project_id,
                amount,
            ));
        }
        Ok(())
    }

    /// Registers `contributor` with a reputation of 0. The contributor must
    /// authorize the call; registering twice is refused.
    pub fn register_contributor(env: &mut Env, contributor: Address) -> (result: Result<
        (),
        CrowdfundError,
    >)
        requires
            in_invocation(*old(env)),
            sound(stored(*old(env))),
            grants(
                *old(env),
                register_contributor_effects(stored(*old(env)), strkey(contributor)),
            ),
        ensures
            result == register_contributor_outcome(stored(*old(env)), strkey(contributor)),
            stored(*final(env)) == if result is Ok {
                after_register_contributor(stored(*old(env)), strkey(contributor))
            } else {
                stored(*old(env))
            },
            effects(*final(env)) == effects(*old(env)) + register_contributor_effects(
                stored(*old(env)),
                strkey(contributor),
            ),
            running_contract(*final(env)) == running_contract(*old(env)),
            sound(stored(*final(env))),
            in_invocation(*final(env)),
    {
        proof {
            let asked = Effect::Confirmed { who: strkey(contributor) };
            let event = Effect::Published {
                event: crate::events::contributor_registered(strkey(contributor)),
            };
            if register_contributor_outcome(stored(*env), strkey(contributor)) is Ok {
                assert(seq![asked] + seq![event] =~= register_contributor_effects(
                    stored(*env),
                    strkey(contributor),
                ));
            } else {
                assert(seq![asked] + Seq::empty() =~= register_contributor_effects(
                    stored(*env),
                    strkey(contributor),
                ));
            }
        }
        require_control(env, &contributor);
        assert(effects(*env) =~= effects(*old(env)) + seq![
            Effect::Confirmed { who: strkey(contributor) },
        ]);
        if is_stored(env, &DataKey::Contributor(&contributor)) {
            return Err(CrowdfundError::AlreadyRegistered);
        }
        set_flag(env, &DataKey::Contributor(&contributor), true);
        set_amount(env, &DataKey::Reputation(&contributor), 0);
        Event::ContributorRegistered { contributor: &contributor }.publish(env);
        proof {
            lemma_register_contributor_keeps_sound(stored(*old(env)), strkey(contributor));
            assert(effects(*env) =~= effects(*old(env)) + register_contributor_effects(
                stored(*old(env)),
                strkey(contributor),
            ));
        }
        Ok(())
    }

    /// Adds `change` to a registered contributor's reputation, without floor
    /// or ceiling. Only the stored admin may do so, and must authorize the
    /// call.
    pub fn update_reputation(
        env: &mut Env,
        admin: Address,
        contributor: Address,
        change: i128,
    ) -> (result: Result<(), CrowdfundError>)
        requires
            in_invocation(*old(env)),
            sound(stored(*old(env))),
            update_reputation_fits(
                stored(*old(env)),
                strkey(admin),
                strkey(contributor),
                change,
            ),
            grants(
                *old(env),
                update_reputation_effects(
                    stored(*old(env)),
                    strkey(admin),
                    strkey(contributor),
                    change,
                ),
            ),
        ensures
            result == update_reputation_outcome(
                stored(*old(env)),
                strkey(admin),
                strkey(contributor),
            ),
            stored(*final(env)) == if result is Ok {
                after_update_reputation(stored(*old(env)), strkey(contributor), change)
            } else {
                stored(*old(env))
            },
            effects(*final(env)) == effects(*old(env)) + update_reputation_effects(
                stored(*old(env)),
                strkey(admin),
                strkey(contributor),
                change,
            ),
            running_contract(*final(env)) == running_contract(*old(env)),
            sound(stored(*final(env))),
            in_invocation(*final(env)),
    {
        proof {
            lemma_tag_lengths();
        }
        let stored_admin = match get_address(env, &DataKey::Admin) {
            Some(a) => a,
            None => {
                assert(effects(*env) =~= effects(*old(env)) + Seq::empty());
                return Err(CrowdfundError::NotInitialized);
            },
        };
        if !same_address(&admin, &stored_admin) {
            assert(effects(*env) =~= effects(*old(env)) + Seq::empty());
            return Err(CrowdfundError::Unauthorized);
        }
        proof {
            let asked = Effect::Confirmed { who: strkey(admin) };
            let wanted = update_reputation_effects(
                stored(*env),
                strkey(admin),
                strkey(contributor),
                change,
            );
            if update_reputation_outcome(stored(*env), strkey(admin), strkey(contributor)) is Ok {
                assert(seq![asked] + seq![wanted[1]] =~= wanted);
            } else {
                assert(seq![asked] + Seq::empty() =~= wanted);
            }
        }
        require_control(env, &admin);
        assert(effects(*env) =~= effects(*old(env)) + seq![Effect::Confirmed { who: strkey(admin) }]);
        if !is_stored(env, &DataKey::Contributor(&contributor)) {
            return Err(CrowdfundError::ContributorNotFound);
        }
        let old_reputation = match get_amount(env, &DataKey::Reputation(&contributor)) {
            Some(n) => n,
            None => 0,
        };
        let new_reputation = old_reputation + change;
        set_amount(env, &DataKey::Reputation(&contributor), new_reputation);
        Event::ReputationUpdated {
            contributor: &contributor,
            old_reputation,
            new_reputation,
        }.publish(env);
        proof {
            lemma_update_reputation_keeps_sound(
                stored(*old(env)),
                strkey(admin),
                strkey(contributor),
                change,
            );
            assert(effects(*env) =~= effects(*old(env)) + update_reputation_effects(
                stored(*old(env)),
                strkey(admin),
                strkey(contributor),
                change,
            ));
        }
        Ok(())
    }

    /// The reputation of a registered contributor.
    pub fn get_reputation(env: &Env, contributor: Address) -> (result: Result<i128, CrowdfundError>)
        requires
            in_invocation(*env),
            sound(stored(*env)),
        ensures
            result == get_reputation_outcome(stored(*env), strkey(contributor)),
    {
        if !is_stored(env, &DataKey::Contributor(&contributor)) {
            return Err(CrowdfundError::ContributorNotFound);
        }
        match get_amount(env, &DataKey::Reputation(&contributor)) {
            Some(n) => Ok(n),
            None => Ok(0),
        }
    }

    /// The stored record of a project.
    pub fn get_project(env: &Env, project_id: u64) -> (result: Result<ProjectData, CrowdfundError>)
        requires
            in_invocation(*env),
            sound(stored(*env)),
        ensures
            match result {
                Ok(p) => get_project_outcome(stored(*env), project_id) == Ok::<_, CrowdfundError>(p@),
                Err(e) => get_project_outcome(stored(*env), project_id) == Err::<
                    crate::storage::ProjectRecord,
                    _,
                >(e),
            },
    {
        match get_record(env, &DataKey::Project(project_id)) {
            Some(p) => Ok(p),
            None => Err(CrowdfundError::ProjectNotFound),
        }
    }

    /// What the vault holds for a project, in the project's token.
    pub fn get_balance(env: &Env, project_id: u64) -> (result: Result<i128, CrowdfundError>)
        requires
            in_invocation(*env),
            sound(stored(*env)),
        ensures
            result == get_balance_outcome(stored(*env), project_id),
    {
        let project = match get_record(env, &DataKey::Project(project_id)) {
            Some(p) => p,
            None => {
                return Err(CrowdfundError::ProjectNotFound);
            },
        };
        match get_amount(env, &DataKey::ProjectBalance(project_id, &project.token_address)) {
            Some(n) => Ok(n),
            None => Ok(0),
        }
    }

    /// Whether the milestone of a project has been approved.
    pub fn is_milestone_approved(env: &Env, project_id: u64) -> (result: Result<
        bool,
        CrowdfundError,
    >)
        requires
            in_invocation(*env),
            sound(stored(*env)),
        ensures
            result == is_milestone_approved_outcome(stored(*env), project_id),
    {
        if !is_stored(env, &DataKey::Project(project_id)) {
            return Err(CrowdfundError::ProjectNotFound);
        }
        match get_flag(env, &DataKey::MilestoneApproved(project_id)) {
            Some(flag) => Ok(flag),
            None => Ok(false),
        }
    }

    /// Whether `create_project` may be called with this target: it may unless
    /// the call would succeed and the project counter could not advance.
    pub fn create_project_has_room(env: &Env, target_amount: i128) -> (fits: bool)
        requires
            in_invocation(*env),
            sound(stored(*env)),
        ensures
            fits == create_project_fits(stored(*env), target_amount),
    {
        if !is_stored(env, &DataKey::Admin) || target_amount <= 0 {
            return true;
        }
        match get_counter(env, &DataKey::NextProjectId) {
            Some(n) => n < u64::MAX,
            None => true,
        }
    }

    /// Whether `deposit` may be called with these arguments: it may unless
    /// the call would succeed and the project's total of deposits could not
    /// take the amount.
    pub fn deposit_has_room(env: &Env, project_id: u64, amount: i128) -> (fits: bool)
        requires
            in_invocation(*env),
            sound(stored(*env)),
        ensures
            fits == deposit_fits(stored(*env), project_id, amount),
    {
        if !is_stored(env, &DataKey::Admin) || amount <= 0 {
            return true;
        }
        match get_record(env, &DataKey::Project(project_id)) {
            Some(p) => {
                proof {
                    assert(has_project(stored(*env), project_id));
                    assert(books_balance(stored(*env), project_id));
                }
                !p.is_active || amount <= i128::MAX - p.total_deposited
            },
            None => true,
        }
    }

    /// Whether `update_reputation` may be called with these arguments: it
    /// may unless the call would succeed and the contributor's reputation
    /// could not take the change.
    pub fn update_reputation_has_room(
        env: &Env,
        admin: &Address,
        contributor: &Address,
        change: i128,
    ) -> (fits: bool)
        requires
            in_invocation(*env),
            sound(stored(*env)),
        ensures
            fits == update_reputation_fits(
                stored(*env),
                strkey(*admin),
                strkey(*contributor),
                change,
            ),
    {
        let stored_admin = match get_address(env, &DataKey::Admin) {
            Some(a) => a,
            None => {
                return true;
            },
        };
        if !same_address(admin, &stored_admin) {
            return true;
        }
        if !is_stored(env, &DataKey::Contributor(contributor)) {
            return true;
        }
        let current = match get_amount(env, &DataKey::Reputation(contributor)) {
            Some(n) => n,
            None => 0,
        };
        if change >= 0 {
            current <= i128::MAX - change
        } else {
            current >= i128::MIN - change
        }
    }

    /// The stored admin.
    pub fn get_admin(env: &Env) -> (result: Result<Address, CrowdfundError>)
        requires
            in_invocation(*env),
            sound(stored(*env)),
        ensures
            match result {
                Ok(a) => get_admin_outcome(stored(*env)) == Ok::<_, CrowdfundError>(strkey(a)),
                Err(e) => get_admin_outcome(stored(*env)) == Err::<crate::host::Identity, _>(e),
            },
    {
        match get_address(env, &DataKey::Admin) {
            Some(a) => Ok(a),
            None => Err(CrowdfundError::NotInitialized),
        }
    }
}

} // verus!
