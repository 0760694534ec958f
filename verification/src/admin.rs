//! The admin of a small store: stored once, and asked for before every
//! write.
use crate::host::{
    in_invocation, effects, grants, lookup, persistent_get_address, persistent_has, persistent_set_address,
    require_control, running_contract, same_address, stored, strkey, symbol, Datum, Durability,
    Effect, Identity, Slot,
};
use soroban_sdk::{Address, Env};
use vstd::prelude::*;

verus! {

/// The ways in which a store refuses an operation.
#[derive(Clone, Copy, Debug, PartialEq, Eq, Structural)]
pub enum AdminError {
    /// An admin is already stored.
    AlreadyInitialized,
    /// No admin is stored yet.
    NotInitialized,
    /// The caller is not the stored admin.
    NotAuthorized,
}

pub open spec fn admin_slot() -> Slot {
    Slot { durability: Durability::Persistent, tag: "ADMIN"@, id: 0, who: None, label: None }
}

/// The stored admin.
pub open spec fn admin(s: Map<Slot, Datum>) -> Option<Identity> {
    match lookup(s, admin_slot()) {
        Some(Datum::Identity(a)) => Some(a),
        _ => None,
    }
}

/// The entry of the admin, where there is one, holds an identity.
pub open spec fn admin_is_typed(s: Map<Slot, Datum>) -> bool {
    lookup(s, admin_slot()) matches Some(d) ==> d is Identity
}

pub open spec fn store_admin_outcome(s: Map<Slot, Datum>) -> Result<(), AdminError> {
    if s.contains_key(admin_slot()) {
        Err(AdminError::AlreadyInitialized)
    } else {
        Ok(())
    }
}

/// Whether a write by `caller` is let through: only one by the stored admin
/// is.
pub open spec fn admin_check_outcome(s: Map<Slot, Datum>, caller: Identity) -> Result<
    (),
    AdminError,
> {
    match admin(s) {
        None => Err(AdminError::NotInitialized),
        Some(a) => if a == caller {
            Ok(())
        } else {
            Err(AdminError::NotAuthorized)
        },
    }
}

/// What the admin check has the host do: with an admin stored, the caller's
/// control is confirmed before the caller is compared with the admin.
pub open spec fn admin_check_effects(s: Map<Slot, Datum>, caller: Identity) -> Seq<Effect> {
    match admin(s) {
        None => seq![],
        Some(_) => seq![Effect::Confirmed { who: caller }],
    }
}

/// The length of the admin's tag.
pub proof fn lemma_admin_tag()
    ensures
        "ADMIN"@.len() == 5,
{
    reveal_strlit("ADMIN");
}

/// Stores the admin. Succeeds once: with an admin stored the call is refused.
pub fn store_admin(env: &mut Env, admin: &Address) -> (result: Result<(), AdminError>)
    requires
        in_invocation(*old(env)),
    ensures
        result == store_admin_outcome(stored(*old(env))),
        stored(*final(env)) == if result is Ok {
            stored(*old(env)).insert(admin_slot(), Datum::Identity(strkey(*admin)))
        } else {
            stored(*old(env))
        },
        effects(*final(env)) == effects(*old(env)),
        running_contract(*final(env)) == running_contract(*old(env)),
        in_invocation(*final(env)),
{
    proof {
        reveal_strlit("ADMIN");
    }
    let tag = symbol(env, "ADMIN");
    if persistent_has(env, &tag, 0, None) {
        return Err(AdminError::AlreadyInitialized);
    }
    persistent_set_address(env, &tag, 0, None, admin);
    Ok(())
}

/// The check before every write: an admin must be stored, the caller's
/// control must be confirmed, and the caller must be the admin.
pub fn require_admin(env: &mut Env, caller: &Address) -> (result: Result<(), AdminError>)
    requires
        in_invocation(*old(env)),
        admin_is_typed(stored(*old(env))),
        grants(*old(env), admin_check_effects(stored(*old(env)), strkey(*caller))),
    ensures
        result == admin_check_outcome(stored(*old(env)), strkey(*caller)),
        stored(*final(env)) == stored(*old(env)),
        effects(*final(env)) == effects(*old(env)) + admin_check_effects(
            stored(*old(env)),
            strkey(*caller),
        ),
        running_contract(*final(env)) == running_contract(*old(env)),
        in_invocation(*final(env)),
{
    proof {
        reveal_strlit("ADMIN");
    }
    let tag = symbol(env, "ADMIN");
    let admin = match persistent_get_address(env, &tag, 0, None) {
        Some(a) => a,
        None => {
            assert(effects(*env) =~= effects(*old(env)) + Seq::empty());
            return Err(AdminError::NotInitialized);
        },
    };
    proof {
        assert(seq![Effect::Confirmed { who: strkey(*caller) }] + Seq::empty()
            =~= admin_check_effects(stored(*env), strkey(*caller)));
    }
    require_control(env, caller);
    assert(effects(*env) =~= effects(*old(env)) + seq![Effect::Confirmed { who: strkey(*caller) }]);
    if !same_address(&admin, caller) {
        return Err(AdminError::NotAuthorized);
    }
    Ok(())
}

} // verus!
