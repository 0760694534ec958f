//! A small store behind an admin: one greeting and any number of named
//! amounts, which only the admin may set and anyone may read.
use crate::admin::{
    admin_check_effects, admin_check_outcome, admin_is_typed, admin_slot, lemma_admin_tag,
    require_admin, store_admin, store_admin_outcome, AdminError,
};
use crate::host::{
    in_invocation, effects, grants, lookup, persistent_get_amount, persistent_get_text, persistent_set_amount,
    persistent_set_text, running_contract, stored, string_bytes, strkey, symbol, symbol_text,
    Datum, Durability, Slot,
};
use soroban_sdk::{Address, Env, Symbol};
use vstd::prelude::*;

verus! {

pub open spec fn greeting_slot() -> Slot {
    Slot { durability: Durability::Persistent, tag: "GREETING"@, id: 0, who: None, label: None }
}

/// The slot of the amount named `key`. Named amounts are numbered 1, the
/// admin and the greeting 0: no name can reach either of them.
pub open spec fn value_slot(key: Seq<char>) -> Slot {
    Slot { durability: Durability::Persistent, tag: key, id: 1, who: None, label: None }
}

/// The stored greeting.
pub open spec fn greeting(s: Map<Slot, Datum>) -> Option<Seq<u8>> {
    match lookup(s, greeting_slot()) {
        Some(Datum::Text(t)) => Some(t),
        _ => None,
    }
}

/// The amount stored under a name.
pub open spec fn value(s: Map<Slot, Datum>, key: Seq<char>) -> Option<i128> {
    match lookup(s, value_slot(key)) {
        Some(Datum::Amount(n)) => Some(n),
        _ => None,
    }
}

/// Every entry of the store holds a value of its kind.
pub open spec fn tidy(s: Map<Slot, Datum>) -> bool {
    &&& admin_is_typed(s)
    &&& lookup(s, greeting_slot()) matches Some(d) ==> d is Text
    &&& forall|key: Seq<char>| lookup(s, #[trigger] value_slot(key)) matches Some(d) ==> d is Amount
}

/// The length of the greeting's tag, which tells it from the admin's.
pub proof fn lemma_greeting_tag()
    ensures
        "GREETING"@.len() == 8,
{
    reveal_strlit("GREETING");
}

/// The greeting and value store. Its state is the storage of the contract it
/// runs in.
pub struct LumenpulseContract;

impl LumenpulseContract {
    /// Stores the admin. Succeeds once: with an admin stored the call is
    /// refused.
    pub fn init(env: &mut Env, admin: Address) -> (result: Result<(), AdminError>)
        requires
            in_invocation(*old(env)),
            tidy(stored(*old(env))),
        ensures
            result == store_admin_outcome(stored(*old(env))),
            stored(*final(env)) == if result is Ok {
                stored(*old(env)).insert(admin_slot(), Datum::Identity(strkey(admin)))
            } else {
                stored(*old(env))
            },
            effects(*final(env)) == effects(*old(env)),
            running_contract(*final(env)) == running_contract(*old(env)),
            tidy(stored(*final(env))),
            in_invocation(*final(env)),
    {
        proof {
            lemma_admin_tag();
            lemma_greeting_tag();
        }
        store_admin(env, &admin)
    }

    /// Replaces the greeting. Only the admin may do so.
    pub fn set_greeting(env: &mut Env, caller: Address, greeting: soroban_sdk::String) -> (result:
        Result<(), AdminError>)
        requires
            in_invocation(*old(env)),
            tidy(stored(*old(env))),
            grants(*old(env), admin_check_effects(stored(*old(env)), strkey(caller))),
        ensures
            result == admin_check_outcome(stored(*old(env)), strkey(caller)),
            stored(*final(env)) == if result is Ok {
                stored(*old(env)).insert(greeting_slot(), Datum::Text(string_bytes(greeting)))
            } else {
                stored(*old(env))
            },
            effects(*final(env)) == effects(*old(env)) + admin_check_effects(
                stored(*old(env)),
                strkey(caller),
            ),
            running_contract(*final(env)) == running_contract(*old(env)),
            tidy(stored(*final(env))),
            in_invocation(*final(env)),
    {
        proof {
            reveal_strlit("GREETING");
            lemma_admin_tag();
        }
        match require_admin(env, &caller) {
            Ok(_) => {},
            Err(e) => {
                return Err(e);
            },
        }
        let tag = symbol(env, "GREETING");
        persistent_set_text(env, &tag, 0, None, &greeting);
        Ok(())
    }

    /// The greeting, if one was set.
    pub fn get_greeting(env: &Env) -> (found: Option<soroban_sdk::String>)
        requires
            in_invocation(*env),
            tidy(stored(*env)),
        ensures
            match found {
                Some(t) => greeting(stored(*env)) == Some(string_bytes(t)),
                None => greeting(stored(*env)) is None,
            },
    {
        proof {
            reveal_strlit("GREETING");
        }
        let tag = symbol(env, "GREETING");
        persistent_get_text(env, &tag, 0, None)
    }

    /// Stores `value` under the name `key`. Only the admin may do so.
    pub fn set_value(env: &mut Env, caller: Address, key: Symbol, value: i128) -> (result: Result<
        (),
        AdminError,
    >)
        requires
            in_invocation(*old(env)),
            tidy(stored(*old(env))),
            grants(*old(env), admin_check_effects(stored(*old(env)), strkey(caller))),
        ensures
            result == admin_check_outcome(stored(*old(env)), strkey(caller)),
            stored(*final(env)) == if result is Ok {
                stored(*old(env)).insert(value_slot(symbol_text(key)), Datum::Amount(value))
            } else {
                stored(*old(env))
            },
            effects(*final(env)) == effects(*old(env)) + admin_check_effects(
                stored(*old(env)),
                strkey(caller),
            ),
            running_contract(*final(env)) == running_contract(*old(env)),
            tidy(stored(*final(env))),
            in_invocation(*final(env)),
    {
        match require_admin(env, &caller) {
            Ok(_) => {},
            Err(e) => {
                return Err(e);
            },
        }
        persistent_set_amount(env, &key, 1, None, value);
        Ok(())
    }

    /// The amount stored under the name `key`, if there is one.
    pub fn get_value(env: &Env, key: Symbol) -> (found: Option<i128>)
        requires
            in_invocation(*env),
            tidy(stored(*env)),
        ensures
            found == value(stored(*env), symbol_text(key)),
    {
        persistent_get_amount(env, &key, 1, None)
    }
}

} // verus!
