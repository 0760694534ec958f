//! Calls into token contracts.
use crate::host::{
    carries_out, effects, in_invocation, running_contract, stored, strkey, Effect,
};
use soroban_sdk::{Address, Env};
use vstd::prelude::*;

verus! {

/// The transfer that is asked of a token contract.
pub open spec fn transfer_request(token: &Address, from: &Address, to: &Address, amount: i128) -> Effect {
    Effect::Transferred { token: strkey(*token), from: strkey(*from), to: strkey(*to), amount }
}

/// `TokenClient::transfer` on the token contract at `token`: that contract
/// carries out the transfer of `amount` from `from` to `to`. Where it fails
/// the host ends the invocation, so the call is made only where the host
/// carries the transfer out; what it carries out after the transfer, it
/// carries out once the transfer is made. What a transfer does to balances
/// is the token contract's affair. The storage of the running contract is
/// untouched: the host lets no contract write another's entries, nor call
/// back into a contract that is running.
#[verifier::external_body]
pub fn transfer(env: &mut Env, token: &Address, from: &Address, to: &Address, amount: &i128)
    requires
        exists|rest: Seq<Effect>|
            carries_out(
                *old(env),
                #[trigger] (seq![transfer_request(token, from, to, *amount)] + rest),
            ),
    ensures
        forall|rest: Seq<Effect>|
            carries_out(
                *old(env),
                #[trigger] (seq![transfer_request(token, from, to, *amount)] + rest),
            ) ==> carries_out(*final(env), rest),
        effects(*final(env)) == effects(*old(env)).push(
            transfer_request(token, from, to, *amount),
        ),
        stored(*final(env)) == stored(*old(env)),
        running_contract(*final(env)) == running_contract(*old(env)),
        in_invocation(*final(env)) == in_invocation(*old(env)),
{
    soroban_sdk::token::TokenClient::new(env, token).transfer(from, to, amount)
}

} // verus!
