//! The boundary with the Soroban host.
//!
//! Everything the contracts of this crate know about the host is stated
//! here and is believed, not proved. The host's state is modelled by three
//! quantities of an [`Env`]: what the running contract's storage holds
//! ([`stored`]), what the contract has had the host do besides, in order
//! ([`effects`]), and which contract is running ([`running_contract`]).
//!
//! A host call either returns or ends the invocation. When it ends the
//! invocation, the host drops every write the invocation made, and control
//! never comes back to the caller. Two calls end the invocation on grounds
//! that lie with the host alone: the demand that an address has authorized
//! the invocation, and a transfer by a token contract. Whether the host
//! will carry such requests out is a fourth quantity of the handle
//! ([`carries_out`]), and the two calls require it.
//!
//! An `Env` is a handle. The contracts read a `&mut Env` as the one handle
//! through which a running invocation reaches its host: a handle that no
//! invocation is running on reaches no storage, and every address, symbol
//! and string that is passed along with it belongs to the same host.
use crate::storage::{ProjectData, ProjectRecord};
use soroban_sdk::{Address, Env, Symbol};
use vstd::prelude::*;

verus! {

/// `soroban_sdk::Env`, the handle of the host, taken as opaque.
#[verifier::external_type_specification]
#[verifier::external_body]
pub struct ExEnv(Env);

/// `soroban_sdk::Address`, taken as opaque.
#[verifier::external_type_specification]
#[verifier::external_body]
pub struct ExAddress(Address);

/// `soroban_sdk::Symbol`, taken as opaque.
#[verifier::external_type_specification]
#[verifier::external_body]
pub struct ExSymbol(Symbol);

/// `soroban_sdk::String`, taken as opaque.
#[verifier::external_type_specification]
#[verifier::external_body]
pub struct ExString(soroban_sdk::String);

/// An account or a contract, as the strkey that names it.
pub type Identity = Seq<char>;

/// The two kinds of contract storage the library uses.
pub ghost enum Durability {
    Instance,
    Persistent,
}

/// The place of one entry in the running contract's storage: the kind of
/// storage and the key. A key is either the triple of a tag, a number and an
/// optional address, or a host string; `label` holds the bytes of the string
/// and is `None` for a triple.
pub ghost struct Slot {
    pub durability: Durability,
    pub tag: Seq<char>,
    pub id: u64,
    pub who: Option<Identity>,
    pub label: Option<Seq<u8>>,
}

/// What one storage entry holds.
pub ghost enum Datum {
    Identity(Identity),
    Counter(u64),
    Amount(i128),
    Flag(bool),
    Project(ProjectRecord),
    Text(Seq<u8>),
}

/// One published event: two topics (a name and a subject) and four optional
/// data fields.
pub ghost struct EventRecord {
    pub topic: Seq<char>,
    pub subject: Identity,
    pub token: Option<Identity>,
    pub project: Option<u64>,
    pub amount: Option<i128>,
    pub previous: Option<i128>,
}

/// One thing the running contract had the host do, other than reading or
/// writing its storage.
pub ghost enum Effect {
    /// The host confirmed that `who` authorized the invocation.
    Confirmed { who: Identity },
    /// A token contract was called to move `amount` from `from` to `to`.
    Transferred { token: Identity, from: Identity, to: Identity, amount: i128 },
    /// An event was published.
    Published { event: EventRecord },
}

/// The strkey of an address, as `Address::to_string` gives it.
pub uninterp spec fn strkey(a: Address) -> Seq<char>;

/// The characters of a symbol.
pub uninterp spec fn symbol_text(s: Symbol) -> Seq<char>;

/// The bytes of a host string.
pub uninterp spec fn string_bytes(s: soroban_sdk::String) -> Seq<u8>;

/// The entries of the running contract's storage.
pub uninterp spec fn stored(env: Env) -> Map<Slot, Datum>;

/// What the running contract has had the host do in this invocation besides
/// reading and writing its storage, oldest first: each entry stands for one
/// call that returned.
pub uninterp spec fn effects(env: Env) -> Seq<Effect>;

/// The identity of the running contract.
pub uninterp spec fn running_contract(env: Env) -> Identity;

/// Whether an invocation of a contract is running on the handle. Outside an
/// invocation the host has no storage to read or write, no contract to name
/// and nobody to ask.
pub uninterp spec fn in_invocation(env: Env) -> bool;

/// Whether the host will carry out these requests if the running invocation
/// makes them next, in this order: each of the calls returns.
pub uninterp spec fn carries_out(env: Env, requests: Seq<Effect>) -> bool;

/// Whether the host will carry out what is asked of it: nothing is demanded
/// of the host where nothing is asked.
pub open spec fn grants(env: Env, requests: Seq<Effect>) -> bool {
    requests.len() > 0 ==> carries_out(env, requests)
}

pub open spec fn who_part(who: Option<&Address>) -> Option<Identity> {
    match who {
        Some(a) => Some(strkey(*a)),
        None => None,
    }
}

pub open spec fn instance_slot(tag: Symbol, id: u64, who: Option<&Address>) -> Slot {
    Slot {
        durability: Durability::Instance,
        tag: symbol_text(tag),
        id,
        who: who_part(who),
        label: None,
    }
}

pub open spec fn persistent_slot(tag: Symbol, id: u64, who: Option<&Address>) -> Slot {
    Slot {
        durability: Durability::Persistent,
        tag: symbol_text(tag),
        id,
        who: who_part(who),
        label: None,
    }
}

/// The slot of the persistent entry whose key is the host string with the
/// given bytes.
pub open spec fn labelled_slot(label: Seq<u8>) -> Slot {
    Slot {
        durability: Durability::Persistent,
        tag: Seq::empty(),
        id: 0,
        who: None,
        label: Some(label),
    }
}

/// The entry at a slot, if there is one.
pub open spec fn lookup(entries: Map<Slot, Datum>, slot: Slot) -> Option<Datum> {
    if entries.contains_key(slot) {
        Some(entries[slot])
    } else {
        None
    }
}

pub open spec fn event_record(
    topic: Symbol,
    subject: &Address,
    token: Option<&Address>,
    project: Option<u64>,
    amount: Option<i128>,
    previous: Option<i128>,
) -> EventRecord {
    EventRecord {
        topic: symbol_text(topic),
        subject: strkey(*subject),
        token: who_part(token),
        project,
        amount,
        previous,
    }
}

pub open spec fn symbol_char(c: char) -> bool {
    ('a' <= c && c <= 'z') || ('A' <= c && c <= 'Z') || ('0' <= c && c <= '9') || c == '_'
}

/// Text that a symbol can hold: at most 32 characters out of `a-zA-Z0-9_`.
pub open spec fn symbol_text_ok(text: Seq<char>) -> bool {
    &&& text.len() <= 32
    &&& forall|i: int| 0 <= i < text.len() ==> symbol_char(#[trigger] text[i])
}

/// `Symbol::new`: the symbol with the given characters. The host refuses
/// text that no symbol can hold.
#[verifier::external_body]
pub(crate) fn symbol(env: &Env, text: &str) -> (s: Symbol)
    requires
        symbol_text_ok(text@),
    ensures
        symbol_text(s) == text@,
{
    Symbol::new(env, text)
}

/// `==` on `Address`: two addresses are equal when they name the same
/// account or contract.
#[verifier::external_body]
pub(crate) fn same_address(a: &Address, b: &Address) -> (same: bool)
    ensures
        same == (strkey(*a) == strkey(*b)),
{
    a == b
}

/// `Env::current_contract_address`: the address of the running contract.
#[verifier::external_body]
pub(crate) fn current_contract(env: &Env) -> (me: Address)
    requires
        in_invocation(*env),
    ensures
        strkey(me) == running_contract(*env),
{
    env.current_contract_address()
}

/// `Address::require_auth`: the host confirms that `who` authorized the
/// running invocation. Where it has no such authorization the host ends the
/// invocation, so the call is made only where the host carries the demand
/// out; what it carries out after the demand, it carries out once the demand
/// is met. Storage is untouched. The address reaches the host through the
/// handle it carries; `env` stands for that host in the contract.
#[verifier::external_body]
pub(crate) fn require_control(env: &mut Env, who: &Address)
    requires
        in_invocation(*old(env)),
        exists|rest: Seq<Effect>|
            carries_out(
                *old(env),
                #[trigger] (seq![Effect::Confirmed { who: strkey(*who) }] + rest),
            ),
    ensures
        forall|rest: Seq<Effect>|
            carries_out(
                *old(env),
                #[trigger] (seq![Effect::Confirmed { who: strkey(*who) }] + rest),
            ) ==> carries_out(*final(env), rest),
        effects(*final(env)) == effects(*old(env)).push(Effect::Confirmed { who: strkey(*who) }),
        stored(*final(env)) == stored(*old(env)),
        running_contract(*final(env)) == running_contract(*old(env)),
        in_invocation(*final(env)),
{
    who.require_auth()
}

/// `Events::publish` with the topics `(topic, subject)` and the data
/// `(token, project, amount, previous)`: appends that event to those of the
/// running contract. Storage is untouched.
#[verifier::external_body]
#[allow(deprecated)]
pub(crate) fn publish(
    env: &mut Env,
    topic: &Symbol,
    subject: &Address,
    token: Option<&Address>,
    project: Option<u64>,
    amount: Option<i128>,
    previous: Option<i128>,
)
    requires
        in_invocation(*old(env)),
    ensures
        effects(*final(env)) == effects(*old(env)).push(
            Effect::Published { event: event_record(*topic, subject, token, project, amount, previous) },
        ),
        stored(*final(env)) == stored(*old(env)),
        running_contract(*final(env)) == running_contract(*old(env)),
        in_invocation(*final(env)),
{
    env.events().publish((topic.clone(), subject.clone()), (token.cloned(), project, amount, previous))
}

/// `Instance::has` at the key `(tag, id, who)`.
#[verifier::external_body]
pub(crate) fn instance_has(env: &Env, tag: &Symbol, id: u64, who: Option<&Address>) -> (present: bool)
    requires
        in_invocation(*env),
    ensures
        present == stored(*env).contains_key(instance_slot(*tag, id, who)),
{
    env.storage().instance().has(&(tag.clone(), id, who.cloned()))
}

/// `Instance::get` of an address. The host refuses to read an entry that
/// holds no address.
#[verifier::external_body]
pub(crate) fn instance_get_address(env: &Env, tag: &Symbol, id: u64, who: Option<&Address>) -> (found: Option<Address>)
    requires
        in_invocation(*env),
        lookup(stored(*env), instance_slot(*tag, id, who)) matches Some(d) ==> d is Identity,
    ensures
        match found {
            Some(a) => lookup(stored(*env), instance_slot(*tag, id, who)) == Some(Datum::Identity(strkey(a))),
            None => lookup(stored(*env), instance_slot(*tag, id, who)) is None,
        },
{
    env.storage().instance().get(&(tag.clone(), id, who.cloned()))
}

/// `Instance::set` of an address: the entry at the key now holds it.
#[verifier::external_body]
pub(crate) fn instance_set_address(env: &mut Env, tag: &Symbol, id: u64, who: Option<&Address>, value: &Address)
    requires
        in_invocation(*old(env)),
    ensures
        stored(*final(env)) == stored(*old(env)).insert(
            instance_slot(*tag, id, who),
            Datum::Identity(strkey(*value)),
        ),
        effects(*final(env)) == effects(*old(env)),
        running_contract(*final(env)) == running_contract(*old(env)),
        in_invocation(*final(env)),
{
    env.storage().instance().set(&(tag.clone(), id, who.cloned()), value)
}

/// `Instance::get` of a `u64`. The host refuses to read an entry that holds
/// none.
#[verifier::external_body]
pub(crate) fn instance_get_counter(env: &Env, tag: &Symbol, id: u64, who: Option<&Address>) -> (found: Option<u64>)
    requires
        in_invocation(*env),
        lookup(stored(*env), instance_slot(*tag, id, who)) matches Some(d) ==> d is Counter,
    ensures
        match found {
            Some(n) => lookup(stored(*env), instance_slot(*tag, id, who)) == Some(Datum::Counter(n)),
            None => lookup(stored(*env), instance_slot(*tag, id, who)) is None,
        },
{
    env.storage().instance().get(&(tag.clone(), id, who.cloned()))
}

/// `Instance::set` of a `u64`: the entry at the key now holds it.
#[verifier::external_body]
pub(crate) fn instance_set_counter(env: &mut Env, tag: &Symbol, id: u64, who: Option<&Address>, value: u64)
    requires
        in_invocation(*old(env)),
    ensures
        stored(*final(env)) == stored(*old(env)).insert(
            instance_slot(*tag, id, who),
            Datum::Counter(value),
        ),
        effects(*final(env)) == effects(*old(env)),
        running_contract(*final(env)) == running_contract(*old(env)),
        in_invocation(*final(env)),
{
    env.storage().instance().set(&(tag.clone(), id, who.cloned()), &value)
}

/// `Persistent::has` at the key `(tag, id, who)`.
#[verifier::external_body]
pub(crate) fn persistent_has(env: &Env, tag: &Symbol, id: u64, who: Option<&Address>) -> (present: bool)
    requires
        in_invocation(*env),
    ensures
        present == stored(*env).contains_key(persistent_slot(*tag, id, who)),
{
    env.storage().persistent().has(&(tag.clone(), id, who.cloned()))
}

/// `Persistent::get` of an `i128`. The host refuses to read an entry that
/// holds none.
#[verifier::external_body]
pub(crate) fn persistent_get_amount(env: &Env, tag: &Symbol, id: u64, who: Option<&Address>) -> (found: Option<i128>)
    requires
        in_invocation(*env),
        lookup(stored(*env), persistent_slot(*tag, id, who)) matches Some(d) ==> d is Amount,
    ensures
        match found {
            Some(n) => lookup(stored(*env), persistent_slot(*tag, id, who)) == Some(Datum::Amount(n)),
            None => lookup(stored(*env), persistent_slot(*tag, id, who)) is None,
        },
{
    env.storage().persistent().get(&(tag.clone(), id, who.cloned()))
}

/// `Persistent::set` of an `i128`: the entry at the key now holds it.
#[verifier::external_body]
pub(crate) fn persistent_set_amount(env: &mut Env, tag: &Symbol, id: u64, who: Option<&Address>, value: i128)
    requires
        in_invocation(*old(env)),
    ensures
        stored(*final(env)) == stored(*old(env)).insert(
            persistent_slot(*tag, id, who),
            Datum::Amount(value),
        ),
        effects(*final(env)) == effects(*old(env)),
        running_contract(*final(env)) == running_contract(*old(env)),
        in_invocation(*final(env)),
{
    env.storage().persistent().set(&(tag.clone(), id, who.cloned()), &value)
}

/// `Persistent::get` of a `bool`. The host refuses to read an entry that
/// holds none.
#[verifier::external_body]
pub(crate) fn persistent_get_flag(env: &Env, tag: &Symbol, id: u64, who: Option<&Address>) -> (found: Option<bool>)
    requires
        in_invocation(*env),
        lookup(stored(*env), persistent_slot(*tag, id, who)) matches Some(d) ==> d is Flag,
    ensures
        match found {
            Some(b) => lookup(stored(*env), persistent_slot(*tag, id, who)) == Some(Datum::Flag(b)),
            None => lookup(stored(*env), persistent_slot(*tag, id, who)) is None,
        },
{
    env.storage().persistent().get(&(tag.clone(), id, who.cloned()))
}

/// `Persistent::set` of a `bool`: the entry at the key now holds it.
#[verifier::external_body]
pub(crate) fn persistent_set_flag(env: &mut Env, tag: &Symbol, id: u64, who: Option<&Address>, value: bool)
    requires
        in_invocation(*old(env)),
    ensures
        stored(*final(env)) == stored(*old(env)).insert(
            persistent_slot(*tag, id, who),
            Datum::Flag(value),
        ),
        effects(*final(env)) == effects(*old(env)),
        running_contract(*final(env)) == running_contract(*old(env)),
        in_invocation(*final(env)),
{
    env.storage().persistent().set(&(tag.clone(), id, who.cloned()), &value)
}

/// `Persistent::get` of a project record, which is kept as the tuple of
/// its eight fields. The host refuses to read an entry that holds no such
/// tuple.
#[verifier::external_body]
pub(crate) fn persistent_get_project(env: &Env, tag: &Symbol, id: u64, who: Option<&Address>) -> (found: Option<ProjectData>)
    requires
        in_invocation(*env),
        lookup(stored(*env), persistent_slot(*tag, id, who)) matches Some(d) ==> d is Project,
    ensures
        match found {
            Some(p) => lookup(stored(*env), persistent_slot(*tag, id, who)) == Some(Datum::Project(p@)),
            None => lookup(stored(*env), persistent_slot(*tag, id, who)) is None,
        },
{
    let fields: Option<(u64, Address, Symbol, i128, Address, i128, i128, bool)> =
        env.storage().persistent().get(&(tag.clone(), id, who.cloned()));
    fields.map(|f| ProjectData {
        id: f.0,
        owner: f.1,
        name: f.2,
        target_amount: f.3,
        token_address: f.4,
        total_deposited: f.5,
        total_withdrawn: f.6,
        is_active: f.7,
    })
}

/// `Persistent::set` of a project record, as the tuple of its eight fields:
/// the entry at the key now holds it.
#[verifier::external_body]
pub(crate) fn persistent_set_project(env: &mut Env, tag: &Symbol, id: u64, who: Option<&Address>, value: &ProjectData)
    requires
        in_invocation(*old(env)),
    ensures
        stored(*final(env)) == stored(*old(env)).insert(
            persistent_slot(*tag, id, who),
            Datum::Project(value@),
        ),
        effects(*final(env)) == effects(*old(env)),
        running_contract(*final(env)) == running_contract(*old(env)),
        in_invocation(*final(env)),
{
    let fields = (
        value.id,
        value.owner.clone(),
        value.name.clone(),
        value.target_amount,
        value.token_address.clone(),
        value.total_deposited,
        value.total_withdrawn,
        value.is_active,
    );
    env.storage().persistent().set(&(tag.clone(), id, who.cloned()), &fields)
}

/// `Persistent::get` of an address. The host refuses to read an entry that
/// holds no address.
#[verifier::external_body]
pub(crate) fn persistent_get_address(env: &Env, tag: &Symbol, id: u64, who: Option<&Address>) -> (found: Option<Address>)
    requires
        in_invocation(*env),
        lookup(stored(*env), persistent_slot(*tag, id, who)) matches Some(d) ==> d is Identity,
    ensures
        match found {
            Some(a) => lookup(stored(*env), persistent_slot(*tag, id, who)) == Some(Datum::Identity(strkey(a))),
            None => lookup(stored(*env), persistent_slot(*tag, id, who)) is None,
        },
{
    env.storage().persistent().get(&(tag.clone(), id, who.cloned()))
}

/// `Persistent::set` of an address: the entry at the key now holds it.
#[verifier::external_body]
pub(crate) fn persistent_set_address(env: &mut Env, tag: &Symbol, id: u64, who: Option<&Address>, value: &Address)
    requires
        in_invocation(*old(env)),
    ensures
        stored(*final(env)) == stored(*old(env)).insert(
            persistent_slot(*tag, id, who),
            Datum::Identity(strkey(*value)),
        ),
        effects(*final(env)) == effects(*old(env)),
        running_contract(*final(env)) == running_contract(*old(env)),
        in_invocation(*final(env)),
{
    env.storage().persistent().set(&(tag.clone(), id, who.cloned()), value)
}

/// `Persistent::get` of a host string. The host refuses to read an entry
/// that holds none.
#[verifier::external_body]
pub(crate) fn persistent_get_text(env: &Env, tag: &Symbol, id: u64, who: Option<&Address>) -> (found: Option<soroban_sdk::String>)
    requires
        in_invocation(*env),
        lookup(stored(*env), persistent_slot(*tag, id, who)) matches Some(d) ==> d is Text,
    ensures
        match found {
            Some(t) => lookup(stored(*env), persistent_slot(*tag, id, who)) == Some(Datum::Text(string_bytes(t))),
            None => lookup(stored(*env), persistent_slot(*tag, id, who)) is None,
        },
{
    env.storage().persistent().get(&(tag.clone(), id, who.cloned()))
}

/// `Persistent::set` of a host string: the entry at the key now holds it.
#[verifier::external_body]
pub(crate) fn persistent_set_text(env: &mut Env, tag: &Symbol, id: u64, who: Option<&Address>, value: &soroban_sdk::String)
    requires
        in_invocation(*old(env)),
    ensures
        stored(*final(env)) == stored(*old(env)).insert(
            persistent_slot(*tag, id, who),
            Datum::Text(string_bytes(*value)),
        ),
        effects(*final(env)) == effects(*old(env)),
        running_contract(*final(env)) == running_contract(*old(env)),
        in_invocation(*final(env)),
{
    env.storage().persistent().set(&(tag.clone(), id, who.cloned()), value)
}

/// `Persistent::get` of a host string under a key that is a host string.
/// The host refuses to read an entry that holds no string.
#[verifier::external_body]
pub(crate) fn persistent_get_text_at(env: &Env, key: &soroban_sdk::String) -> (found: Option<soroban_sdk::String>)
    requires
        in_invocation(*env),
        lookup(stored(*env), labelled_slot(string_bytes(*key))) matches Some(d) ==> d is Text,
    ensures
        match found {
            Some(t) => lookup(stored(*env), labelled_slot(string_bytes(*key))) == Some(Datum::Text(string_bytes(t))),
            None => lookup(stored(*env), labelled_slot(string_bytes(*key))) is None,
        },
{
    env.storage().persistent().get(key)
}

/// `Persistent::set` of a host string under a key that is a host string:
/// the entry at the key now holds it.
#[verifier::external_body]
pub(crate) fn persistent_set_text_at(env: &mut Env, key: &soroban_sdk::String, value: &soroban_sdk::String)
    requires
        in_invocation(*old(env)),
    ensures
        stored(*final(env)) == stored(*old(env)).insert(
            labelled_slot(string_bytes(*key)),
            Datum::Text(string_bytes(*value)),
        ),
        effects(*final(env)) == effects(*old(env)),
        running_contract(*final(env)) == running_contract(*old(env)),
        in_invocation(*final(env)),
{
    env.storage().persistent().set(key, value)
}

/// `String::copy_into_slice` into a buffer of the string's length: the bytes
/// of a host string.
#[verifier::external_body]
pub(crate) fn string_to_bytes(text: &soroban_sdk::String) -> (bytes: Vec<u8>)
    ensures
        bytes@ == string_bytes(*text),
{
    let mut bytes = vec![0u8; text.len() as usize];
    text.copy_into_slice(&mut bytes);
    bytes
}

/// `String::from_bytes`: the host string with the given bytes.
#[verifier::external_body]
pub(crate) fn string_from_bytes(env: &Env, bytes: &Vec<u8>) -> (text: soroban_sdk::String)
    ensures
        string_bytes(text) == bytes@,
{
    soroban_sdk::String::from_bytes(env, bytes)
}

} // verus!
