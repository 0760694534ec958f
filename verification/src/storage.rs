//! The keys and records of the vault's storage, and typed access to them.
//!
//! Every entry is named by a [`DataKey`]. A key maps to one [`Slot`] of the
//! host's storage; keys of different kinds never share a slot
//! ([`lemma_keys_do_not_collide`]).
use crate::host::{
    in_invocation, instance_get_address, instance_get_counter, instance_has, instance_set_address,
    instance_set_counter, lookup, persistent_get_amount, persistent_get_flag,
    persistent_get_project, persistent_has, persistent_set_amount, persistent_set_flag,
    persistent_set_project, effects, running_contract, stored, strkey, symbol, symbol_text,
    symbol_text_ok, Datum, Durability, Identity, Slot,
};
use soroban_sdk::{Address, Env, Symbol};
use vstd::prelude::*;

verus! {

/// A funding campaign as it is kept in storage.
pub struct ProjectData {
    pub id: u64,
    pub owner: Address,
    pub name: Symbol,
    pub target_amount: i128,
    pub token_address: Address,
    pub total_deposited: i128,
    pub total_withdrawn: i128,
    pub is_active: bool,
}

/// The mathematical value of a [`ProjectData`]: addresses by their strkey,
/// the name by its characters.
pub ghost struct ProjectRecord {
    pub id: u64,
    pub owner: Identity,
    pub name: Seq<char>,
    pub target_amount: i128,
    pub token_address: Identity,
    pub total_deposited: i128,
    pub total_withdrawn: i128,
    pub is_active: bool,
}

impl View for ProjectData {
    type V = ProjectRecord;

    open spec fn view(&self) -> ProjectRecord {
        ProjectRecord {
            id: self.id,
            owner: strkey(self.owner),
            name: symbol_text(self.name),
            target_amount: self.target_amount,
            token_address: strkey(self.token_address),
            total_deposited: self.total_deposited,
            total_withdrawn: self.total_withdrawn,
            is_active: self.is_active,
        }
    }
}

pub open spec fn admin_slot() -> Slot {
    Slot { durability: Durability::Instance, tag: "Admin"@, id: 0, who: None, label: None }
}

pub open spec fn counter_slot() -> Slot {
    Slot { durability: Durability::Instance, tag: "NextProjectId"@, id: 0, who: None, label: None }
}

pub open spec fn project_slot(id: u64) -> Slot {
    Slot { durability: Durability::Persistent, tag: "Project"@, id, who: None, label: None }
}

pub open spec fn balance_slot(id: u64, token: Identity) -> Slot {
    Slot { durability: Durability::Persistent, tag: "ProjectBalance"@, id, who: Some(token), label: None }
}

pub open spec fn milestone_slot(id: u64) -> Slot {
    Slot { durability: Durability::Persistent, tag: "MilestoneApproved"@, id, who: None, label: None }
}

pub open spec fn contributor_slot(who: Identity) -> Slot {
    Slot { durability: Durability::Persistent, tag: "Contributor"@, id: 0, who: Some(who), label: None }
}

pub open spec fn reputation_slot(who: Identity) -> Slot {
    Slot { durability: Durability::Persistent, tag: "Reputation"@, id: 0, who: Some(who), label: None }
}

/// The closed set of keys under which the vault stores its records.
pub enum DataKey<'a> {
    Admin,
    NextProjectId,
    Project(u64),
    ProjectBalance(u64, &'a Address),
    MilestoneApproved(u64),
    Contributor(&'a Address),
    Reputation(&'a Address),
}

impl<'a> View for DataKey<'a> {
    type V = Slot;

    open spec fn view(&self) -> Slot {
        match self {
            DataKey::Admin => admin_slot(),
            DataKey::NextProjectId => counter_slot(),
            DataKey::Project(id) => project_slot(*id),
            DataKey::ProjectBalance(id, token) => balance_slot(*id, strkey(**token)),
            DataKey::MilestoneApproved(id) => milestone_slot(*id),
            DataKey::Contributor(who) => contributor_slot(strkey(**who)),
            DataKey::Reputation(who) => reputation_slot(strkey(**who)),
        }
    }
}

/// The lengths of the seven tags, which tell them apart.
pub proof fn lemma_tag_lengths()
    ensures
        "Admin"@.len() == 5,
        "NextProjectId"@.len() == 13,
        "Project"@.len() == 7,
        "ProjectBalance"@.len() == 14,
        "MilestoneApproved"@.len() == 17,
        "Contributor"@.len() == 11,
        "Reputation"@.len() == 10,
{
    reveal_strlit("Admin");
    reveal_strlit("NextProjectId");
    reveal_strlit("Project");
    reveal_strlit("ProjectBalance");
    reveal_strlit("MilestoneApproved");
    reveal_strlit("Contributor");
    reveal_strlit("Reputation");
}

/// Keys that share a slot are of the same kind and agree in their number
/// and in the identity they name: no two records of the vault can overwrite
/// each other.
pub proof fn lemma_keys_do_not_collide(a: DataKey, b: DataKey)
    requires
        a@ == b@,
    ensures
        match (a, b) {
            (DataKey::Admin, DataKey::Admin) => true,
            (DataKey::NextProjectId, DataKey::NextProjectId) => true,
            (DataKey::Project(i), DataKey::Project(j)) => i == j,
            (DataKey::ProjectBalance(i, t), DataKey::ProjectBalance(j, u)) => i == j && strkey(*t)
                == strkey(*u),
            (DataKey::MilestoneApproved(i), DataKey::MilestoneApproved(j)) => i == j,
            (DataKey::Contributor(v), DataKey::Contributor(w)) => strkey(*v) == strkey(*w),
            (DataKey::Reputation(v), DataKey::Reputation(w)) => strkey(*v) == strkey(*w),
            _ => false,
        },
{
    lemma_tag_lengths();
}

impl<'a> DataKey<'a> {
    /// The tag of the key's kind.
    pub fn tag(&self) -> (text: &'static str)
        ensures
            text@ == self@.tag,
            symbol_text_ok(text@),
    {
        proof {
            reveal_strlit("Admin");
            reveal_strlit("NextProjectId");
            reveal_strlit("Project");
            reveal_strlit("ProjectBalance");
            reveal_strlit("MilestoneApproved");
            reveal_strlit("Contributor");
            reveal_strlit("Reputation");
        }
        match self {
            DataKey::Admin => "Admin",
            DataKey::NextProjectId => "NextProjectId",
            DataKey::Project(_) => "Project",
            DataKey::ProjectBalance(_, _) => "ProjectBalance",
            DataKey::MilestoneApproved(_) => "MilestoneApproved",
            DataKey::Contributor(_) => "Contributor",
            DataKey::Reputation(_) => "Reputation",
        }
    }

    /// The project the key belongs to; 0 for keys of no project.
    pub fn id(&self) -> (id: u64)
        ensures
            id == self@.id,
    {
        match self {
            DataKey::Project(id) => *id,
            DataKey::ProjectBalance(id, _) => *id,
            DataKey::MilestoneApproved(id) => *id,
            _ => 0,
        }
    }

    /// The address the key names, if it names one.
    pub fn who(&self) -> (who: Option<&'a Address>)
        ensures
            crate::host::who_part(who) == self@.who,
    {
        match self {
            DataKey::ProjectBalance(_, token) => Some(*token),
            DataKey::Contributor(who) => Some(*who),
            DataKey::Reputation(who) => Some(*who),
            _ => None,
        }
    }

    /// Whether the entry lives in instance storage.
    pub fn in_instance(&self) -> (yes: bool)
        ensures
            yes == (self@.durability is Instance),
    {
        match self {
            DataKey::Admin => true,
            DataKey::NextProjectId => true,
            _ => false,
        }
    }
}

pub open spec fn identity_at(entries: Map<Slot, Datum>, slot: Slot) -> Option<Identity> {
    match lookup(entries, slot) {
        Some(Datum::Identity(who)) => Some(who),
        _ => None,
    }
}

pub open spec fn counter_at(entries: Map<Slot, Datum>, slot: Slot) -> Option<u64> {
    match lookup(entries, slot) {
        Some(Datum::Counter(n)) => Some(n),
        _ => None,
    }
}

pub open spec fn amount_at(entries: Map<Slot, Datum>, slot: Slot) -> Option<i128> {
    match lookup(entries, slot) {
        Some(Datum::Amount(n)) => Some(n),
        _ => None,
    }
}

pub open spec fn flag_at(entries: Map<Slot, Datum>, slot: Slot) -> Option<bool> {
    match lookup(entries, slot) {
        Some(Datum::Flag(b)) => Some(b),
        _ => None,
    }
}

pub open spec fn project_at(entries: Map<Slot, Datum>, slot: Slot) -> Option<ProjectRecord> {
    match lookup(entries, slot) {
        Some(Datum::Project(p)) => Some(p),
        _ => None,
    }
}

/// The host has been asked for nothing but storage between the two states.
pub open spec fn only_storage_differs(before: Env, after: Env) -> bool {
    &&& effects(after) == effects(before)
    &&& running_contract(after) == running_contract(before)
}

/// Whether an entry is stored under the key.
pub fn is_stored(env: &Env, key: &DataKey) -> (present: bool)
    requires
        in_invocation(*env),
    ensures
        present == stored(*env).contains_key(key@),
{
    let tag = symbol(env, key.tag());
    if key.in_instance() {
        instance_has(env, &tag, key.id(), key.who())
    } else {
        persistent_has(env, &tag, key.id(), key.who())
    }
}

/// The address stored under a key of instance storage.
pub fn get_address(env: &Env, key: &DataKey) -> (found: Option<Address>)
    requires
        in_invocation(*env),
        key@.durability is Instance,
        lookup(stored(*env), key@) matches Some(d) ==> d is Identity,
    ensures
        match found {
            Some(a) => identity_at(stored(*env), key@) == Some(strkey(a)),
            None => !stored(*env).contains_key(key@),
        },
{
    let tag = symbol(env, key.tag());
    instance_get_address(env, &tag, key.id(), key.who())
}

/// Stores an address under a key of instance storage.
pub fn set_address(env: &mut Env, key: &DataKey, value: &Address)
    requires
        in_invocation(*old(env)),
        key@.durability is Instance,
    ensures
        stored(*final(env)) == stored(*old(env)).insert(key@, Datum::Identity(strkey(*value))),
        only_storage_differs(*old(env), *final(env)),
        in_invocation(*final(env)),
{
    let tag = symbol(env, key.tag());
    instance_set_address(env, &tag, key.id(), key.who(), value)
}

/// The number stored under a key of instance storage.
pub fn get_counter(env: &Env, key: &DataKey) -> (found: Option<u64>)
    requires
        in_invocation(*env),
        key@.durability is Instance,
        lookup(stored(*env), key@) matches Some(d) ==> d is Counter,
    ensures
        found == counter_at(stored(*env), key@),
        found is Some == stored(*env).contains_key(key@),
{
    let tag = symbol(env, key.tag());
    instance_get_counter(env, &tag, key.id(), key.who())
}

/// Stores a number under a key of instance storage.
pub fn set_counter(env: &mut Env, key: &DataKey, value: u64)
    requires
        in_invocation(*old(env)),
        key@.durability is Instance,
    ensures
        stored(*final(env)) == stored(*old(env)).insert(key@, Datum::Counter(value)),
        only_storage_differs(*old(env), *final(env)),
        in_invocation(*final(env)),
{
    let tag = symbol(env, key.tag());
    instance_set_counter(env, &tag, key.id(), key.who(), value)
}

/// The amount stored under a key of persistent storage.
pub fn get_amount(env: &Env, key: &DataKey) -> (found: Option<i128>)
    requires
        in_invocation(*env),
        key@.durability is Persistent,
        lookup(stored(*env), key@) matches Some(d) ==> d is Amount,
    ensures
        found == amount_at(stored(*env), key@),
        found is Some == stored(*env).contains_key(key@),
{
    let tag = symbol(env, key.tag());
    persistent_get_amount(env, &tag, key.id(), key.who())
}

/// Stores an amount under a key of persistent storage.
pub fn set_amount(env: &mut Env, key: &DataKey, value: i128)
    requires
        in_invocation(*old(env)),
        key@.durability is Persistent,
    ensures
        stored(*final(env)) == stored(*old(env)).insert(key@, Datum::Amount(value)),
        only_storage_differs(*old(env), *final(env)),
        in_invocation(*final(env)),
{
    let tag = symbol(env, key.tag());
    persistent_set_amount(env, &tag, key.id(), key.who(), value)
}

/// The flag stored under a key of persistent storage.
pub fn get_flag(env: &Env, key: &DataKey) -> (found: Option<bool>)
    requires
        in_invocation(*env),
        key@.durability is Persistent,
        lookup(stored(*env), key@) matches Some(d) ==> d is Flag,
    ensures
        found == flag_at(stored(*env), key@),
        found is Some == stored(*env).contains_key(key@),
{
    let tag = symbol(env, key.tag());
    persistent_get_flag(env, &tag, key.id(), key.who())
}

/// Stores a flag under a key of persistent storage.
pub fn set_flag(env: &mut Env, key: &DataKey, value: bool)
    requires
        in_invocation(*old(env)),
        key@.durability is Persistent,
    ensures
        stored(*final(env)) == stored(*old(env)).insert(key@, Datum::Flag(value)),
        only_storage_differs(*old(env), *final(env)),
        in_invocation(*final(env)),
{
    let tag = symbol(env, key.tag());
    persistent_set_flag(env, &tag, key.id(), key.who(), value)
}

/// The project record stored under a key of persistent storage.
pub fn get_record(env: &Env, key: &DataKey) -> (found: Option<ProjectData>)
    requires
        in_invocation(*env),
        key@.durability is Persistent,
        lookup(stored(*env), key@) matches Some(d) ==> d is Project,
    ensures
        match found {
            Some(p) => project_at(stored(*env), key@) == Some(p@),
            None => !stored(*env).contains_key(key@),
        },
{
    let tag = symbol(env, key.tag());
    persistent_get_project(env, &tag, key.id(), key.who())
}

/// Stores a project record under a key of persistent storage.
pub fn set_record(env: &mut Env, key: &DataKey, value: &ProjectData)
    requires
        in_invocation(*old(env)),
        key@.durability is Persistent,
    ensures
        stored(*final(env)) == stored(*old(env)).insert(key@, Datum::Project(value@)),
        only_storage_differs(*old(env), *final(env)),
        in_invocation(*final(env)),
{
    let tag = symbol(env, key.tag());
    persistent_set_project(env, &tag, key.id(), key.who(), value)
}

} // verus!
