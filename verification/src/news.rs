//! A store of news posts behind an admin. A post has a title and a body,
//! kept under two keys made from the post's id.
use crate::admin::{
    admin_check_effects, admin_check_outcome, admin_is_typed, admin_slot, require_admin,
    store_admin, store_admin_outcome, AdminError,
};
use crate::host::{
    in_invocation, effects, grants, labelled_slot, lookup, persistent_get_text_at, persistent_set_text_at,
    running_contract, stored, string_bytes, string_from_bytes, string_to_bytes, strkey, Datum,
    Slot,
};
use soroban_sdk::{Address, Env};
use vstd::prelude::*;

verus! {

/// The two parts of a post.
#[derive(Clone, Copy, Debug, PartialEq, Eq, Structural)]
pub enum Field {
    Title,
    Body,
}

/// The bytes of `NEWS:`.
pub open spec fn key_prefix() -> Seq<u8> {
    seq![78u8, 69u8, 87u8, 83u8, 58u8]
}

/// The bytes of `title` and of `body`.
pub open spec fn field_name(field: Field) -> Seq<u8> {
    match field {
        Field::Title => seq![116u8, 105u8, 116u8, 108u8, 101u8],
        Field::Body => seq![98u8, 111u8, 100u8, 121u8],
    }
}

/// The key of one part of a post: `NEWS:`, the id, a colon and the part's
/// name.
pub open spec fn news_key(id: Seq<u8>, field: Field) -> Seq<u8> {
    key_prefix() + id + seq![58u8] + field_name(field)
}

/// One part of the post with the given id, if it is stored.
pub open spec fn part(s: Map<Slot, Datum>, id: Seq<u8>, field: Field) -> Option<Seq<u8>> {
    match lookup(s, labelled_slot(news_key(id, field))) {
        Some(Datum::Text(t)) => Some(t),
        _ => None,
    }
}

/// The post with the given id: its title and its body, where both are
/// stored.
pub open spec fn news(s: Map<Slot, Datum>, id: Seq<u8>) -> Option<(Seq<u8>, Seq<u8>)> {
    match (part(s, id, Field::Title), part(s, id, Field::Body)) {
        (Some(title), Some(body)) => Some((title, body)),
        _ => None,
    }
}

/// Every entry of the store holds a value of its kind.
pub open spec fn orderly(s: Map<Slot, Datum>) -> bool {
    &&& admin_is_typed(s)
    &&& forall|label: Seq<u8>| lookup(s, #[trigger] labelled_slot(label)) matches Some(d) ==> d is Text
}

/// The store after a post: the title and the body are kept under their keys.
pub open spec fn after_post(s: Map<Slot, Datum>, id: Seq<u8>, title: Seq<u8>, body: Seq<u8>) -> Map<
    Slot,
    Datum,
> {
    s.insert(labelled_slot(news_key(id, Field::Title)), Datum::Text(title)).insert(
        labelled_slot(news_key(id, Field::Body)),
        Datum::Text(body),
    )
}

/// Different parts, or parts of different posts, have different keys.
pub proof fn lemma_keys_differ(a: Seq<u8>, f: Field, b: Seq<u8>, g: Field)
    requires
        news_key(a, f) == news_key(b, g),
    ensures
        a == b,
        f == g,
{
    let ka = news_key(a, f);
    let kb = news_key(b, g);
    assert(ka.len() == 6 + a.len() + field_name(f).len());
    assert(kb.len() == 6 + b.len() + field_name(g).len());
    assert(ka[ka.len() - 1] == field_name(f)[field_name(f).len() - 1]);
    assert(kb[kb.len() - 1] == field_name(g)[field_name(g).len() - 1]);
    assert(f == g);
    assert(a.len() == b.len());
    assert forall|i: int| 0 <= i < a.len() implies a[i] == b[i] by {
        assert(ka[5 + i] == a[i]);
        assert(kb[5 + i] == b[i]);
    }
    assert(a =~= b);
}

/// A post that was stored is found again under its id, and no other post
/// is touched by it.
pub proof fn lemma_post_is_found(
    s: Map<Slot, Datum>,
    id: Seq<u8>,
    title: Seq<u8>,
    body: Seq<u8>,
    other: Seq<u8>,
)
    ensures
        news(after_post(s, id, title, body), id) == Some((title, body)),
        other != id ==> news(after_post(s, id, title, body), other) == news(s, other),
{
    if news_key(id, Field::Title) == news_key(id, Field::Body) {
        lemma_keys_differ(id, Field::Title, id, Field::Body);
    }
    if other != id {
        if news_key(other, Field::Title) == news_key(id, Field::Title) {
            lemma_keys_differ(other, Field::Title, id, Field::Title);
        }
        if news_key(other, Field::Title) == news_key(id, Field::Body) {
            lemma_keys_differ(other, Field::Title, id, Field::Body);
        }
        if news_key(other, Field::Body) == news_key(id, Field::Title) {
            lemma_keys_differ(other, Field::Body, id, Field::Title);
        }
        if news_key(other, Field::Body) == news_key(id, Field::Body) {
            lemma_keys_differ(other, Field::Body, id, Field::Body);
        }
    }
}

/// The news store. Its state is the storage of the contract it runs in.
pub struct NewsContract;

impl NewsContract {
    /// Stores the admin. Succeeds once: with an admin stored the call is
    /// refused.
    pub fn init(env: &mut Env, admin: Address) -> (result: Result<(), AdminError>)
        requires
            in_invocation(*old(env)),
            orderly(stored(*old(env))),
        ensures
            result == store_admin_outcome(stored(*old(env))),
            stored(*final(env)) == if result is Ok {
                stored(*old(env)).insert(admin_slot(), Datum::Identity(strkey(admin)))
            } else {
                stored(*old(env))
            },
            effects(*final(env)) == effects(*old(env)),
            running_contract(*final(env)) == running_contract(*old(env)),
            orderly(stored(*final(env))),
            in_invocation(*final(env)),
    {
        store_admin(env, &admin)
    }

    /// Stores a post under its id, in place of any post stored under that id
    /// before. Only the admin may do so.
    pub fn post_news(
        env: &mut Env,
        caller: Address,
        id: soroban_sdk::String,
        title: soroban_sdk::String,
        body: soroban_sdk::String,
    ) -> (result: Result<(), AdminError>)
        requires
            in_invocation(*old(env)),
            orderly(stored(*old(env))),
            grants(*old(env), admin_check_effects(stored(*old(env)), strkey(caller))),
        ensures
            result == admin_check_outcome(stored(*old(env)), strkey(caller)),
            stored(*final(env)) == if result is Ok {
                after_post(
                    stored(*old(env)),
                    string_bytes(id),
                    string_bytes(title),
                    string_bytes(body),
                )
            } else {
                stored(*old(env))
            },
            effects(*final(env)) == effects(*old(env)) + admin_check_effects(
                stored(*old(env)),
                strkey(caller),
            ),
            running_contract(*final(env)) == running_contract(*old(env)),
            orderly(stored(*final(env))),
            in_invocation(*final(env)),
    {
        match require_admin(env, &caller) {
            Ok(_) => {},
            Err(e) => {
                return Err(e);
            },
        }
        let title_key = Self::mk_key(env, &id, Field::Title);
        let body_key = Self::mk_key(env, &id, Field::Body);
        persistent_set_text_at(env, &title_key, &title);
        persistent_set_text_at(env, &body_key, &body);
        Ok(())
    }

    /// The post stored under an id: its title and its body.
    pub fn get_news(env: &Env, id: soroban_sdk::String) -> (found: Option<
        (soroban_sdk::String, soroban_sdk::String),
    >)
        requires
            in_invocation(*env),
            orderly(stored(*env)),
        ensures
            match found {
                Some((title, body)) => news(stored(*env), string_bytes(id)) == Some(
                    (string_bytes(title), string_bytes(body)),
                ),
                None => news(stored(*env), string_bytes(id)) is None,
            },
    {
        let title_key = Self::mk_key(env, &id, Field::Title);
        let body_key = Self::mk_key(env, &id, Field::Body);
        let title = persistent_get_text_at(env, &title_key);
        let body = persistent_get_text_at(env, &body_key);
        match (title, body) {
            (Some(t), Some(b)) => Some((t, b)),
            _ => None,
        }
    }

    /// The key of one part of the post with the given id.
    pub fn mk_key(env: &Env, id: &soroban_sdk::String, field: Field) -> (key: soroban_sdk::String)
        ensures
            string_bytes(key) == news_key(string_bytes(*id), field),
    {
        let id_bytes = string_to_bytes(id);
        let mut key: Vec<u8> = Vec::new();
        key.push(78);
        key.push(69);
        key.push(87);
        key.push(83);
        key.push(58);
        assert(key@ =~= key_prefix());
        let mut i: usize = 0;
        while i < id_bytes.len()
            invariant
                i <= id_bytes.len(),
                key@ == key_prefix() + id_bytes@.take(i as int),
            decreases id_bytes.len() - i,
        {
            key.push(id_bytes[i]);
            assert(id_bytes@.take(i + 1) =~= id_bytes@.take(i as int).push(id_bytes@[i as int]));
            assert(key@ =~= key_prefix() + id_bytes@.take(i + 1));
            i += 1;
        }
        assert(id_bytes@.take(i as int) =~= id_bytes@);
        key.push(58);
        match field {
            Field::Title => {
                key.push(116);
                key.push(105);
                key.push(116);
                key.push(108);
                key.push(101);
            },
            Field::Body => {
                key.push(98);
                key.push(111);
                key.push(100);
                key.push(121);
            },
        }
        assert(key@ =~= news_key(id_bytes@, field));
        string_from_bytes(env, &key)
    }
}

} // verus!
