use vstd::prelude::*;
use vstd::string::*;

use crate::error::StoreError;
use crate::json::{
    decode_nested, encode_nested, json_decoded, json_text_of, keys_distinct, nested_keys_distinct,
    NestedDoc,
};

verus! {

/// The registry's entries: each user with the ordered list of document
/// names recorded for it.
pub type Entries = Seq<(Seq<char>, Seq<Seq<char>>)>;

/// The name of the registry document's only member.
pub open spec fn users_key() -> Seq<char> {
    seq!['u', 's', 'e', 'r', 's']
}

pub open spec fn has_key<V>(e: Seq<(Seq<char>, V)>, k: Seq<char>) -> bool {
    exists|i: int| 0 <= i < e.len() && #[trigger] e[i].0 == k
}

/// The value stored under `k`, if any.
pub open spec fn lookup<V>(e: Seq<(Seq<char>, V)>, k: Seq<char>) -> Option<V> {
    if has_key(e, k) {
        Some(e[choose|i: int| 0 <= i < e.len() && #[trigger] e[i].0 == k].1)
    } else {
        None
    }
}

/// The set of registered users.
pub open spec fn user_set(e: Entries) -> Set<Seq<char>> {
    Set::new(|u: Seq<char>| has_key(e, u))
}

/// The entries after registering `u`: a new user is added, with no
/// documents, after the existing ones; a known user leaves them as they are.
pub open spec fn registered(e: Entries, u: Seq<char>) -> Entries {
    if has_key(e, u) {
        e
    } else {
        e.push((u, seq![]))
    }
}

/// The entries after recording document `d` for user `u`: the name is
/// appended to that user's list, even where it is already there.
pub open spec fn appended(e: Entries, u: Seq<char>, d: Seq<char>) -> Entries {
    e.map_values(
        |p: (Seq<char>, Seq<Seq<char>>)|
            if p.0 == u {
                (p.0, p.1.push(d))
            } else {
                p
            },
    )
}

/// The registry entries held by a registry text: the `users` member of the
/// JSON document it holds.
pub open spec fn parsed_entries(text: Seq<char>) -> Option<Entries> {
    match json_decoded(text) {
        None => None,
        Some(doc) => lookup(doc, users_key()),
    }
}

/// With distinct keys, the value at any index holding `k` is the one looked up.
pub proof fn lemma_lookup_at<V>(e: Seq<(Seq<char>, V)>, k: Seq<char>, i: int)
    requires
        keys_distinct(e),
        0 <= i < e.len(),
        e[i].0 == k,
    ensures
        lookup(e, k) == Some(e[i].1),
{
    let j = choose|j: int| 0 <= j < e.len() && #[trigger] e[j].0 == k;
    assert(e[j].0 == e[i].0);
}

/// The user registry: which users exist, and the documents recorded for each.
pub struct Registry {
    entries: Vec<(String, Vec<String>)>,
}

impl View for Registry {
    type V = Entries;

    closed spec fn view(&self) -> Entries {
        self.entries.deep_view()
    }
}

/// The message of the error for an empty user name.
pub open spec fn empty_name_message() -> Seq<char> {
    "User name cannot be empty."@
}

/// Checks that a user name may be registered: it must not be empty.
pub fn validate_user_name(name: &str) -> (r: Result<(), StoreError>)
    ensures
        name@.len() == 0 <==> r is Err,
        r is Err ==> (r matches Err(StoreError::Validation(m)) && m@ == empty_name_message()),
{
    if name.unicode_len() == 0 {
        Err(StoreError::Validation(String::from_str("User name cannot be empty.")))
    } else {
        Ok(())
    }
}

impl Registry {
    /// Each user occurs once.
    pub open spec fn wf(&self) -> bool {
        keys_distinct(self@)
    }

    /// The registry with no users.
    pub fn new() -> (r: Registry)
        ensures
            r.wf(),
            r@ == Seq::<(Seq<char>, Seq<Seq<char>>)>::empty(),
    {
        let r = Registry { entries: Vec::new() };
        assert(r@ =~= Seq::<(Seq<char>, Seq<Seq<char>>)>::empty());
        r
    }

    /// The index of `user`'s entry, if registered.
    fn find(&self, user: &str) -> (r: Option<usize>)
        ensures
            match r {
                Some(i) => i < self@.len() && self@[i as int].0 == user@,
                None => !has_key(self@, user@),
            },
    {
        let wanted = String::from_str(user);
        let mut i: usize = 0;
        while i < self.entries.len()
            invariant
                i <= self.entries.len(),
                wanted@ == user@,
                forall|j: int| 0 <= j < i ==> #[trigger] self@[j].0 != user@,
            decreases self.entries.len() - i,
        {
            assert(self@[i as int].0 == self.entries[i as int].0@);
            if self.entries[i].0 == wanted {
                return Some(i);
            }
            i = i + 1;
        }
        None
    }

    /// Whether `user` is registered.
    pub fn contains_user(&self, user: &str) -> (r: bool)
        ensures
            r == has_key(self@, user@),
    {
        self.find(user).is_some()
    }

    /// The documents recorded for `user`, if registered.
    pub fn documents(&self, user: &str) -> (r: Option<Vec<String>>)
        requires
            self.wf(),
        ensures
            match r {
                Some(d) => lookup(self@, user@) == Some(d.deep_view()),
                None => lookup(self@, user@) is None,
            },
    {
        match self.find(user) {
            Some(i) => {
                proof {
                    lemma_lookup_at(self@, user@, i as int);
                }
                let docs = clone_names(&self.entries[i].1);
                Some(docs)
            },
            None => None,
        }
    }

    /// The names of all registered users, each once, in registry order.
    pub fn user_names(&self) -> (r: Vec<String>)
        ensures
            r.deep_view() == self@.map_values(|p: (Seq<char>, Seq<Seq<char>>)| p.0),
    {
        let mut r: Vec<String> = Vec::new();
        let mut i: usize = 0;
        while i < self.entries.len()
            invariant
                i <= self.entries.len(),
                r.deep_view() =~= self@.take(i as int).map_values(
                    |p: (Seq<char>, Seq<Seq<char>>)| p.0,
                ),
            decreases self.entries.len() - i,
        {
            let ghost before = r.deep_view();
            let name = self.entries[i].0.clone();
            assert(name@ == self@[i as int].0);
            r.push(name);
            assert(r.deep_view() =~= before.push(name@));
            assert(self@.take(i + 1).map_values(|p: (Seq<char>, Seq<Seq<char>>)| p.0)
                =~= self@.take(i as int).map_values(|p: (Seq<char>, Seq<Seq<char>>)| p.0).push(name@));
            i = i + 1;
        }
        assert(self@.take(self.entries.len() as int) =~= self@);
        r
    }

    /// Registers `name`. An empty name is refused and the registry left
    /// unchanged; registering a known user changes nothing. Returns whether
    /// the registry changed, that is whether it needs writing back.
    pub fn register_user(&mut self, name: &str) -> (r: Result<bool, StoreError>)
        requires
            old(self).wf(),
        ensures
            final(self).wf(),
            name@.len() == 0 ==> (r matches Err(StoreError::Validation(m)) && m@
                == empty_name_message()) && final(self)@ == old(self)@,
            name@.len() > 0 ==> r == Ok::<bool, StoreError>(!has_key(old(self)@, name@))
                && final(self)@ == registered(old(self)@, name@),
    {
        match validate_user_name(name) {
            Err(e) => Err(e),
            Ok(()) => {
                if self.find(name).is_some() {
                    Ok(false)
                } else {
                    let ghost before = self@;
                    let docs: Vec<String> = Vec::new();
                    assert(docs.deep_view() =~= Seq::<Seq<char>>::empty());
                    let entry = (String::from_str(name), docs);
                    let ghost ev = entry.deep_view();
                    self.entries.push(entry);
                    assert(self@ =~= before.push(ev));
                    assert(self@ =~= before.push((name@, seq![])));
                    assert(keys_distinct(self@)) by {
                        assert forall|i: int, j: int|
                            0 <= i < self@.len() && 0 <= j < self@.len() && i != j implies #[trigger] self@[i].0
                            != #[trigger] self@[j].0 by {
                            if i < before.len() && j < before.len() {
                                assert(before[i] == self@[i] && before[j] == self@[j]);
                            } else if i < before.len() {
                                assert(before[i] == self@[i]);
                            } else {
                                assert(before[j] == self@[j]);
                            }
                        }
                    }
                    Ok(true)
                }
            },
        }
    }

    /// Records document `doc` for `user`, appending to the user's list even
    /// where the name is already recorded. An unregistered user is an error
    /// and leaves the registry unchanged.
    pub fn append_document(&mut self, user: &str, doc: &str) -> (r: Result<(), StoreError>)
        requires
            old(self).wf(),
        ensures
            final(self).wf(),
            has_key(old(self)@, user@) ==> r is Ok && final(self)@ == appended(old(self)@, user@, doc@),
            !has_key(old(self)@, user@) ==> (r matches Err(StoreError::NotFound(m)) && m@
                == "User not found in registry."@) && final(self)@ == old(self)@,
    {
        match self.find(user) {
            None => Err(StoreError::NotFound(String::from_str("User not found in registry."))),
            Some(i) => {
                let ghost before = self@;
                let ghost old_v = self.entries@;
                let s = String::from_str(doc);
                self.entries[i].1.push(s);
                assert(self.entries@[i as int].1.deep_view() =~= old_v[i as int].1.deep_view().push(
                    doc@,
                ));
                assert forall|j: int| 0 <= j < before.len() && j != i implies self.entries@[j]
                    == old_v[j] by {}
                assert forall|j: int| 0 <= j < before.len() && j != i implies before[j].0 != user@ by {
                    assert(before[j].0 != before[i as int].0);
                }
                assert(self@ =~= appended(before, user@, doc@));
                Ok(())
            },
        }
    }

    /// The registry as a nested document with the single member `users`.
    fn to_doc(&self) -> (r: NestedDoc)
        ensures
            r.deep_view() == seq![(users_key(), self@)],
    {
        let mut entries: Vec<(String, Vec<String>)> = Vec::new();
        let mut i: usize = 0;
        while i < self.entries.len()
            invariant
                i <= self.entries.len(),
                entries.deep_view() =~= self@.take(i as int),
            decreases self.entries.len() - i,
        {
            let ghost before = entries.deep_view();
            let docs = clone_names(&self.entries[i].1);
            let name = self.entries[i].0.clone();
            let ghost pv = (name@, docs.deep_view());
            assert(pv == self@[i as int]);
            entries.push((name, docs));
            assert(entries.deep_view() =~= before.push(pv));
            assert(self@.take(i + 1) =~= self@.take(i as int).push(pv));
            i = i + 1;
        }
        assert(self@.take(self.entries.len() as int) =~= self@);
        proof {
            reveal_strlit("users");
        }
        let ghost ev = entries.deep_view();
        let mut r: NestedDoc = Vec::new();
        let key = String::from_str("users");
        assert(key@ =~= users_key());
        r.push((key, entries));
        assert(r.deep_view() =~= seq![(users_key(), ev)]);
        r
    }

    /// The registry as JSON text: `{"users":{...}}`, each user mapped to the
    /// array of its document names.
    pub fn to_json(&self) -> (r: String)
        ensures
            r@ == json_text_of(seq![(users_key(), self@)]),
    {
        encode_nested(&self.to_doc())
    }

    /// Reads a registry from JSON text. Malformed text, or a document without
    /// a `users` object, is a parse error.
    pub fn from_json(text: &str) -> (r: Result<Registry, StoreError>)
        ensures
            r matches Ok(reg) ==> reg.wf(),
            match parsed_entries(text@) {
                None => r matches Err(StoreError::Parse(_)),
                Some(users) => r matches Ok(reg) && reg@ == users,
            },
    {
        match decode_nested(text) {
            Err(_) => Err(StoreError::Parse(String::from_str("Failed to parse config JSON."))),
            Ok(doc) => {
                let ghost dv = doc.deep_view();
                proof {
                    reveal_strlit("users");
                }
                let key = String::from_str("users");
                let mut i: usize = 0;
                while i < doc.len()
                    invariant
                        i <= doc.len(),
                        dv == doc.deep_view(),
                        nested_keys_distinct(dv),
                        json_decoded(text@) == Some(dv),
                        key@ == users_key(),
                        forall|j: int| 0 <= j < i ==> #[trigger] dv[j].0 != users_key(),
                    decreases doc.len() - i,
                {
                    assert(dv[i as int].0 == doc[i as int].0@);
                    if doc[i].0 == key {
                        proof {
                            lemma_lookup_at(dv, users_key(), i as int);
                        }
                        let mut doc = doc;
                        let entry = doc.swap_remove(i);
                        assert(entry.1.deep_view() == dv[i as int].1);
                        assert(keys_distinct(dv[i as int].1));
                        let reg = Registry { entries: entry.1 };
                        assert(reg@ == dv[i as int].1);
                        return Ok(reg);
                    }
                    i = i + 1;
                }
                Err(StoreError::Parse(String::from_str("Failed to parse users list.")))
            },
        }
    }
}

/// A copy of a list of names.
fn clone_names(names: &Vec<String>) -> (r: Vec<String>)
    ensures
        r.deep_view() == names.deep_view(),
{
    let mut r: Vec<String> = Vec::new();
    let mut i: usize = 0;
    while i < names.len()
        invariant
            i <= names.len(),
            r.deep_view() =~= names.deep_view().take(i as int),
        decreases names.len() - i,
    {
        let ghost before = r.deep_view();
        let name = names[i].clone();
        assert(name@ == names.deep_view()[i as int]);
        r.push(name);
        assert(r.deep_view() =~= before.push(name@));
        assert(names.deep_view().take(i + 1) =~= names.deep_view().take(i as int).push(name@));
        i = i + 1;
    }
    assert(names.deep_view().take(names.len() as int) =~= names.deep_view());
    r
}

/// Opens the registry from the registry file's text, or from nothing when
/// the file does not exist yet. In that case the registry is empty and the
/// text of the fresh document, to be written, comes with it.
pub fn open_registry(existing: Option<&str>) -> (r: Result<(Registry, Option<String>), StoreError>)
    ensures
        r matches Ok((reg, _)) ==> reg.wf(),
        match existing {
            None => r matches Ok((reg, Some(fresh))) && reg@.len() == 0 && fresh@ == json_text_of(
                seq![(users_key(), Seq::<(Seq<char>, Seq<Seq<char>>)>::empty())],
            ),
            Some(text) => match parsed_entries(text@) {
                Some(users) => r matches Ok((reg, None)) && reg@ == users,
                None => r matches Err(StoreError::Parse(_)),
            },
        },
{
    match existing {
        None => {
            let reg = Registry::new();
            let fresh = reg.to_json();
            Ok((reg, Some(fresh)))
        },
        Some(text) => match Registry::from_json(text) {
            Ok(reg) => Ok((reg, None)),
            Err(e) => Err(e),
        },
    }
}

/// Registering the same user twice leaves the registry as the first
/// registration left it, so the set of users keeps its size.
pub proof fn lemma_register_idempotent(e: Entries, u: Seq<char>)
    requires
        keys_distinct(e),
    ensures
        registered(registered(e, u), u) == registered(e, u),
        user_set(registered(registered(e, u), u)).len() == user_set(registered(e, u)).len(),
{
    if !has_key(e, u) {
        let n = e.len() as int;
        assert(registered(e, u)[n].0 == u);
        assert(has_key(registered(e, u), u));
    }
}

} // verus!
