//! Login attempts that wait for their callback.
//!
//! A login attempt is remembered under the state token that was sent to the
//! provider. The callback that presents the token consumes the entry; nothing
//! can consume it a second time. What the session storage hands back may be
//! damaged: an entry can have lost its nonce. Such an entry is kept as it is,
//! so that the callback can say what is wrong.

use vstd::prelude::*;
use crate::text::text_of;

verus! {

/// One login attempt in flight.
#[derive(PartialEq, Eq)]
pub struct PendingAuth {
    /// The state token sent to the provider; the key of the entry.
    pub csrf_state: String,
    /// The nonce that the ID token has to carry. An attempt that has just
    /// begun always has one; one that came back from the session storage may
    /// have lost it.
    pub nonce: Option<String>,
    /// Where to send the visitor after a successful login.
    pub return_path: Option<String>,
}

/// What is stored under a state token.
pub struct PendingModel {
    pub nonce: Option<Seq<char>>,
    pub return_path: Option<Seq<char>>,
}

impl Clone for PendingAuth {
    fn clone(&self) -> (copy: Self)
        ensures
            copy == *self,
    {
        PendingAuth {
            csrf_state: self.csrf_state.clone(),
            nonce: self.nonce.clone(),
            return_path: self.return_path.clone(),
        }
    }
}

impl PendingAuth {
    /// The entry without its key.
    pub open spec fn model(&self) -> PendingModel {
        PendingModel { nonce: text_of(self.nonce), return_path: text_of(self.return_path) }
    }
}

/// Consuming the entry under a key, on plain values: the store afterwards,
/// and what was handed out.
pub open spec fn taken(store: Map<Seq<char>, PendingModel>, key: Seq<char>) -> (
    Map<Seq<char>, PendingModel>,
    Option<PendingModel>,
) {
    if store.contains_key(key) {
        (store.remove(key), Some(store[key]))
    } else {
        (store, None)
    }
}

/// An entry is consumed at most once: after a state token was presented,
/// presenting it again finds nothing, whether or not the first time found
/// something.
pub proof fn law_take_consumes(store: Map<Seq<char>, PendingModel>, key: Seq<char>)
    ensures
        taken(taken(store, key).0, key).1 is None,
        taken(taken(store, key).0, key).0 == taken(store, key).0,
{
}

/// What was put under a state token is what the token consumes, and the
/// entries under other tokens are not touched by either step.
pub proof fn law_put_then_take(
    store: Map<Seq<char>, PendingModel>,
    key: Seq<char>,
    entry: PendingModel,
    other: Seq<char>,
)
    requires
        other != key,
    ensures
        taken(store.insert(key, entry), key).1 == Some(entry),
        taken(store.insert(key, entry), key).0 == store.remove(key),
        taken(store.insert(key, entry), key).0.contains_key(other) == store.contains_key(other),
        store.contains_key(other) ==> taken(store.insert(key, entry), key).0[other] == store[other],
{
    assert(store.insert(key, entry).remove(key) =~= store.remove(key));
}

/// Whether some entry of the store has no nonce.
pub open spec fn incomplete(store: Map<Seq<char>, PendingModel>) -> bool {
    exists|key: Seq<char>| store.contains_key(key) && (#[trigger] store[key]).nonce is None
}

/// The store that three columns spell: the first `n` state tokens, each with
/// the nonce and the return path of its row, put in order. A row beyond the
/// end of the nonce column has no nonce, and one beyond the end of the path
/// column has no return path.
pub open spec fn from_columns(
    states: Seq<String>,
    nonces: Seq<Option<String>>,
    paths: Seq<Option<String>>,
    n: nat,
) -> Map<Seq<char>, PendingModel>
    decreases n,
{
    if n == 0 {
        Map::empty()
    } else {
        let row = n - 1;
        from_columns(states, nonces, paths, row as nat).insert(
            states[row]@,
            PendingModel {
                nonce: if row < nonces.len() {
                    text_of(nonces[row])
                } else {
                    None
                },
                return_path: if row < paths.len() {
                    text_of(paths[row])
                } else {
                    None
                },
            },
        )
    }
}

/// No two entries share a state token.
spec fn distinct_keys(entries: Seq<PendingAuth>) -> bool {
    forall|i: int, j: int|
        0 <= i < j < entries.len() ==> entries[i].csrf_state@ != entries[j].csrf_state@
}

/// Entry `i` is stored under `key`.
spec fn keyed_at(entries: Seq<PendingAuth>, i: int, key: Seq<char>) -> bool {
    0 <= i < entries.len() && entries[i].csrf_state@ == key
}

/// The entries as a map from state token to what is stored under it.
spec fn as_map(entries: Seq<PendingAuth>) -> Map<Seq<char>, PendingModel> {
    Map::new(
        |key: Seq<char>| exists|i: int| keyed_at(entries, i, key),
        |key: Seq<char>| entries[choose|i: int| keyed_at(entries, i, key)].model(),
    )
}

proof fn lemma_entry_in_map(entries: Seq<PendingAuth>, i: int)
    requires
        distinct_keys(entries),
        0 <= i < entries.len(),
    ensures
        as_map(entries).contains_key(entries[i].csrf_state@),
        as_map(entries)[entries[i].csrf_state@] == entries[i].model(),
{
    let key = entries[i].csrf_state@;
    assert(keyed_at(entries, i, key));
    let j = choose|j: int| keyed_at(entries, j, key);
    assert(keyed_at(entries, j, key));
    assert(i == j);
}

proof fn lemma_key_in_map(entries: Seq<PendingAuth>, key: Seq<char>)
    requires
        as_map(entries).contains_key(key),
    ensures
        exists|i: int| keyed_at(entries, i, key),
{
}

/// Login attempts in flight, by state token. A session keeps its one
/// attempt in such a store.
pub struct PendingStore {
    entries: Vec<PendingAuth>,
}

impl View for PendingStore {
    type V = Map<Seq<char>, PendingModel>;

    closed spec fn view(&self) -> Map<Seq<char>, PendingModel> {
        as_map(self.entries@)
    }
}

impl PendingStore {
    #[verifier::type_invariant]
    spec fn well_formed(self) -> bool {
        distinct_keys(self.entries@)
    }

    /// A store without entries.
    pub fn new() -> (store: Self)
        ensures
            store@ == Map::<Seq<char>, PendingModel>::empty(),
    {
        let store = PendingStore { entries: Vec::new() };
        assert(store@ =~= Map::<Seq<char>, PendingModel>::empty());
        store
    }

    /// Builds a store from three columns: the state tokens, the nonces and the
    /// return paths, row by row. Every state token gives an entry, with or
    /// without a nonce, and a later row replaces an earlier one with the same
    /// token.
    pub fn restore(
        states: &Vec<String>,
        nonces: &Vec<Option<String>>,
        paths: &Vec<Option<String>>,
    ) -> (store: Self)
        ensures
            store@ == from_columns(states@, nonces@, paths@, states@.len()),
    {
        let mut store = PendingStore::new();
        let mut i: usize = 0;
        while i < states.len()
            invariant
                i <= states.len(),
                store@ == from_columns(states@, nonces@, paths@, i as nat),
            decreases states.len() - i,
        {
            let nonce = if i < nonces.len() {
                nonces[i].clone()
            } else {
                None
            };
            let return_path = if i < paths.len() {
                paths[i].clone()
            } else {
                None
            };
            store.keep(PendingAuth { csrf_state: states[i].clone(), nonce, return_path });
            i += 1;
        }
        store
    }

    /// Whether some entry has no nonce.
    pub fn lacks_nonce(&self) -> (lacking: bool)
        ensures
            lacking == incomplete(self@),
    {
        proof {
            use_type_invariant(self);
        }
        let mut i: usize = 0;
        while i < self.entries.len()
            invariant
                i <= self.entries.len(),
                distinct_keys(self.entries@),
                forall|j: int| 0 <= j < i ==> self.entries@[j].nonce is Some,
            decreases self.entries.len() - i,
        {
            if self.entries[i].nonce.is_none() {
                proof {
                    lemma_entry_in_map(self.entries@, i as int);
                    let key = self.entries@[i as int].csrf_state@;
                    assert(self@.contains_key(key) && self@[key].nonce is None);
                }
                return true;
            }
            i += 1;
        }
        proof {
            assert forall|key: Seq<char>| self@.contains_key(key) implies (
            #[trigger] self@[key]).nonce is Some by {
                let j = choose|j: int| keyed_at(self.entries@, j, key);
                lemma_entry_in_map(self.entries@, j);
            }
        }
        false
    }

    /// The store as three columns of equal length: the state tokens, the
    /// nonces and the return paths, row by row.
    pub fn columns(&self) -> (columns: (Vec<String>, Vec<Option<String>>, Vec<Option<String>>))
        ensures
            columns.0@.len() == self@.len(),
            columns.1@.len() == self@.len(),
            columns.2@.len() == self@.len(),
            from_columns(columns.0@, columns.1@, columns.2@, self@.len()) == self@,
    {
        proof {
            use_type_invariant(self);
            lemma_map_size(self.entries@);
        }
        let mut states: Vec<String> = Vec::new();
        let mut nonces: Vec<Option<String>> = Vec::new();
        let mut paths: Vec<Option<String>> = Vec::new();
        let mut i: usize = 0;
        while i < self.entries.len()
            invariant
                i <= self.entries.len(),
                distinct_keys(self.entries@),
                states@.len() == i,
                nonces@.len() == i,
                paths@.len() == i,
                forall|k: int|
                    0 <= k < i ==> {
                        &&& (#[trigger] states@[k])@ == self.entries@[k].csrf_state@
                        &&& text_of(nonces@[k]) == text_of(self.entries@[k].nonce)
                        &&& text_of(paths@[k]) == text_of(self.entries@[k].return_path)
                    },
            decreases self.entries.len() - i,
        {
            states.push(self.entries[i].csrf_state.clone());
            nonces.push(self.entries[i].nonce.clone());
            paths.push(self.entries[i].return_path.clone());
            i += 1;
        }
        proof {
            lemma_columns(self.entries@, states@, nonces@, paths@, self.entries@.len());
            assert(self.entries@.take(self.entries@.len() as int) =~= self.entries@);
        }
        (states, nonces, paths)
    }

    /// The entries, each under its own state token, in the order in which
    /// their tokens were first put.
    pub fn entries(&self) -> (list: Vec<PendingAuth>)
        ensures
            list@.len() == self@.len(),
            forall|i: int|
                0 <= i < list@.len() ==> self@.contains_key(#[trigger] list@[i].csrf_state@)
                    && self@[list@[i].csrf_state@] == list@[i].model(),
            forall|i: int, j: int|
                0 <= i < j < list@.len() ==> list@[i].csrf_state@ != list@[j].csrf_state@,
    {
        proof {
            use_type_invariant(self);
            lemma_map_size(self.entries@);
        }
        let mut list: Vec<PendingAuth> = Vec::new();
        let mut i: usize = 0;
        while i < self.entries.len()
            invariant
                i <= self.entries.len(),
                list@ == self.entries@.take(i as int),
            decreases self.entries.len() - i,
        {
            list.push(self.entries[i].clone());
            assert(self.entries@.take(i + 1) =~= self.entries@.take(i as int).push(
                self.entries@[i as int],
            ));
            i += 1;
        }
        proof {
            assert(self.entries@.take(self.entries@.len() as int) =~= self.entries@);
            assert forall|k: int| 0 <= k < list@.len() implies self@.contains_key(
                #[trigger] list@[k].csrf_state@,
            ) && self@[list@[k].csrf_state@] == list@[k].model() by {
                lemma_entry_in_map(self.entries@, k);
            }
        }
        list
    }

    /// The number of entries.
    pub fn len(&self) -> (n: usize)
        ensures
            n == self@.len(),
            self@.dom().finite(),
    {
        proof {
            use_type_invariant(self);
            lemma_map_size(self.entries@);
        }
        self.entries.len()
    }

    /// Whether a login attempt waits under the token.
    pub fn contains(&self, csrf_state: &str) -> (found: bool)
        ensures
            found == self@.contains_key(csrf_state@),
    {
        let key = csrf_state.to_owned();
        self.position(&key).is_some()
    }

    fn position(&self, key: &String) -> (found: Option<usize>)
        ensures
            match found {
                Some(i) => keyed_at(self.entries@, i as int, key@),
                None => !self@.contains_key(key@),
            },
            found.is_some() == self@.contains_key(key@),
    {
        let mut i: usize = 0;
        while i < self.entries.len()
            invariant
                i <= self.entries.len(),
                forall|j: int| 0 <= j < i ==> !keyed_at(self.entries@, j, key@),
            decreases self.entries.len() - i,
        {
            if self.entries[i].csrf_state == *key {
                proof {
                    use_type_invariant(self);
                    lemma_entry_in_map(self.entries@, i as int);
                }
                return Some(i);
            }
            i += 1;
        }
        proof {
            if self@.contains_key(key@) {
                lemma_key_in_map(self.entries@, key@);
            }
        }
        None
    }

    /// Remembers a login attempt under its state token. An earlier entry under
    /// the same token is replaced.
    pub fn put(&mut self, csrf_state: String, nonce: String, return_path: Option<String>)
        ensures
            final(self)@ == old(self)@.insert(
                csrf_state@,
                PendingModel { nonce: Some(nonce@), return_path: text_of(return_path) },
            ),
    {
        self.keep(PendingAuth { csrf_state, nonce: Some(nonce), return_path });
    }

    /// Stores an entry under its state token, in place of an earlier one under
    /// the same token.
    fn keep(&mut self, entry: PendingAuth)
        ensures
            final(self)@ == old(self)@.insert(entry.csrf_state@, entry.model()),
    {
        let found = self.position(&entry.csrf_state);
        proof {
            use_type_invariant(&*self);
        }
        let ghost before = self.entries@;
        let mut entries = Vec::new();
        core::mem::swap(&mut self.entries, &mut entries);
        match found {
            Some(i) => {
                proof {
                    lemma_replaced(before, i as int, entry);
                }
                entries.set(i, entry);
            },
            None => {
                proof {
                    lemma_key_absent(before, entry.csrf_state@);
                    lemma_appended(before, entry);
                }
                entries.push(entry);
            },
        }
        self.entries = entries;
    }

    /// Consumes the login attempt that waits under the token: hands it out and
    /// forgets it. Without such an entry the store stays as it is.
    pub fn take(&mut self, csrf_state: &str) -> (entry: Option<PendingAuth>)
        ensures
            final(self)@ == taken(old(self)@, csrf_state@).0,
            match entry {
                Some(pending) => {
                    &&& pending.csrf_state@ == csrf_state@
                    &&& taken(old(self)@, csrf_state@).1 == Some(pending.model())
                },
                None => taken(old(self)@, csrf_state@).1 is None,
            },
    {
        let key = csrf_state.to_owned();
        let found = self.position(&key);
        proof {
            use_type_invariant(&*self);
        }
        let ghost before = self.entries@;
        match found {
            Some(i) => {
                proof {
                    lemma_entry_in_map(before, i as int);
                    lemma_removed(before, i as int);
                }
                let mut entries = Vec::new();
                core::mem::swap(&mut self.entries, &mut entries);
                let pending = entries.remove(i);
                self.entries = entries;
                Some(pending)
            },
            None => None,
        }
    }
}

proof fn lemma_key_absent(entries: Seq<PendingAuth>, key: Seq<char>)
    requires
        !as_map(entries).contains_key(key),
    ensures
        forall|i: int| 0 <= i < entries.len() ==> entries[i].csrf_state@ != key,
{
    assert forall|i: int| 0 <= i < entries.len() implies entries[i].csrf_state@ != key by {
        if entries[i].csrf_state@ == key {
            assert(keyed_at(entries, i, key));
        }
    }
}

proof fn lemma_replaced(entries: Seq<PendingAuth>, i: int, entry: PendingAuth)
    requires
        distinct_keys(entries),
        keyed_at(entries, i, entry.csrf_state@),
    ensures
        distinct_keys(entries.update(i, entry)),
        as_map(entries.update(i, entry)) == as_map(entries).insert(
            entry.csrf_state@,
            entry.model(),
        ),
{
    let after = entries.update(i, entry);
    assert(distinct_keys(after));
    assert forall|key: Seq<char>|
        as_map(after).contains_key(key) == #[trigger] as_map(entries).insert(
            entry.csrf_state@,
            entry.model(),
        ).contains_key(key) by {
        if as_map(after).contains_key(key) {
            let j = choose|j: int| keyed_at(after, j, key);
            assert(keyed_at(entries, j, key));
        }
        if as_map(entries).contains_key(key) {
            let j = choose|j: int| keyed_at(entries, j, key);
            assert(keyed_at(after, j, key));
        }
        if key == entry.csrf_state@ {
            assert(keyed_at(after, i, key));
        }
    }
    assert forall|key: Seq<char>| as_map(after).contains_key(key) implies as_map(after)[key]
        == #[trigger] as_map(entries).insert(entry.csrf_state@, entry.model())[key] by {
        let j = choose|j: int| keyed_at(after, j, key);
        lemma_entry_in_map(after, j);
        if j != i {
            lemma_entry_in_map(entries, j);
        }
    }
    assert(as_map(after) =~= as_map(entries).insert(entry.csrf_state@, entry.model()));
}

proof fn lemma_appended(entries: Seq<PendingAuth>, entry: PendingAuth)
    requires
        distinct_keys(entries),
        forall|i: int| 0 <= i < entries.len() ==> entries[i].csrf_state@ != entry.csrf_state@,
    ensures
        distinct_keys(entries.push(entry)),
        as_map(entries.push(entry)) == as_map(entries).insert(entry.csrf_state@, entry.model()),
{
    let after = entries.push(entry);
    let last = entries.len() as int;
    assert(distinct_keys(after));
    assert forall|key: Seq<char>|
        as_map(after).contains_key(key) == #[trigger] as_map(entries).insert(
            entry.csrf_state@,
            entry.model(),
        ).contains_key(key) by {
        if as_map(after).contains_key(key) {
            let j = choose|j: int| keyed_at(after, j, key);
            if j != last {
                assert(keyed_at(entries, j, key));
            }
        }
        if as_map(entries).contains_key(key) {
            let j = choose|j: int| keyed_at(entries, j, key);
            assert(keyed_at(after, j, key));
        }
        if key == entry.csrf_state@ {
            assert(keyed_at(after, last, key));
        }
    }
    assert forall|key: Seq<char>| as_map(after).contains_key(key) implies as_map(after)[key]
        == #[trigger] as_map(entries).insert(entry.csrf_state@, entry.model())[key] by {
        let j = choose|j: int| keyed_at(after, j, key);
        lemma_entry_in_map(after, j);
        if j != last {
            lemma_entry_in_map(entries, j);
        }
    }
    assert(as_map(after) =~= as_map(entries).insert(entry.csrf_state@, entry.model()));
}

proof fn lemma_removed(entries: Seq<PendingAuth>, i: int)
    requires
        distinct_keys(entries),
        0 <= i < entries.len(),
    ensures
        distinct_keys(entries.remove(i)),
        as_map(entries.remove(i)) == as_map(entries).remove(entries[i].csrf_state@),
{
    let after = entries.remove(i);
    let gone = entries[i].csrf_state@;
    assert forall|a: int, b: int| 0 <= a < b < after.len() implies after[a].csrf_state@
        != after[b].csrf_state@ by {
        let a0 = if a < i { a } else { a + 1 };
        let b0 = if b < i { b } else { b + 1 };
        assert(after[a] == entries[a0]);
        assert(after[b] == entries[b0]);
    }
    assert forall|key: Seq<char>|
        as_map(after).contains_key(key) == #[trigger] as_map(entries).remove(gone).contains_key(
            key,
        ) by {
        if as_map(after).contains_key(key) {
            let j = choose|j: int| keyed_at(after, j, key);
            let j0 = if j < i { j } else { j + 1 };
            assert(after[j] == entries[j0]);
            assert(keyed_at(entries, j0, key));
            assert(key != gone);
        }
        if as_map(entries).contains_key(key) && key != gone {
            let j = choose|j: int| keyed_at(entries, j, key);
            let j1 = if j < i { j } else { j - 1 };
            assert(after[j1] == entries[j]);
            assert(keyed_at(after, j1, key));
        }
    }
    assert forall|key: Seq<char>| as_map(after).contains_key(key) implies as_map(after)[key]
        == #[trigger] as_map(entries).remove(gone)[key] by {
        let j = choose|j: int| keyed_at(after, j, key);
        let j0 = if j < i { j } else { j + 1 };
        assert(after[j] == entries[j0]);
        lemma_entry_in_map(after, j);
        lemma_entry_in_map(entries, j0);
    }
    assert(as_map(after) =~= as_map(entries).remove(gone));
}

/// Columns that repeat the entries row by row spell the entries' map.
proof fn lemma_columns(
    entries: Seq<PendingAuth>,
    states: Seq<String>,
    nonces: Seq<Option<String>>,
    paths: Seq<Option<String>>,
    n: nat,
)
    requires
        distinct_keys(entries),
        n <= entries.len(),
        states.len() == entries.len(),
        nonces.len() == entries.len(),
        paths.len() == entries.len(),
        forall|k: int|
            0 <= k < entries.len() ==> {
                &&& (#[trigger] states[k])@ == entries[k].csrf_state@
                &&& text_of(nonces[k]) == text_of(entries[k].nonce)
                &&& text_of(paths[k]) == text_of(entries[k].return_path)
            },
    ensures
        from_columns(states, nonces, paths, n) == as_map(entries.take(n as int)),
    decreases n,
{
    if n == 0 {
        assert(as_map(entries.take(0)) =~= Map::<Seq<char>, PendingModel>::empty());
    } else {
        let row = (n - 1) as int;
        lemma_columns(entries, states, nonces, paths, row as nat);
        let before = entries.take(row);
        assert(distinct_keys(before));
        assert(entries.take(n as int) =~= before.push(entries[row]));
        assert(states[row]@ == entries[row].csrf_state@);
        lemma_appended(before, entries[row]);
    }
}

/// A store of `n` entries with distinct keys maps `n` keys.
proof fn lemma_map_size(entries: Seq<PendingAuth>)
    requires
        distinct_keys(entries),
    ensures
        as_map(entries).dom().finite(),
        as_map(entries).len() == entries.len(),
    decreases entries.len(),
{
    if entries.len() == 0 {
        assert(as_map(entries) =~= Map::<Seq<char>, PendingModel>::empty());
    } else {
        let last = entries.len() - 1;
        let rest = entries.remove(last);
        lemma_removed(entries, last);
        lemma_map_size(rest);
        lemma_entry_in_map(entries, last);
        let key = entries[last].csrf_state@;
        assert(as_map(entries).dom() =~= as_map(rest).dom().insert(key));
    }
}

} // verus!
