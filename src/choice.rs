//! Options that an operator chooses among by name, kept in an insertion
//! ordered map from each name to the index of what it stands for.
use vstd::prelude::*;

verus! {

/// `indexmap::IndexMap`, whose contents are stated by `index_entries`.
#[verifier::external_type_specification]
#[verifier::external_body]
#[verifier::reject_recursive_types(K)]
#[verifier::reject_recursive_types(V)]
#[verifier::reject_recursive_types(S)]
pub struct ExIndexMap<K, V, S>(indexmap::IndexMap<K, V, S>);

/// What a map from names to indices holds: its entries, in their order.
pub uninterp spec fn index_entries(m: indexmap::IndexMap<String, usize>) -> Seq<(Seq<char>, usize)>;

/// Whether an entry has the key `key`.
pub open spec fn has_key(entries: Seq<(Seq<char>, usize)>, key: Seq<char>) -> bool {
    exists|i: int| 0 <= i < entries.len() && #[trigger] entries[i].0 == key
}

/// Relies on indexmap::IndexMap::new: a map with no entries.
#[verifier::external_body]
fn index_new() -> (r: indexmap::IndexMap<String, usize>)
    ensures
        index_entries(r) == Seq::<(Seq<char>, usize)>::empty(),
{
    indexmap::IndexMap::new()
}

/// Relies on indexmap::IndexMap::insert: a key already there keeps its place
/// and takes the new value; a new key goes last.
#[verifier::external_body]
fn index_insert(m: &mut indexmap::IndexMap<String, usize>, key: String, value: usize)
    ensures
        forall|i: int|
            0 <= i < index_entries(*old(m)).len() && #[trigger] index_entries(*old(m))[i].0
                == key@ ==> index_entries(*final(m)) == index_entries(*old(m)).update(
                i,
                (key@, value),
            ),
        !has_key(index_entries(*old(m)), key@) ==> index_entries(*final(m)) == index_entries(
            *old(m),
        ).push((key@, value)),
{
    m.insert(key, value);
}

/// Relies on indexmap::IndexMap::get: the value of the entry with the key.
#[verifier::external_body]
fn index_get(m: &indexmap::IndexMap<String, usize>, key: &str) -> (r: Option<usize>)
    ensures
        match r {
            Some(v) => exists|i: int|
                0 <= i < index_entries(*m).len() && #[trigger] index_entries(*m)[i] == (key@, v),
            None => !has_key(index_entries(*m), key@),
        },
{
    m.get(key).copied()
}

/// Relies on indexmap::IndexMap::keys: the keys, in the entries' order.
#[verifier::external_body]
fn index_keys(m: &indexmap::IndexMap<String, usize>) -> (r: Vec<String>)
    ensures
        r@.len() == index_entries(*m).len(),
        forall|i: int| 0 <= i < r@.len() ==> #[trigger] r@[i]@ == index_entries(*m)[i].0,
{
    m.keys().cloned().collect()
}

/// The index of the last name equal to `key`, or -1.
pub open spec fn last_index(keys: Seq<Seq<char>>, key: Seq<char>) -> int
    decreases keys.len(),
{
    if keys.len() == 0 {
        -1
    } else if keys.last() == key {
        keys.len() - 1
    } else {
        last_index(keys.drop_last(), key)
    }
}

pub proof fn lemma_last_index_bounds(keys: Seq<Seq<char>>, key: Seq<char>)
    ensures
        -1 <= last_index(keys, key) < keys.len(),
        last_index(keys, key) >= 0 ==> keys[last_index(keys, key)] == key,
    decreases keys.len(),
{
    if keys.len() > 0 && keys.last() != key {
        lemma_last_index_bounds(keys.drop_last(), key);
    }
}

proof fn lemma_last_index_push(keys: Seq<Seq<char>>, x: Seq<char>, key: Seq<char>)
    ensures
        last_index(keys.push(x), key) == if x == key {
            keys.len() as int
        } else {
            last_index(keys, key)
        },
{
    assert(keys.push(x).drop_last() =~= keys);
}

/// The keys of entries, in order.
pub open spec fn entry_keys(entries: Seq<(Seq<char>, usize)>) -> Seq<Seq<char>> {
    entries.map_values(|e: (Seq<char>, usize)| e.0)
}

/// The names of `s` without repeats, each where it first occurs.
pub open spec fn first_occurrences(s: Seq<Seq<char>>) -> Seq<Seq<char>>
    decreases s.len(),
{
    if s.len() == 0 {
        Seq::empty()
    } else {
        let r = first_occurrences(s.drop_last());
        if r.contains(s.last()) {
            r
        } else {
            r.push(s.last())
        }
    }
}

/// Names to choose among, each standing for the index of the last option
/// given with that name.
pub struct Choices {
    lookup: indexmap::IndexMap<String, usize>,
    names: Ghost<Seq<Seq<char>>>,
}

impl Choices {
    /// The names the choices were made from, in the order given.
    pub closed spec fn names(&self) -> Seq<Seq<char>> {
        self.names@
    }

    /// Each name appears once in the map, in the order it was first given,
    /// and stands for the last option given with it.
    pub closed spec fn wf(&self) -> bool {
        let e = index_entries(self.lookup);
        &&& entry_keys(e) == first_occurrences(self.names@)
        &&& forall|a: int, b: int|
            0 <= a < b < e.len() ==> #[trigger] e[a].0 != #[trigger] e[b].0
        &&& forall|a: int| 0 <= a < e.len() ==> #[trigger] e[a].1 == last_index(self.names@, e[a].0)
        &&& forall|k: Seq<char>| last_index(self.names@, k) >= 0 ==> #[trigger] has_key(e, k)
    }

    /// Choices among `names`, the option at index `i` having the name at `i`.
    pub fn from_names(names: &Vec<String>) -> (r: Choices)
        ensures
            r.wf(),
            r.names() == names@.map_values(|n: String| n@),
    {
        let ghost all = names@.map_values(|n: String| n@);
        let mut lookup = index_new();
        let mut i: usize = 0;
        while i < names.len()
            invariant
                i <= names@.len(),
                all == names@.map_values(|n: String| n@),
                ({
                    let e = index_entries(lookup);
                    let p = all.take(i as int);
                    &&& entry_keys(e) == first_occurrences(p)
                    &&& forall|a: int, b: int|
                        0 <= a < b < e.len() ==> #[trigger] e[a].0 != #[trigger] e[b].0
                    &&& forall|a: int| 0 <= a < e.len() ==> #[trigger] e[a].1 == last_index(p, e[a].0)
                    &&& forall|k: Seq<char>| last_index(p, k) >= 0 ==> #[trigger] has_key(e, k)
                }),
            decreases names@.len() - i,
        {
            let ghost p = all.take(i as int);
            let ghost old_e = index_entries(lookup);
            let ghost x = names@[i as int]@;
            assert(all.take(i + 1) =~= p.push(x));
            let name = names[i].clone();
            index_insert(&mut lookup, name, i);
            let ghost e = index_entries(lookup);
            proof {
                let q = p.push(x);
                assert(q.drop_last() =~= p);
                let fo = first_occurrences(p);
                assert(has_key(old_e, x) == fo.contains(x)) by {
                    if has_key(old_e, x) {
                        let j = choose|j: int| 0 <= j < old_e.len() && #[trigger] old_e[j].0 == x;
                        assert(entry_keys(old_e)[j] == x);
                    }
                    if fo.contains(x) {
                        let j = choose|j: int| 0 <= j < fo.len() && fo[j] == x;
                        assert(entry_keys(old_e)[j] == x);
                        assert(old_e[j].0 == x);
                    }
                }
                assert forall|k: Seq<char>| #[trigger] last_index(q, k) == (if x == k {
                    i as int
                } else {
                    last_index(p, k)
                }) by {
                    lemma_last_index_push(p, x, k);
                }
                if has_key(old_e, x) {
                    let j = choose|j: int| 0 <= j < old_e.len() && #[trigger] old_e[j].0 == x;
                    assert(e == old_e.update(j, (x, i)));
                    assert(entry_keys(e) =~= entry_keys(old_e));
                    assert forall|k: Seq<char>| last_index(q, k) >= 0 implies #[trigger] has_key(
                        e,
                        k,
                    ) by {
                        if k == x {
                            assert(e[j].0 == k);
                        } else {
                            assert(last_index(p, k) >= 0);
                            assert(has_key(old_e, k));
                            let a = choose|a: int| 0 <= a < old_e.len() && #[trigger] old_e[a].0 == k;
                            assert(e[a].0 == k);
                        }
                    }
                } else {
                    assert(e == old_e.push((x, i)));
                    assert(entry_keys(e) =~= entry_keys(old_e).push(x));
                    assert forall|k: Seq<char>| last_index(q, k) >= 0 implies #[trigger] has_key(
                        e,
                        k,
                    ) by {
                        if k == x {
                            assert(e[old_e.len() as int].0 == k);
                        } else {
                            assert(last_index(p, k) >= 0);
                            assert(has_key(old_e, k));
                            let a = choose|a: int| 0 <= a < old_e.len() && #[trigger] old_e[a].0 == k;
                            assert(e[a].0 == k);
                        }
                    }
                    assert forall|a: int, b: int| 0 <= a < b < e.len() implies #[trigger] e[a].0
                        != #[trigger] e[b].0 by {
                        if b == old_e.len() {
                            assert(old_e[a].0 != x);
                        }
                    }
                }
            }
            i = i + 1;
        }
        assert(all.take(i as int) =~= all);
        Choices { lookup, names: Ghost(all) }
    }

    /// The option that a name stands for: the index of the last option given
    /// with that name.
    pub fn get(&self, name: &str) -> (r: Option<usize>)
        requires
            self.wf(),
        ensures
            match r {
                None => last_index(self.names(), name@) < 0,
                Some(j) => j as int == last_index(self.names(), name@),
            },
    {
        let r = index_get(&self.lookup, name);
        proof {
            let e = index_entries(self.lookup);
            match r {
                Some(v) => {
                    let a = choose|a: int| 0 <= a < e.len() && #[trigger] e[a] == (name@, v);
                    assert(e[a].1 == last_index(self.names@, e[a].0));
                },
                None => {
                    if last_index(self.names@, name@) >= 0 {
                        assert(has_key(e, name@));
                    }
                },
            }
        }
        r
    }

    /// The names to offer, each once, in the order first given.
    pub fn names_to_offer(&self) -> (r: Vec<String>)
        requires
            self.wf(),
        ensures
            r@.map_values(|n: String| n@) == first_occurrences(self.names()),
    {
        let r = index_keys(&self.lookup);
        assert(r@.map_values(|n: String| n@) =~= entry_keys(index_entries(self.lookup)));
        r
    }
}

} // verus!
