//! An insertion-ordered map from names to values, backed by an
//! `indexmap::IndexMap` that stores, for each name, the position of its value
//! in a companion vector. Resolution only ever asks such a map for the value
//! bound to a name, so its mathematical view is a `Map` from the name's
//! characters to the stored value.

use vstd::prelude::*;

verus! {

#[verifier::external_type_specification]
#[verifier::external_body]
#[verifier::reject_recursive_types(K)]
#[verifier::reject_recursive_types(V)]
#[verifier::reject_recursive_types(S)]
pub struct ExIndexMap<K, V, S>(indexmap::IndexMap<K, V, S>);

/// The concrete index type a named map uses: each name is bound to the
/// position of its value in the companion item vector.
pub type NameIndex = indexmap::IndexMap<String, usize>;

/// What an `indexmap::IndexMap<String, usize>` holds, as a mathematical map
/// from each key's characters to the value stored under that key.
pub uninterp spec fn index_map_entries(m: NameIndex) -> Map<Seq<char>, usize>;

/// Relies on indexmap::IndexMap::new: the new map holds no entries.
#[verifier::external_body]
fn index_map_new() -> (r: NameIndex)
    ensures
        forall|name: Seq<char>| !index_map_entries(r).contains_key(name),
{
    indexmap::IndexMap::new()
}

/// Relies on indexmap::IndexMap::insert: the pair is added, and an equivalent
/// key already present has its value replaced.
#[verifier::external_body]
fn index_map_insert(m: &mut NameIndex, k: String, v: usize)
    ensures
        index_map_entries(*final(m)) == index_map_entries(*old(m)).insert(k@, v),
{
    m.insert(k, v);
}

/// Relies on indexmap::IndexMap::get: the value stored under an equivalent
/// key is returned, and `None` when no such key is present.
#[verifier::external_body]
fn index_map_get(m: &NameIndex, k: &str) -> (r: Option<usize>)
    ensures
        match r {
            Some(i) => index_map_entries(*m).contains_key(k@) && index_map_entries(*m)[k@] == i,
            None => !index_map_entries(*m).contains_key(k@),
        },
{
    m.get(k).copied()
}

/// A mapping from unique names to values of one kind. Insertion order is
/// kept by the underlying index map but plays no part in lookup, so the view
/// forgets it.
pub struct NamedMap<V> {
    index: NameIndex,
    items: Vec<V>,
}

impl<V> View for NamedMap<V> {
    type V = Map<Seq<char>, V>;

    closed spec fn view(&self) -> Map<Seq<char>, V> {
        Map::new(
            |name: Seq<char>| index_map_entries(self.index).contains_key(name)
                && index_map_entries(self.index)[name] < self.items@.len(),
            |name: Seq<char>| self.items@[index_map_entries(self.index)[name] as int],
        )
    }
}

impl<V> NamedMap<V> {
    /// Every position the index knows points into the item vector.
    pub closed spec fn wf(self) -> bool {
        forall|name: Seq<char>| #[trigger] index_map_entries(self.index).contains_key(name)
            ==> index_map_entries(self.index)[name] < self.items@.len()
    }

    pub fn new() -> (r: Self)
        ensures
            r.wf(),
            r@ == Map::<Seq<char>, V>::empty(),
    {
        let r = NamedMap { index: index_map_new(), items: Vec::new() };
        proof {
            assert(r@ =~= Map::<Seq<char>, V>::empty());
        }
        r
    }

    pub fn insert(&mut self, name: String, value: V)
        requires
            old(self).wf(),
        ensures
            final(self).wf(),
            final(self)@ == old(self)@.insert(name@, value),
    {
        let position = self.items.len();
        self.items.push(value);
        index_map_insert(&mut self.index, name, position);
        proof {
            assert(self@ =~= old(self)@.insert(name@, value));
        }
    }

    pub fn get<'a>(&'a self, name: &str) -> (r: Option<&'a V>)
        requires
            self.wf(),
        ensures
            match r {
                Some(v) => self@.contains_key(name@) && *v == self@[name@],
                None => !self@.contains_key(name@),
            },
    {
        match index_map_get(&self.index, name) {
            Some(position) => Some(&self.items[position]),
            None => None,
        }
    }
}

} // verus!
