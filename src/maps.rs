//! Hash maps and sets of the `hashbrown` crate, keyed by names, with what
//! each holds given as a mathematical map or set.
use vstd::prelude::*;
use crate::qql::ast::{Model, ModelV, Query, QueryV};

verus! {

/// Whether `keys` lists each key of `m` exactly once.
pub open spec fn lists_keys<V>(keys: Seq<String>, m: Map<Seq<char>, V>) -> bool {
    &&& keys.map_values(|k: String| k@).no_duplicates()
    &&& keys.map_values(|k: String| k@).to_set() == m.dom()
}

/// A set of names.
#[verifier::external_body]
pub struct NameSet {
    inner: hashbrown::HashSet<String>,
}

pub uninterp spec fn name_set_contents(s: NameSet) -> Set<Seq<char>>;

impl NameSet {
    /// Relies on hashbrown::HashSet::new: the set starts empty.
    #[verifier::external_body]
    pub fn new() -> (r: NameSet)
        ensures
            name_set_contents(r) == Set::<Seq<char>>::empty(),
    {
        NameSet { inner: hashbrown::HashSet::new() }
    }

    /// Relies on hashbrown::HashSet::contains: whether the name is in the set.
    #[verifier::external_body]
    pub fn contains(&self, k: &str) -> (r: bool)
        ensures
            r == name_set_contents(*self).contains(k@),
    {
        self.inner.contains(k)
    }

    /// Relies on hashbrown::HashSet::insert: the name is in the set afterwards.
    #[verifier::external_body]
    pub fn insert(&mut self, k: String)
        ensures
            name_set_contents(*final(self)) == name_set_contents(*old(self)).insert(k@),
    {
        self.inner.insert(k);
    }
}

/// Parsed models, keyed by their names.
#[verifier::external_body]
pub struct ModelMap {
    inner: hashbrown::HashMap<String, Model>,
}

pub uninterp spec fn model_map_contents(m: ModelMap) -> Map<Seq<char>, ModelV>;

impl ModelMap {
    /// Relies on hashbrown::HashMap::new: the map starts empty.
    #[verifier::external_body]
    pub fn new() -> (r: ModelMap)
        ensures
            (model_map_contents(r) == Map::<Seq<char>, ModelV>::empty()),
    {
        ModelMap { inner: hashbrown::HashMap::new() }
    }

    /// Relies on hashbrown::HashMap::insert: the key maps to the model
    /// afterwards, in place of what it mapped to before.
    #[verifier::external_body]
    pub fn insert(&mut self, k: String, v: Model)
        ensures
            model_map_contents(*final(self)) == model_map_contents(*old(self)).insert(k@, v@),
    {
        self.inner.insert(k, v);
    }

    /// Relies on hashbrown::HashMap::get: the model the key maps to.
    #[verifier::external_body]
    pub fn get(&self, k: &str) -> (r: Option<&Model>)
        ensures
            model_map_contents(*self).contains_key(k@) <==> r is Some,
            r is Some ==> r->0@ == model_map_contents(*self)[k@],
    {
        self.inner.get(k)
    }

    /// Relies on hashbrown::HashMap::keys: each key once, in no set order.
    #[verifier::external_body]
    pub fn keys(&self) -> (r: Vec<String>)
        ensures
            lists_keys(r@, model_map_contents(*self)),
    {
        self.inner.keys().cloned().collect()
    }
}

/// Parsed queries, keyed by their names.
#[verifier::external_body]
pub struct QueryMap {
    inner: hashbrown::HashMap<String, Query>,
}

pub uninterp spec fn query_map_contents(m: QueryMap) -> Map<Seq<char>, QueryV>;

impl QueryMap {
    /// Relies on hashbrown::HashMap::new: the map starts empty.
    #[verifier::external_body]
    pub fn new() -> (r: QueryMap)
        ensures
            (query_map_contents(r) == Map::<Seq<char>, QueryV>::empty()),
    {
        QueryMap { inner: hashbrown::HashMap::new() }
    }

    /// Relies on hashbrown::HashMap::insert: the key maps to the query
    /// afterwards, in place of what it mapped to before.
    #[verifier::external_body]
    pub fn insert(&mut self, k: String, v: Query)
        ensures
            query_map_contents(*final(self)) == query_map_contents(*old(self)).insert(k@, v@),
    {
        self.inner.insert(k, v);
    }

    /// Relies on hashbrown::HashMap::get: the query the key maps to.
    #[verifier::external_body]
    pub fn get(&self, k: &str) -> (r: Option<&Query>)
        ensures
            query_map_contents(*self).contains_key(k@) <==> r is Some,
            r is Some ==> r->0@ == query_map_contents(*self)[k@],
    {
        self.inner.get(k)
    }

    /// Relies on hashbrown::HashMap::keys: each key once, in no set order.
    #[verifier::external_body]
    pub fn keys(&self) -> (r: Vec<String>)
        ensures
            lists_keys(r@, query_map_contents(*self)),
    {
        self.inner.keys().cloned().collect()
    }
}

} // verus!
