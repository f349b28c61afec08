//! Validated models: each field with its resolved type.
use vstd::prelude::*;
use crate::db::types::BuiltinType;
use crate::parser::{str_eq, Ident, IdentV};

verus! {

#[derive(Debug)]
pub struct Model {
    pub name: Ident,
    pub fields: Vec<ModelField>,
}

#[derive(Debug)]
pub struct ModelField {
    pub name: Ident,
    pub repr: BuiltinType,
    pub optional: bool,
    pub arg: Option<u64>,
}

pub ghost struct ModelFieldV {
    pub name: IdentV,
    pub repr: BuiltinType,
    pub optional: bool,
    pub arg: Option<u64>,
}

pub ghost struct ModelV {
    pub name: IdentV,
    pub fields: Seq<ModelFieldV>,
}

impl View for ModelField {
    type V = ModelFieldV;

    open spec fn view(&self) -> ModelFieldV {
        ModelFieldV { name: self.name@, repr: self.repr, optional: self.optional, arg: self.arg }
    }
}

impl View for Model {
    type V = ModelV;

    open spec fn view(&self) -> ModelV {
        ModelV { name: self.name@, fields: self.fields@.map_values(|f: ModelField| f@) }
    }
}

/// Whether the model has a field of the name `field`.
pub open spec fn spec_has_field(m: ModelV, field: Seq<char>) -> bool {
    exists|i: int| 0 <= i < m.fields.len() && (#[trigger] m.fields[i]).name.value == field
}

impl Model {
    pub fn has_field(&self, field: &str) -> (r: bool)
        ensures
            r == spec_has_field(self@, field@),
    {
        let mut i: usize = 0;
        while i < self.fields.len()
            invariant
                i <= self.fields@.len(),
                forall|j: int| 0 <= j < i ==> (#[trigger] self@.fields[j]).name.value != field@,
            decreases self.fields@.len() - i,
        {
            if str_eq(self.fields[i].name.as_str(), field) {
                assert(self@.fields[i as int].name.value == field@);
                return true;
            }
            i = i + 1;
        }
        false
    }
}

/// Validated models, keyed by their names.
#[verifier::external_body]
pub struct ModelRegistry {
    inner: hashbrown::HashMap<String, Model>,
}

pub uninterp spec fn registry_contents(m: ModelRegistry) -> Map<Seq<char>, ModelV>;

impl ModelRegistry {
    /// Relies on hashbrown::HashMap::new: the registry starts empty.
    #[verifier::external_body]
    pub fn new() -> (r: ModelRegistry)
        ensures
            (registry_contents(r) == Map::<Seq<char>, ModelV>::empty()),
    {
        ModelRegistry { inner: hashbrown::HashMap::new() }
    }

    /// Relies on hashbrown::HashMap::insert: the name maps to the model
    /// afterwards, in place of what it mapped to before.
    #[verifier::external_body]
    pub fn insert(&mut self, k: String, v: Model)
        ensures
            registry_contents(*final(self)) == registry_contents(*old(self)).insert(k@, v@),
    {
        self.inner.insert(k, v);
    }

    /// Relies on hashbrown::HashMap::keys: each name once, in no set order.
    #[verifier::external_body]
    pub fn keys(&self) -> (r: Vec<String>)
        ensures
            crate::maps::lists_keys(r@, registry_contents(*self)),
    {
        self.inner.keys().cloned().collect()
    }

    /// Relies on hashbrown::HashMap::get: the model the name maps to.
    #[verifier::external_body]
    pub fn get(&self, k: &str) -> (r: Option<&Model>)
        ensures
            registry_contents(*self).contains_key(k@) <==> r is Some,
            r is Some ==> r->0@ == registry_contents(*self)[k@],
    {
        self.inner.get(k)
    }
}

} // verus!
