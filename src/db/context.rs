//! What validation reads and fills: the type store and the model registry.
use vstd::prelude::*;
use crate::db::model::ModelRegistry;
use crate::db::types::TypeStore;

verus! {

pub struct Context {
    pub type_store: TypeStore,
    pub models: ModelRegistry,
}

impl Context {
    /// The built-in types and no models yet.
    pub fn new() -> (r: Context)
        ensures
            r.type_store.types() == crate::db::types::builtin_types(),
            (crate::db::model::registry_contents(r.models) == Map::<Seq<char>, crate::db::model::ModelV>::empty()),
    {
        Context { type_store: TypeStore::default(), models: ModelRegistry::new() }
    }
}

} // verus!
