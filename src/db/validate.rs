//! Validation of QQL files: every model first, then every query.
pub mod error;
pub mod model;
pub mod query;

use vstd::prelude::*;
use crate::db::context::Context;
use crate::db::model::{registry_contents, ModelV};
use crate::db::types::BuiltinType;
use crate::db::validate::error::ValidationError;
use crate::db::validate::model::{model_error, validated_model};
use crate::db::validate::query::query_error;
use crate::maps::{model_map_contents, query_map_contents};
use crate::qql::ast;
use crate::qql::parse::QQLFile;

verus! {

pub open spec fn models_valid(ms: Map<Seq<char>, ast::ModelV>, types: Map<Seq<char>, BuiltinType>) -> bool {
    forall|k: Seq<char>| #[trigger] ms.contains_key(k) ==> model_error(ms[k], types) is None
}

pub open spec fn queries_valid(qs: Map<Seq<char>, ast::QueryV>, models: Map<Seq<char>, ModelV>) -> bool {
    forall|k: Seq<char>| #[trigger] qs.contains_key(k) ==> query_error(qs[k], models) is None
}

/// The registry `models` with the validated forms of `ms` added, each in
/// place of any model of its name.
pub open spec fn registry_after(
    models: Map<Seq<char>, ModelV>,
    ms: Map<Seq<char>, ast::ModelV>,
    types: Map<Seq<char>, BuiltinType>,
) -> Map<Seq<char>, ModelV> {
    models.union_prefer_right(ms.map_values(|m: ast::ModelV| validated_model(m, types)))
}

/// Validates every model of `file` into the registry, then every query of
/// it against the registry so filled. The first error stops validation.
pub fn validate_file(context: &mut Context, file: &QQLFile) -> (r: Result<(), ValidationError>)
    requires
        file.wf(),
    ensures
        final(context).type_store.types() == old(context).type_store.types(),
        ({
            let types = old(context).type_store.types();
            let ms = model_map_contents(file.models);
            let qs = query_map_contents(file.queries);
            let after = registry_after(registry_contents(old(context).models), ms, types);
            &&& r is Ok <==> models_valid(ms, types) && queries_valid(qs, after)
            &&& r is Ok ==> registry_contents(final(context).models) == after
            &&& r matches Err(e) ==> (exists|k: Seq<char>| #[trigger] ms.contains_key(k) && model_error(ms[k], types) == Some(e@))
                || (models_valid(ms, types) && exists|k: Seq<char>| #[trigger] qs.contains_key(k) && query_error(qs[k], after) == Some(e@))
        }),
{
    let ghost types = context.type_store.types();
    let ghost ms = model_map_contents(file.models);
    let ghost qs = query_map_contents(file.queries);
    let ghost reg0 = registry_contents(context.models);
    let ghost vm = ms.map_values(|m: ast::ModelV| validated_model(m, types));
    let keys = file.models.keys();
    let ghost kv = keys@.map_values(|k: String| k@);
    let mut i: usize = 0;
    while i < keys.len()
        invariant
            i <= keys@.len(),
            kv == keys@.map_values(|k: String| k@),
            kv.no_duplicates(),
            kv.to_set() == ms.dom(),
            ms == model_map_contents(file.models),
            file.wf(),
            types == context.type_store.types(),
            types == old(context).type_store.types(),
            reg0 == registry_contents(old(context).models),
            qs == query_map_contents(file.queries),
            vm == ms.map_values(|m: ast::ModelV| validated_model(m, types)),
            registry_contents(context.models) == reg0.union_prefer_right(vm.restrict(kv.subrange(0, i as int).to_set())),
            forall|j: int| 0 <= j < i ==> model_error(ms[#[trigger] kv[j]], types) is None,
        decreases keys@.len() - i,
    {
        let ghost k = kv[i as int];
        assert(kv.contains(k));
        assert(ms.contains_key(k));
        let model = file.models.get(keys[i].as_str()).unwrap();
        match crate::db::validate::model::validate(context, model) {
            Ok(()) => {},
            Err(e) => {
                assert(ms.contains_key(k) && model_error(ms[k], types) == Some(e@));
                return Err(e);
            },
        }
        proof {
            kv.subrange(0, i as int).lemma_push_to_set_commute(k);
            assert(kv.subrange(0, i + 1) =~= kv.subrange(0, i as int).push(k));
            assert(registry_contents(context.models) =~= reg0.union_prefer_right(vm.restrict(kv.subrange(0, i + 1).to_set())));
        }
        i = i + 1;
    }
    proof {
        assert(kv.subrange(0, i as int) =~= kv);
        assert(vm.restrict(ms.dom()) =~= vm);
        assert forall|k: Seq<char>| #[trigger] ms.contains_key(k) implies model_error(ms[k], types) is None by {
            assert(kv.to_set().contains(k));
            let j = kv.index_of(k);
        }
    }
    let ghost after = registry_contents(context.models);
    let qkeys = file.queries.keys();
    let ghost qkv = qkeys@.map_values(|k: String| k@);
    let mut i: usize = 0;
    while i < qkeys.len()
        invariant
            i <= qkeys@.len(),
            qkv == qkeys@.map_values(|k: String| k@),
            qkv.to_set() == qs.dom(),
            qs == query_map_contents(file.queries),
            after == registry_contents(context.models),
            after == registry_after(reg0, ms, types),
            types == context.type_store.types(),
            types == old(context).type_store.types(),
            reg0 == registry_contents(old(context).models),
            ms == model_map_contents(file.models),
            models_valid(ms, types),
            forall|j: int| 0 <= j < i ==> query_error(qs[#[trigger] qkv[j]], after) is None,
        decreases qkeys@.len() - i,
    {
        let ghost k = qkv[i as int];
        assert(qkv.contains(k));
        let query = file.queries.get(qkeys[i].as_str()).unwrap();
        match crate::db::validate::query::validate(context, query) {
            Ok(()) => {},
            Err(e) => {
                assert(qs.contains_key(k) && query_error(qs[k], after) == Some(e@));
                return Err(e);
            },
        }
        i = i + 1;
    }
    proof {
        assert forall|k: Seq<char>| #[trigger] qs.contains_key(k) implies query_error(qs[k], after) is None by {
            assert(qkv.to_set().contains(k));
            let j = qkv.index_of(k);
        }
    }
    Ok(())
}

} // verus!
