//! Validation of one model: no field name twice, every type known.
use vstd::prelude::*;
use crate::db::context::Context;
use crate::db::model::{registry_contents, Model, ModelField, ModelFieldV, ModelV};
use crate::db::types::{BuiltinType, TypeStore};
use crate::db::validate::error::{ValidationError, ValidationErrorV};
use crate::maps::{name_set_contents, NameSet};
use crate::qql::ast;

verus! {

/// The validated form of a field whose type `types` knows.
pub open spec fn validated_field(f: ast::ModelFieldV, types: Map<Seq<char>, BuiltinType>) -> ModelFieldV {
    ModelFieldV {
        name: f.name,
        repr: types[f.type_.name.value],
        optional: f.type_.optional,
        arg: f.type_.arg,
    }
}

/// The validated form of a model whose fields' types `types` knows.
pub open spec fn validated_model(m: ast::ModelV, types: Map<Seq<char>, BuiltinType>) -> ModelV {
    ModelV { name: m.name, fields: m.fields.map_values(|f: ast::ModelFieldV| validated_field(f, types)) }
}

/// The first error among the fields from `i` on, where `seen` holds the
/// names of the fields before `i`.
pub open spec fn model_error_from(
    m: ast::ModelV,
    types: Map<Seq<char>, BuiltinType>,
    i: int,
    seen: Set<Seq<char>>,
) -> Option<ValidationErrorV>
    decreases m.fields.len() - i,
{
    if i < 0 || i >= m.fields.len() {
        None
    } else {
        let f = m.fields[i];
        if seen.contains(f.name.value) {
            Some(ValidationErrorV::DuplicateField { model: m.name, field: f.name })
        } else if !types.contains_key(f.type_.name.value) {
            Some(ValidationErrorV::UnknownFieldType { model: m.name, field: f.name, field_type: f.type_.name })
        } else {
            model_error_from(m, types, i + 1, seen.insert(f.name.value))
        }
    }
}

/// The first error of the model, walking its fields in order: a name seen
/// before, or a type that `types` does not know.
pub open spec fn model_error(m: ast::ModelV, types: Map<Seq<char>, BuiltinType>) -> Option<ValidationErrorV> {
    model_error_from(m, types, 0, Set::empty())
}

/// Validates `model` and, where it is valid, records its validated form in
/// the registry under its name, in place of any model of that name.
pub fn validate(context: &mut Context, model: &ast::Model) -> (r: Result<(), ValidationError>)
    ensures
        final(context).type_store.types() == old(context).type_store.types(),
        match model_error(model@, old(context).type_store.types()) {
            Some(e) => r is Err && r->Err_0@ == e && registry_contents(final(context).models)
                == registry_contents(old(context).models),
            None => r is Ok && registry_contents(final(context).models) == registry_contents(
                old(context).models,
            ).insert(model.name.value@, validated_model(model@, old(context).type_store.types())),
        },
{
    let ghost types = context.type_store.types();
    let ghost mv = model@;
    let mut fields: Vec<ModelField> = Vec::new();
    let mut field_names = NameSet::new();
    let ghost mut seen: Set<Seq<char>> = Set::empty();
    let mut i: usize = 0;
    while i < model.fields.len()
        invariant
            i <= model.fields@.len(),
            mv == model@,
            types == context.type_store.types(),
            name_set_contents(field_names) == seen,
            model_error_from(mv, types, i as int, seen) == model_error(mv, types),
            fields@.map_values(|f: ModelField| f@) == mv.fields.subrange(0, i as int).map_values(
                |f: ast::ModelFieldV| validated_field(f, types),
            ),
        decreases model.fields@.len() - i,
    {
        let field = &model.fields[i];
        assert(mv.fields[i as int] == field@);
        if field_names.contains(field.name.as_str()) {
            return Err(
                ValidationError::DuplicateField { model: model.name.copy(), field: field.name.copy() },
            );
        }
        field_names.insert(field.name.value.clone());
        proof {
            seen = seen.insert(field.name.value@);
        }
        let ghost prev = fields@.map_values(|f: ModelField| f@);
        let validated = match validate_field(&context.type_store, model, field) {
            Ok(v) => v,
            Err(e) => return Err(e),
        };
        fields.push(validated);
        proof {
            assert(fields@.map_values(|f: ModelField| f@) =~= prev.push(validated@));
            assert(mv.fields.subrange(0, i + 1).map_values(|f: ast::ModelFieldV| validated_field(f, types))
                =~= mv.fields.subrange(0, i as int).map_values(
                |f: ast::ModelFieldV| validated_field(f, types),
            ).push(validated_field(mv.fields[i as int], types)));
        }
        i = i + 1;
    }
    proof {
        assert(mv.fields.subrange(0, i as int) =~= mv.fields);
    }
    let new_model = Model { name: model.name.copy(), fields };
    assert(new_model@ == validated_model(mv, types));
    context.models.insert(model.name.value.clone(), new_model);
    Ok(())
}

/// The validated form of one field, or the error of a type that the store
/// does not know.
pub fn validate_field(type_store: &TypeStore, model: &ast::Model, field: &ast::ModelField) -> (r: Result<
    ModelField,
    ValidationError,
>)
    ensures
        type_store.types().contains_key(field.type_.name.value@) ==> r is Ok && r->Ok_0@
            == validated_field(field@, type_store.types()),
        !type_store.types().contains_key(field.type_.name.value@) ==> r is Err && r->Err_0@
            == (ValidationErrorV::UnknownFieldType {
            model: model.name@,
            field: field.name@,
            field_type: field.type_.name@,
        }),
{
    match type_store.get(field.type_.name.as_str()) {
        Some(repr) => Ok(
            ModelField {
                name: field.name.copy(),
                repr,
                optional: field.type_.optional,
                arg: field.type_.arg,
            },
        ),
        None => Err(
            ValidationError::UnknownFieldType {
                model: model.name.copy(),
                field: field.name.copy(),
                field_type: field.type_.name.copy(),
            },
        ),
    }
}

} // verus!
