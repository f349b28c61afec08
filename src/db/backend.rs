//! The statements that create and drop the table of a validated model in a
//! relational database.
use vstd::prelude::*;
use crate::config::eval::{decimal, decimal_string};
use crate::db::model::{registry_contents, Model, ModelField, ModelFieldV, ModelRegistry, ModelV};
use crate::db::types::{data_type_of, DataType};

verus! {

/// The column type of a field: its data type, a length bound where a string
/// has one, and `NOT NULL` unless the field is optional.
pub open spec fn spec_type_definition(f: ModelFieldV) -> Seq<char> {
    let base = match data_type_of(f.repr) {
        DataType::UUID => "UUID DEFAULT gen_random_uuid()"@,
        DataType::String => match f.arg {
            Some(a) => "varchar("@ + decimal(a as nat) + ")"@,
            None => "varchar"@,
        },
        DataType::DateTime => "timestamp"@,
    };
    if f.optional {
        base
    } else {
        base + " NOT NULL"@
    }
}

/// The column lines of the first `n` fields.
pub open spec fn column_lines(fs: Seq<ModelFieldV>, n: nat) -> Seq<char>
    decreases n,
{
    if n == 0 || n > fs.len() {
        seq![]
    } else {
        column_lines(fs, (n - 1) as nat) + (if n > 1 { ","@ } else { seq![] }) + "\n  "@ + fs[n
            - 1].name.value + " "@ + spec_type_definition(fs[n - 1])
    }
}

pub open spec fn spec_create_table(m: ModelV) -> Seq<char> {
    "create table if not exists \""@ + m.name.value + "\" ("@ + column_lines(m.fields, m.fields.len())
        + "\n)"@
}

pub open spec fn spec_drop_table(m: ModelV) -> Seq<char> {
    "drop table if exists \""@ + m.name.value + "\";\n"@
}

pub fn type_definition(field: &ModelField) -> (r: String)
    ensures
        r@ == spec_type_definition(field@),
{
    let mut out = match field.repr.data_type() {
        DataType::UUID => String::from_str("UUID DEFAULT gen_random_uuid()"),
        DataType::String => match field.arg {
            Some(a) => String::from_str("varchar(").concat(decimal_string(a).as_str()).concat(")"),
            None => String::from_str("varchar"),
        },
        DataType::DateTime => String::from_str("timestamp"),
    };
    if !field.optional {
        out.append(" NOT NULL");
    }
    out
}

/// The statement that creates the table of `model`, one column per field.
pub fn create_table_statement(model: &Model) -> (r: String)
    ensures
        r@ == spec_create_table(model@),
{
    let ghost fs = model@.fields;
    let mut out = String::from_str("create table if not exists \"").concat(model.name.as_str()).concat("\" (");
    let ghost head = out@;
    let mut i: usize = 0;
    while i < model.fields.len()
        invariant
            i <= model.fields@.len(),
            fs == model@.fields,
            out@ == head + column_lines(fs, i as nat),
        decreases model.fields@.len() - i,
    {
        let field = &model.fields[i];
        assert(fs[i as int] == field@);
        if i > 0 {
            out.append(",");
        }
        out.append("\n  ");
        out.append(field.name.as_str());
        out.append(" ");
        out.append(type_definition(field).as_str());
        proof {
            assert(out@ =~= head + column_lines(fs, (i + 1) as nat));
        }
        i = i + 1;
    }
    out.append("\n)");
    assert(out@ =~= spec_create_table(model@));
    out
}

/// The statement that drops the table of `model`.
pub fn drop_table_statement(model: &Model) -> (r: String)
    ensures
        r@ == spec_drop_table(model@),
{
    String::from_str("drop table if exists \"").concat(model.name.as_str()).concat("\";\n")
}

/// Whether `r` holds, for each model of `models` once, in some order, the
/// statement that `stmt` gives for it.
pub open spec fn one_per_model(
    r: Seq<String>,
    models: Map<Seq<char>, ModelV>,
    stmt: spec_fn(ModelV) -> Seq<char>,
) -> bool {
    exists|names: Seq<Seq<char>>|
        {
            &&& names.no_duplicates()
            &&& names.to_set() == models.dom()
            &&& names.len() == r.len()
            &&& forall|i: int| 0 <= i < r.len() ==> (#[trigger] r[i])@ == stmt(models[names[i]])
        }
}

/// The statements that create the tables of all models of the registry.
pub fn migrate_up(models: &ModelRegistry) -> (r: Vec<String>)
    ensures
        one_per_model(r@, registry_contents(*models), |m: ModelV| spec_create_table(m)),
{
    statements(models, true)
}

/// The statements that drop the tables of all models of the registry.
pub fn migrate_down(models: &ModelRegistry) -> (r: Vec<String>)
    ensures
        one_per_model(r@, registry_contents(*models), |m: ModelV| spec_drop_table(m)),
{
    statements(models, false)
}

fn statements(models: &ModelRegistry, create: bool) -> (r: Vec<String>)
    ensures
        create ==> one_per_model(r@, registry_contents(*models), |m: ModelV| spec_create_table(m)),
        !create ==> one_per_model(r@, registry_contents(*models), |m: ModelV| spec_drop_table(m)),
{
    let ghost ms = registry_contents(*models);
    let ghost stmt = if create {
        |m: ModelV| spec_create_table(m)
    } else {
        |m: ModelV| spec_drop_table(m)
    };
    let keys = models.keys();
    let ghost kv = keys@.map_values(|k: String| k@);
    let mut out: Vec<String> = Vec::new();
    let mut i: usize = 0;
    while i < keys.len()
        invariant
            i <= keys@.len(),
            out@.len() == i,
            kv == keys@.map_values(|k: String| k@),
            kv.to_set() == ms.dom(),
            ms == registry_contents(*models),
            stmt == (if create {
                |m: ModelV| spec_create_table(m)
            } else {
                |m: ModelV| spec_drop_table(m)
            }),
            forall|j: int| 0 <= j < i ==> (#[trigger] out@[j])@ == stmt(ms[kv[j]]),
        decreases keys@.len() - i,
    {
        assert(kv.contains(kv[i as int]));
        let model = models.get(keys[i].as_str()).unwrap();
        let s = if create {
            create_table_statement(model)
        } else {
            drop_table_statement(model)
        };
        out.push(s);
        i = i + 1;
    }
    assert(kv.len() == out@.len());
    out
}

} // verus!
