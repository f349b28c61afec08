use qql::db::context::Context;
use qql::db::types::{BuiltinType, DataType, Type, TypeStore};
use qql::db::validate::error::ValidationError;
use qql::db::validate::validate_file;
use qql::qql::parse::QQLFile;

fn run(src: &str) -> (Context, Result<(), ValidationError>) {
    let mut ctx = Context::new();
    let file = QQLFile::from_source(src).unwrap();
    let r = validate_file(&mut ctx, &file);
    (ctx, r)
}

#[test]
fn duplicate_field() {
    let (_, r) = run("model User { id: UUID, id: String }");
    match r {
        Err(ValidationError::DuplicateField { model, field }) => {
            assert_eq!(model.value, "User");
            assert_eq!(field.value, "id");
        }
        other => panic!("unexpected {:?}", other),
    }
}

#[test]
fn unknown_field_type() {
    let (_, r) = run("model User { id: Bogus }");
    match r {
        Err(ValidationError::UnknownFieldType { model, field, field_type }) => {
            assert_eq!(model.value, "User");
            assert_eq!(field.value, "id");
            assert_eq!(field_type.value, "Bogus");
        }
        other => panic!("unexpected {:?}", other),
    }
}

#[test]
fn ambiguous_field_with_two_selectors() {
    let (_, r) = run(
        "model Post { id: UUID } model User { id: UUID } \
         query Q() { select all Post(id), User(id) where id == 1 }",
    );
    match r {
        Err(ValidationError::AmbiguousQueryField { query, field }) => {
            assert_eq!(query.value, "Q");
            assert_eq!(field.value, "id");
        }
        other => panic!("unexpected {:?}", other),
    }
}

#[test]
fn principal_model_resolves_unqualified_fields() {
    let (_, ok) = run("model User { id: UUID, name: String } query Q() { select one User(id, name) where id == 5 }");
    assert!(ok.is_ok());
    let (_, r) = run("model User { name: String } query Q() { select one User(id, name) where id == 5 }");
    match r {
        Err(ValidationError::QueryUnknownField { query, model, field }) => {
            assert_eq!(query.value, "Q");
            assert_eq!(model.value, "User");
            assert_eq!(field.value, "id");
        }
        other => panic!("unexpected {:?}", other),
    }
}

#[test]
fn unknown_interpolation() {
    let (_, r) = run("model User { id: UUID } query Q(a) { select one User(id) where id == #b }");
    match r {
        Err(ValidationError::UnknownQueryVariable { query, variable }) => {
            assert_eq!(query.value, "Q");
            assert_eq!(variable.value, "b");
        }
        other => panic!("unexpected {:?}", other),
    }
    let (_, ok) = run("model User { id: UUID } query Q(a) { select one User(id) where id == #a }");
    assert!(ok.is_ok());
}

#[test]
fn duplicate_query_argument() {
    let (_, r) = run("query Q(a, b, a) { select one User(id) }");
    match r {
        Err(ValidationError::DuplicateQueryArgument { query, argument }) => {
            assert_eq!(query.value, "Q");
            assert_eq!(argument.value, "a");
            assert_eq!(argument.location.index, 14);
        }
        other => panic!("unexpected {:?}", other),
    }
}

#[test]
fn unknown_model_in_query() {
    let (_, r) = run("query Q() { select one User(id) where Post.id == 1 }");
    match r {
        Err(ValidationError::QueryUnknownModel { query, model, field }) => {
            assert_eq!(query.value, "Q");
            assert_eq!(model.value, "Post");
            assert_eq!(field.value, "id");
        }
        other => panic!("unexpected {:?}", other),
    }
}

#[test]
fn quantifier_expression_is_validated() {
    let (_, r) = run("model User { id: UUID } query Q() { select #n User(id) }");
    assert!(matches!(r, Err(ValidationError::UnknownQueryVariable { .. })));
}

#[test]
fn valid_models_fill_the_registry() {
    let (ctx, r) = run("model User { id: UUID, name: String(20)?, key: Encrypted }");
    assert!(r.is_ok());
    let user = ctx.models.get("User").unwrap();
    assert_eq!(user.fields.len(), 3);
    assert_eq!(user.fields[0].repr, BuiltinType::Uuid);
    assert_eq!(user.fields[1].repr, BuiltinType::String);
    assert_eq!(user.fields[1].arg, Some(20));
    assert!(user.fields[1].optional);
    assert_eq!(user.fields[2].repr, BuiltinType::Encrypted);
    assert_eq!(user.fields[2].repr.data_type(), DataType::String);
    assert!(user.has_field("name"));
    assert!(!user.has_field("nam"));
}

#[test]
fn queries_see_models_of_earlier_files() {
    let mut ctx = Context::new();
    let models = QQLFile::from_source("model User { id: UUID }").unwrap();
    let queries = QQLFile::from_source("query Q() { select one User(id) where User.id == 1 }").unwrap();
    assert!(validate_file(&mut ctx, &models).is_ok());
    assert!(validate_file(&mut ctx, &queries).is_ok());
    let mut fresh = Context::new();
    assert!(matches!(
        validate_file(&mut fresh, &queries),
        Err(ValidationError::QueryUnknownModel { .. })
    ));
}

#[test]
fn type_store_holds_the_builtins() {
    let store = TypeStore::default();
    assert_eq!(store.get("UUID"), Some(BuiltinType::Uuid));
    assert_eq!(store.get("String"), Some(BuiltinType::String));
    assert_eq!(store.get("DateTime"), Some(BuiltinType::DateTime));
    assert_eq!(store.get("Encrypted"), Some(BuiltinType::Encrypted));
    assert_eq!(store.get("uuid"), None);
    assert_eq!(TypeStore::empty().get("UUID"), None);
    assert_eq!(BuiltinType::Encrypted.data_type(), DataType::String);
    assert_eq!(BuiltinType::DateTime.data_type(), DataType::DateTime);
    assert_eq!(BuiltinType::Uuid.data_type(), DataType::UUID);
}
