use qql::config::eval::{Context as FunctionContext, EnvValue, EnvVar, Environment};
use qql::config::error::{EvaluationError, FromConfigError};
use qql::config::parse::Config;
use qql::db::backend::{create_table_statement, drop_table_statement, migrate_down, migrate_up, type_definition};
use qql::db::context::Context;
use qql::db::settings::DatabaseSettings;
use qql::db::types::{DataType, DateTimeType, EncryptedType, StringType, Type, UuidType};
use qql::db::validate::validate_file;
use qql::qql::parse::QQLFile;

fn registry(src: &str) -> Context {
    let mut ctx = Context::new();
    let file = QQLFile::from_source(src).unwrap();
    validate_file(&mut ctx, &file).unwrap();
    ctx
}

#[test]
fn column_types() {
    let ctx = registry("model U { id: UUID, name: String(120), note: String?, at: DateTime?, secret: Encrypted(7)? }");
    let u = ctx.models.get("U").unwrap();
    assert_eq!(type_definition(&u.fields[0]), "UUID DEFAULT gen_random_uuid() NOT NULL");
    assert_eq!(type_definition(&u.fields[1]), "varchar(120) NOT NULL");
    assert_eq!(type_definition(&u.fields[2]), "varchar");
    assert_eq!(type_definition(&u.fields[3]), "timestamp");
    assert_eq!(type_definition(&u.fields[4]), "varchar(7)");
}

#[test]
fn create_and_drop_statements() {
    let ctx = registry("model User { id: UUID, name: String(40) }");
    let u = ctx.models.get("User").unwrap();
    assert_eq!(
        create_table_statement(u),
        "create table if not exists \"User\" (\n  id UUID DEFAULT gen_random_uuid() NOT NULL,\n  name varchar(40) NOT NULL\n)"
    );
    assert_eq!(drop_table_statement(u), "drop table if exists \"User\";\n");
    let e = registry("model E { }");
    assert_eq!(create_table_statement(e.models.get("E").unwrap()), "create table if not exists \"E\" (\n)");
}

#[test]
fn one_statement_per_model() {
    let ctx = registry("model A { x: UUID } model B { y: DateTime }");
    let mut up = migrate_up(&ctx.models);
    up.sort();
    assert_eq!(up.len(), 2);
    assert!(up[0].starts_with("create table if not exists \"A\""));
    assert!(up[1].starts_with("create table if not exists \"B\""));
    let mut down = migrate_down(&ctx.models);
    down.sort();
    assert_eq!(down, vec!["drop table if exists \"A\";\n".to_string(), "drop table if exists \"B\";\n".to_string()]);
}

#[test]
fn unit_types() {
    assert_eq!(UuidType.data_type(), DataType::UUID);
    assert_eq!(StringType.data_type(), DataType::String);
    assert_eq!(DateTimeType.data_type(), DataType::DateTime);
    assert_eq!(EncryptedType.data_type(), DataType::String);
}

fn settings(src: &str, vars: Vec<EnvVar>) -> Result<DatabaseSettings, FromConfigError> {
    let config = Config::from_source(src).unwrap();
    DatabaseSettings::from_config(&config.inner, &FunctionContext::new(), &Environment { vars })
}

#[test]
fn database_settings() {
    let src = "database { path ./db
 type \"postgres\" host \"h\" username \"u\" password Env(\"PW\") port 5432 database \"d\" }";
    let vars = vec![EnvVar { key: "PW".to_string(), value: EnvValue::Text("secret".to_string()) }];
    let s = settings(src, vars).unwrap();
    assert_eq!(s.path, "./db");
    assert_eq!(s.postgres.host, "h");
    assert_eq!(s.postgres.username, "u");
    assert_eq!(s.postgres.password, "secret");
    assert_eq!(s.postgres.port, 5432);
    assert_eq!(s.postgres.database, "d");
}

#[test]
fn database_settings_errors() {
    match settings("database { path ./db
 type \"mysql\" }", vec![]) {
        Err(FromConfigError::Custom(m)) => assert_eq!(m, "invalid database type: \"mysql\""),
        other => panic!("unexpected {:?}", other),
    }
    let src = "database { path ./db
 type \"postgres\" host \"h\" username \"u\" password \"p\" port 70000 database \"d\" }";
    match settings(src, vec![]) {
        Err(FromConfigError::EvaluationError(EvaluationError::EvaluationError { function, message })) => {
            assert_eq!(function, "<core>");
            assert_eq!(message, "unable to convert i64 into u16: out of range integral type conversion attempted");
        }
        other => panic!("unexpected {:?}", other),
    }
    match settings("web { }", vec![]) {
        Err(FromConfigError::EvaluationError(EvaluationError::ExpectedValue { key, type_ })) => {
            assert_eq!(key, "database");
            assert_eq!(type_, "group");
        }
        other => panic!("unexpected {:?}", other),
    }
}
