use qql::config::ast::Value;
use qql::config::error::{EvaluationError, FromConfigError};
use qql::config::eval::{Builtin, Context, EnvValue, EnvVar, Environment};
use qql::config::parse::{Config, ConfigParser};

fn env(vars: &[(&str, &str)]) -> Environment {
    Environment {
        vars: vars
            .iter()
            .map(|(k, v)| EnvVar { key: k.to_string(), value: EnvValue::Text(v.to_string()) })
            .collect(),
    }
}

#[test]
fn string_escapes() {
    let mut p = ConfigParser::new(r#""a\nbA""#);
    assert_eq!(p.parse_string().unwrap(), Some("a\nbA".to_string()));
    let mut p = ConfigParser::new(r#"'it\'s \"q\" \\ \t\r'"#);
    assert_eq!(p.parse_string().unwrap(), Some("it's \"q\" \\ \t\r".to_string()));
}

#[test]
fn short_unicode_escape_is_an_error() {
    let mut p = ConfigParser::new(r#""\u12""#);
    let err = p.parse_string().unwrap_err();
    assert_eq!(err.message, "Expected 4 hex-digits after \\u");
    assert_eq!(err.location.index, 1);
    assert_eq!(err.length, 2);
    assert_eq!(p.inner.cursor, 0);
}

#[test]
fn locations_count_bytes() {
    let mut p = ConfigParser::new("\"\u{e9}\u{4e2d}\\q\"");
    let err = p.parse_string().unwrap_err();
    assert_eq!(err.message, "invalid escape character, expected ");
    assert_eq!(err.location.index, 6);
    assert_eq!(err.length, 2);
    assert_eq!(p.inner.cursor, 0);
    let err = Config::from_source("k \u{e9}").err().unwrap();
    assert_eq!(err.location.index, 1);
    let mut p = ConfigParser::new(" \u{e9}x");
    assert!(p.parse_ident().is_none());
    let mut q = qql::qql::parse::QQLParser::new("\u{4e2d} abc");
    assert!(q.parse_ident().is_none());
    q.inner.cursor = 1;
    let id = q.parse_ident().unwrap();
    assert_eq!(id.location.index, 4);
    assert_eq!(id.length, 3);
}

#[test]
fn bad_unicode_escapes() {
    let mut p = ConfigParser::new(r#""\u12zz""#);
    let err = p.parse_string().unwrap_err();
    assert_eq!(err.message, "Expected 4 hex-digits after \\u, instead found \"12zz\"");
    assert_eq!(err.length, 6);
    let mut p = ConfigParser::new(r#""\uD800""#);
    let err = p.parse_string().unwrap_err();
    assert_eq!(err.message, "Invalid unicode escape, D800 is not a valid character");
    let mut p = ConfigParser::new(r#""é中""#);
    assert_eq!(p.parse_string().unwrap(), Some("\u{e9}\u{4e2d}".to_string()));
}

#[test]
fn other_string_errors() {
    let mut p = ConfigParser::new(r#""abc"#);
    assert_eq!(p.parse_string().unwrap_err().message, "expected '\"'");
    let mut p = ConfigParser::new(r#""\q""#);
    assert_eq!(p.parse_string().unwrap_err().message, "invalid escape character, expected ");
    let mut p = ConfigParser::new("\"ab\\");
    assert_eq!(
        p.parse_string().unwrap_err().message,
        "unterminated string, expected escape character after '\\'"
    );
    let mut p = ConfigParser::new("  x");
    assert_eq!(p.parse_string().unwrap(), None);
}

#[test]
fn integers() {
    let mut p = ConfigParser::new(" 5_432");
    assert_eq!(p.parse_int().unwrap(), Some(5432));
    let mut p = ConfigParser::new("9223372036854775807");
    assert_eq!(p.parse_int().unwrap(), Some(i64::MAX));
    let mut p = ConfigParser::new("9223372036854775808");
    assert_eq!(
        p.parse_int().unwrap_err().message,
        "unable to parse number: number too large to fit in target type"
    );
}

#[test]
fn paths() {
    let mut p = ConfigParser::new("./db/schema files/x.qql rest");
    assert_eq!(p.parse_path(), Some("./db/schema files/x.qql rest".to_string()));
    let mut p = ConfigParser::new("  ../up/");
    assert_eq!(p.parse_path(), Some("../up/".to_string()));
    let mut p = ConfigParser::new("~/home");
    assert_eq!(p.parse_path(), Some("~/home".to_string()));
    let mut p = ConfigParser::new("/abs/dir\nnext");
    assert_eq!(p.parse_path(), Some("/abs/dir".to_string()));
    let mut p = ConfigParser::new("rel/dir");
    assert_eq!(p.parse_path(), None);
}

#[test]
fn config_groups_and_values() {
    let src = "name \"demo\"\ndatabase {\n  port 5432\n  path ./db\n  host Env(\"HOST\", \"localhost\")\n}\n";
    let config = Config::from_source(src).unwrap();
    let ctx = Context::new();
    let e = env(&[]);
    assert_eq!(config.inner.get_string("name", &ctx, &e).unwrap(), "demo");
    let db = config.inner.get_group("database").unwrap();
    assert_eq!(db.get_int("port", &ctx, &e).unwrap(), 5432);
    assert_eq!(db.get_path("path", &ctx, &e).unwrap(), "./db");
    assert_eq!(db.get_string("host", &ctx, &e).unwrap(), "localhost");
    assert!(matches!(db.get_raw("host"), Some(Value::Function(_))));
    assert!(db.get_raw("missing").is_none());
}

#[test]
fn later_entry_replaces_earlier() {
    let config = Config::from_source("a 1 a 2").unwrap();
    let ctx = Context::new();
    assert_eq!(config.inner.get_int("a", &ctx, &env(&[])).unwrap(), 2);
}

#[test]
fn config_parse_errors() {
    let err = Config::from_source("a").err().unwrap();
    assert_eq!(err.message, "Expected value: group, string, integer, function, or path");
    let err = Config::from_source("a b").err().unwrap();
    assert_eq!(err.message, "expected '('");
    assert_eq!(err.location.index, 3);
    let err = Config::from_source("a {").err().unwrap();
    assert_eq!(err.message, "expected '}'");
    let err = Config::from_source("a ?").err().unwrap();
    assert_eq!(err.message, "Expected value: group, string, integer, function, or path");
    let err = Config::from_source("}").err().unwrap();
    assert_eq!(err.message, "Expected field name");
}

#[test]
fn env_reads_variable() {
    let config = Config::from_source("k Env(\"FOO\")").unwrap();
    let ctx = Context::new();
    assert_eq!(config.inner.get_string("k", &ctx, &env(&[("FOO", "bar")])).unwrap(), "bar");
    match config.inner.eval("k", &ctx, &env(&[("FOO", "bar")])).unwrap().value() {
        Value::String(s) => assert_eq!(s, "bar"),
        other => panic!("unexpected {:?}", other),
    }
}

#[test]
fn env_default_when_unset() {
    let config = Config::from_source("k Env(\"FOO\", \"default\")").unwrap();
    let ctx = Context::new();
    assert_eq!(config.inner.get_string("k", &ctx, &env(&[])).unwrap(), "default");
    assert_eq!(config.inner.get_string("k", &ctx, &env(&[("FOO", "set")])).unwrap(), "set");
}

#[test]
fn env_unset_without_default_fails() {
    let config = Config::from_source("k Env(\"FOO\")").unwrap();
    let ctx = Context::new();
    match config.inner.get_string("k", &ctx, &env(&[("BAR", "x")])) {
        Err(EvaluationError::EvaluationError { function, message }) => {
            assert_eq!(function, "Env(key, [default-value])");
            assert_eq!(message, "environment variable not found");
        }
        other => panic!("unexpected {:?}", other),
    }
}

#[test]
fn env_invalid_value_fails_even_with_default() {
    let config = Config::from_source("k Env(\"FOO\", \"d\")").unwrap();
    let ctx = Context::new();
    let e = Environment {
        vars: vec![EnvVar { key: "FOO".to_string(), value: EnvValue::Invalid("not unicode".to_string()) }],
    };
    match config.inner.get_string("k", &ctx, &e) {
        Err(EvaluationError::EvaluationError { message, .. }) => assert_eq!(message, "not unicode"),
        other => panic!("unexpected {:?}", other),
    }
}

#[test]
fn env_argument_errors() {
    let ctx = Context::new();
    let config = Config::from_source("a Env(\"A\", \"B\", \"C\") b Env(5) c Env(Env(\"K\"), 1)").unwrap();
    match config.inner.eval("a", &ctx, &env(&[])) {
        Err(EvaluationError::ArgumentIssue { issue, .. }) => {
            assert_eq!(issue, "Expected 1 or 2 arguments, instead found 3 arguments")
        }
        _ => panic!("expected an argument issue"),
    }
    match config.inner.eval("b", &ctx, &env(&[])) {
        Err(EvaluationError::ArgumentTypeIssue { argument, type_, .. }) => {
            assert_eq!(argument, "key");
            assert_eq!(type_, "string");
        }
        _ => panic!("expected an argument type issue"),
    }
    assert_eq!(config.inner.get_int("c", &ctx, &env(&[("K", "V")])).unwrap(), 1);
    assert!(config.inner.get_int("c", &ctx, &env(&[])).is_err());
    assert_eq!(config.inner.get_string("c", &ctx, &env(&[("K", "V"), ("V", "w")])).unwrap(), "w");
}

#[test]
fn unknown_function_and_wrong_types() {
    let ctx = Context::new();
    let config = Config::from_source("a Nope(1) s \"x\" g { }").unwrap();
    match config.inner.eval("a", &ctx, &env(&[])) {
        Err(EvaluationError::UnknownFunction { name }) => assert_eq!(name.value, "Nope"),
        _ => panic!("expected an unknown function"),
    }
    match config.inner.get_int("s", &ctx, &env(&[])) {
        Err(EvaluationError::ExpectedValue { key, type_ }) => {
            assert_eq!(key, "s");
            assert_eq!(type_, "int");
        }
        other => panic!("unexpected {:?}", other),
    }
    match config.inner.get_group("s") {
        Err(EvaluationError::ExpectedValue { type_, .. }) => assert_eq!(type_, "group"),
        other => panic!("unexpected {:?}", other),
    }
    match config.inner.eval("zz", &ctx, &env(&[])) {
        Err(EvaluationError::ExpectedValue { key, type_ }) => {
            assert_eq!(key, "zz");
            assert_eq!(type_, "value");
        }
        _ => panic!("expected a missing value"),
    }
    assert!(config.inner.get_group("g").is_ok());
    match config.inner.get_path("s", &ctx, &env(&[])) {
        Err(EvaluationError::ExpectedValue { type_, .. }) => assert_eq!(type_, "path"),
        other => panic!("unexpected {:?}", other),
    }
    match config.inner.get_string("g", &ctx, &env(&[])) {
        Err(EvaluationError::ExpectedValue { type_, .. }) => assert_eq!(type_, "string"),
        other => panic!("unexpected {:?}", other),
    }
}

#[test]
fn function_registry() {
    let mut ctx = Context::empty();
    let config = Config::from_source("a Env(\"X\", 1)").unwrap();
    assert!(matches!(config.inner.eval("a", &ctx, &env(&[])), Err(EvaluationError::UnknownFunction { .. })));
    assert!(ctx.add_function("Env".to_string(), Builtin::Env).is_ok());
    assert_eq!(
        ctx.add_function("Env".to_string(), Builtin::Env).unwrap_err(),
        "Function \"Env\" already exists!"
    );
    assert_eq!(config.inner.get_int("a", &ctx, &env(&[])).unwrap(), 1);
}

#[test]
fn from_config_error_constructors() {
    assert!(matches!(FromConfigError::expected_item("db.path"), FromConfigError::ExpectedItem { path } if path == "db.path"));
    let e: FromConfigError = EvaluationError::ExpectedValue { key: "k".to_string(), type_: "t".to_string() }.into();
    assert!(matches!(e, FromConfigError::EvaluationError(_)));
}
