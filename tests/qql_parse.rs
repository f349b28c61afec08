use qql::parser::ParseError;
use qql::qql::ast::{Action, BinaryOp, Expr, Quantifier, UnaryOp};
use qql::qql::parse::{QQLFile, QQLParser};

fn expr(src: &str) -> Expr {
    let mut p = QQLParser::new(src);
    p.parse_qql_expression().expect("expression parses")
}

fn is_number(e: &Expr, n: u64) -> bool {
    matches!(e, Expr::Number(v) if *v == n)
}

#[test]
fn precedence_mul_binds_tighter_than_add() {
    let e = expr("1 + 2 * 3");
    match e {
        Expr::Binary(l, BinaryOp::Add, r) => {
            assert!(is_number(&l, 1));
            match *r {
                Expr::Binary(a, BinaryOp::Mul, b) => {
                    assert!(is_number(&a, 2));
                    assert!(is_number(&b, 3));
                }
                other => panic!("expected a product, got {:?}", other),
            }
        }
        other => panic!("expected a sum, got {:?}", other),
    }
}

#[test]
fn binary_operators_fold_to_the_left() {
    let e = expr("1 - 2 - 3");
    match e {
        Expr::Binary(l, BinaryOp::Sub, r) => {
            assert!(is_number(&r, 3));
            assert!(matches!(*l, Expr::Binary(_, BinaryOp::Sub, _)));
        }
        other => panic!("unexpected {:?}", other),
    }
}

#[test]
fn or_is_loosest_then_and_then_comparison() {
    let e = expr("a == 1 and b < 2 or c");
    match e {
        Expr::Binary(l, BinaryOp::Or, r) => {
            assert!(matches!(*r, Expr::Field(None, ref f) if f.value == "c"));
            match *l {
                Expr::Binary(x, BinaryOp::And, y) => {
                    assert!(matches!(*x, Expr::Binary(_, BinaryOp::Eq, _)));
                    assert!(matches!(*y, Expr::Binary(_, BinaryOp::Lt, _)));
                }
                other => panic!("unexpected {:?}", other),
            }
        }
        other => panic!("unexpected {:?}", other),
    }
}

#[test]
fn comparison_operators_of_two_characters() {
    assert!(matches!(expr("a >= 1"), Expr::Binary(_, BinaryOp::Ge, _)));
    assert!(matches!(expr("a <= 1"), Expr::Binary(_, BinaryOp::Le, _)));
    assert!(matches!(expr("a != 1"), Expr::Binary(_, BinaryOp::Ne, _)));
    assert!(matches!(expr("a > 1"), Expr::Binary(_, BinaryOp::Gt, _)));
    assert!(matches!(expr("a % 2"), Expr::Binary(_, BinaryOp::Rem, _)));
    assert!(matches!(expr("a / 2"), Expr::Binary(_, BinaryOp::Div, _)));
}

#[test]
fn primary_forms() {
    match expr("User.id") {
        Expr::Field(Some(m), f) => {
            assert_eq!(m.value, "User");
            assert_eq!(f.value, "id");
        }
        other => panic!("unexpected {:?}", other),
    }
    match expr("#arg") {
        Expr::Interp(i) => assert_eq!(i.value, "arg"),
        other => panic!("unexpected {:?}", other),
    }
    assert!(matches!(expr("1_000"), Expr::Number(1000)));
}

#[test]
fn unary_operators() {
    assert!(matches!(expr("not x"), Expr::Unary(UnaryOp::Not, _)));
    match expr("-5") {
        Expr::Unary(UnaryOp::Negative, e) => assert!(is_number(&e, 5)),
        other => panic!("unexpected {:?}", other),
    }
}

#[test]
fn missing_operand_is_a_hard_error() {
    let mut p = QQLParser::new("1 +");
    let err = p.parse_qql_expression().unwrap_err();
    assert_eq!(err.message, "expected primary expression");
    assert_eq!(err.location.index, 3);
}

#[test]
fn absent_expression_is_soft() {
    let mut p = QQLParser::new("   )");
    assert!(p.try_parse_qql_expression().unwrap().is_none());
    assert_eq!(p.inner.cursor, 0);
    let err = p.parse_qql_expression().unwrap_err();
    assert_eq!(err.message, "expected qql expression");
}

#[test]
fn number_too_large() {
    let mut p = QQLParser::new("18446744073709551616");
    let err = p.parse_number().unwrap_err();
    assert_eq!(err.message, "unable to parse number: number too large to fit in target type");
    assert_eq!(err.length, 20);
    let mut q = QQLParser::new("18446744073709551615");
    assert_eq!(q.parse_number().unwrap(), Some(u64::MAX));
}

#[test]
fn keywords() {
    let mut p = QQLParser::new("models");
    assert!(!p.take_keyword("model"));
    assert_eq!(p.inner.cursor, 0);
    let err = p.expect_keyword("model").unwrap_err();
    assert_eq!(err.message, "expected keyword \"model\"");
    assert_eq!(err.length, 6);
    let mut q = QQLParser::new("  WhErE x");
    assert!(q.take_keyword_insensitive("where"));
    assert_eq!(q.inner.cursor, 7);
}

#[test]
fn parses_model_with_type_arguments() {
    let file = QQLFile::from_source("model User { id: UUID, name: String(40)?, born: DateTime }").unwrap();
    let user = file.models.get("User").unwrap();
    assert_eq!(user.name.value, "User");
    assert_eq!(user.fields.len(), 3);
    assert_eq!(user.fields[1].name.value, "name");
    assert_eq!(user.fields[1].type_.name.value, "String");
    assert_eq!(user.fields[1].type_.arg, Some(40));
    assert!(user.fields[1].type_.optional);
    assert!(!user.fields[0].type_.optional);
    assert_eq!(user.fields[0].type_.arg, None);
}

#[test]
fn parses_query() {
    let src = "query GetUser(id, name) { SELECT one User(id, name), Post(title) where User.id == #id }";
    let file = QQLFile::from_source(src).unwrap();
    let q = file.queries.get("GetUser").unwrap();
    assert_eq!(q.args.len(), 2);
    assert_eq!(q.statement.action, Action::Select);
    assert!(matches!(q.statement.quantifier, Quantifier::One));
    assert_eq!(q.statement.selectors.len(), 2);
    assert_eq!(q.statement.selectors[1].name.value, "Post");
    assert_eq!(q.statement.selectors[1].fields[0].value, "title");
    let w = q.statement.where_clause.as_ref().unwrap();
    assert!(matches!(w.expr, Expr::Binary(_, BinaryOp::Eq, _)));
}

#[test]
fn quantifier_forms() {
    let file = QQLFile::from_source("query A() { delete all M() } query B() { update 10 M() } query C() { select #n M() }").unwrap();
    let a = file.queries.get("A").unwrap();
    assert_eq!(a.statement.action, Action::Delete);
    assert!(matches!(a.statement.quantifier, Quantifier::All));
    assert!(a.statement.where_clause.is_none());
    let b = file.queries.get("B").unwrap();
    assert_eq!(b.statement.action, Action::Update);
    assert!(matches!(b.statement.quantifier, Quantifier::Number(10)));
    let c = file.queries.get("C").unwrap();
    assert!(matches!(c.statement.quantifier, Quantifier::Expr(Expr::Interp(_))));
}

#[test]
fn quantifier_alternatives_in_order() {
    let mut p = QQLParser::new("ONE");
    assert!(matches!(p.parse_qql_quantifier().unwrap(), Quantifier::One));
    let mut p = QQLParser::new("all");
    assert!(matches!(p.parse_qql_quantifier().unwrap(), Quantifier::All));
    let mut p = QQLParser::new("10");
    assert!(matches!(p.parse_qql_quantifier().unwrap(), Quantifier::Number(10)));
    let mut p = QQLParser::new("id == #a");
    match p.parse_qql_quantifier().unwrap() {
        Quantifier::Expr(Expr::Binary(l, BinaryOp::Eq, r)) => {
            assert!(matches!(*l, Expr::Field(None, ref f) if f.value == "id"));
            assert!(matches!(*r, Expr::Interp(ref a) if a.value == "a"));
        }
        other => panic!("unexpected {:?}", other),
    }
    let mut p = QQLParser::new("}");
    let err = p.parse_qql_quantifier().unwrap_err();
    assert_eq!(err.message, "expected 'ONE', 'ALL', a number, or an expression");
    assert_eq!(err.location.index, 0);
}

#[test]
fn expression_quantifier_in_a_query() {
    let file = QQLFile::from_source("query A(a) { select id == #a User(id) } query B() { select some M() }").unwrap();
    let a = file.queries.get("A").unwrap();
    assert!(matches!(a.statement.quantifier, Quantifier::Expr(Expr::Binary(_, BinaryOp::Eq, _))));
    assert_eq!(a.statement.selectors[0].name.value, "User");
    let b = file.queries.get("B").unwrap();
    assert!(matches!(b.statement.quantifier, Quantifier::Expr(Expr::Field(None, ref f)) if f.value == "some"));
}

#[test]
fn bad_quantifier_and_action() {
    let err = QQLFile::from_source("query A() { select ) M() }").err().unwrap();
    assert_eq!(err.message, "expected 'ONE', 'ALL', a number, or an expression");
    assert_eq!(err.location.index, 18);
    let err = QQLFile::from_source("query A() { insert one M() }").err().unwrap();
    assert_eq!(err.message, "Expected 'select', 'update', or 'delete'");
}

#[test]
fn failed_number_leaves_cursor() {
    let mut p = QQLParser::new("  99999999999999999999999");
    assert!(p.parse_number().is_err());
    assert_eq!(p.inner.cursor, 0);
    let mut p = QQLParser::new("x");
    assert_eq!(p.parse_number().unwrap(), None);
    assert_eq!(p.inner.cursor, 0);
}

#[test]
fn file_errors() {
    let err: ParseError = QQLFile::from_source("table X {}").err().unwrap();
    assert_eq!(err.message, "expected model or query");
    assert_eq!(err.location.index, 0);
    let err = QQLFile::from_source("model { }").err().unwrap();
    assert_eq!(err.message, "expected model name");
    let err = QQLFile::from_source("model A { x UUID }").err().unwrap();
    assert_eq!(err.message, "expected ':'");
    let err = QQLFile::from_source("model A { x: }").err().unwrap();
    assert_eq!(err.message, "expected type name");
    let err = QQLFile::from_source("model A { x: String() }").err().unwrap();
    assert_eq!(err.message, "expected type argument");
}

#[test]
fn later_model_of_same_name_replaces_earlier() {
    let file = QQLFile::from_source("model A { x: UUID } model A { y: UUID, z: UUID }").unwrap();
    let a = file.models.get("A").unwrap();
    assert_eq!(a.fields.len(), 2);
    assert_eq!(a.fields[0].name.value, "y");
}

#[test]
fn empty_source_is_empty_file() {
    let file = QQLFile::from_source("  \n\t ").unwrap();
    assert!(file.models.keys().is_empty());
    assert!(file.queries.keys().is_empty());
}

#[test]
fn parsing_twice_gives_equal_results() {
    let src = "model User { id: UUID } query Q(a) { select one User(id) where id == #a + 1 * 2 }";
    let a = QQLFile::from_source(src).unwrap();
    let b = QQLFile::from_source(src).unwrap();
    assert_eq!(
        format!("{:?}", a.queries.get("Q").unwrap()),
        format!("{:?}", b.queries.get("Q").unwrap())
    );
    assert_eq!(
        format!("{:?}", a.models.get("User").unwrap()),
        format!("{:?}", b.models.get("User").unwrap())
    );
}

#[test]
fn identifier_text_and_span() {
    let mut p = QQLParser::new("  héllo");
    let id = p.parse_ident().unwrap();
    assert_eq!(id.value, "h");
    let mut q = QQLParser::new("  abc_9 rest");
    let id = q.parse_ident().unwrap();
    assert_eq!(id.value, "abc_9");
    assert_eq!(id.location.index, 2);
    assert_eq!(id.length, 5);
}
