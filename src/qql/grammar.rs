//! The QQL grammar, stated over the source characters: each function says
//! what a production yields when it is tried at a position, and where it ends.
use vstd::prelude::*;
use crate::parser::{
    eq_ignore_case, err_at, perr, spec_at_end, spec_expect, spec_ident, spec_number, spec_peek, spec_take,
    IdentV, ParseErrorV,
};
use crate::qql::ast::{
    Action, BinaryOp, ExprV, FieldTypeV, ModelFieldV, ModelV, QuantifierV, QueryV, SelectorV,
    StatementV, UnaryOp,
};

verus! {

pub open spec fn spec_keyword(s: Seq<char>, i: int, kw: Seq<char>) -> Option<int> {
    match spec_ident(s, i, false) {
        Some((id, e)) => if id.value == kw { Some(e) } else { None },
        None => None,
    }
}

pub open spec fn spec_keyword_insensitive(s: Seq<char>, i: int, kw: Seq<char>) -> Option<int> {
    match spec_ident(s, i, false) {
        Some((id, e)) => if eq_ignore_case(id.value, kw) { Some(e) } else { None },
        None => None,
    }
}

pub open spec fn keyword_message(kw: Seq<char>) -> Seq<char> {
    "expected keyword \""@ + kw + "\""@
}

pub open spec fn spec_expect_keyword(s: Seq<char>, i: int, kw: Seq<char>) -> Result<int, ParseErrorV> {
    match spec_ident(s, i, false) {
        Some((id, e)) => if id.value == kw {
            Ok(e)
        } else {
            Err(perr(keyword_message(kw), id.index as int, id.length as int))
        },
        None => Err(err_at(s, keyword_message(kw), i, 0)),
    }
}

pub open spec fn spec_type_arg(s: Seq<char>, i: int) -> Result<(Option<u64>, int), ParseErrorV> {
    match spec_take(s, i, "("@) {
        None => Ok((None, i)),
        Some(p1) => match spec_number(s, p1, u64::MAX as nat) {
            Err(e) => Err(e),
            Ok(None) => Err(err_at(s, "expected type argument"@, p1, 0)),
            Ok(Some((v, p2))) => match spec_expect(s, p2, ")"@) {
                Err(e) => Err(e),
                Ok(p3) => Ok((Some(v as u64), p3)),
            },
        },
    }
}

pub open spec fn spec_field_type(s: Seq<char>, i: int) -> Result<(FieldTypeV, int), ParseErrorV> {
    match spec_ident(s, i, false) {
        None => Err(err_at(s, "expected type name"@, i, 0)),
        Some((name, p1)) => match spec_type_arg(s, p1) {
            Err(e) => Err(e),
            Ok((arg, p2)) => match spec_take(s, p2, "?"@) {
                Some(p3) => Ok((FieldTypeV { name, arg, optional: true }, p3)),
                None => Ok((FieldTypeV { name, arg, optional: false }, p2)),
            },
        },
    }
}

pub open spec fn spec_model_field(s: Seq<char>, i: int) -> Result<(ModelFieldV, int), ParseErrorV> {
    match spec_ident(s, i, false) {
        None => Err(err_at(s, "expected field name"@, i, 0)),
        Some((name, p1)) => match spec_expect(s, p1, ":"@) {
            Err(e) => Err(e),
            Ok(p2) => match spec_field_type(s, p2) {
                Err(e) => Err(e),
                Ok((type_, p3)) => Ok((ModelFieldV { name, type_ }, p3)),
            },
        },
    }
}

/// Model fields, separated by `,`, up to a `}` that is not taken.
pub open spec fn spec_model_fields(s: Seq<char>, i: int, acc: Seq<ModelFieldV>) -> Result<
    (Seq<ModelFieldV>, int),
    ParseErrorV,
>
    decreases s.len() - i,
{
    if spec_at_end(s, i) || spec_peek(s, i, "}"@) {
        Ok((acc, i))
    } else {
        match spec_model_field(s, i) {
            Err(e) => Err(e),
            Ok((f, p1)) => match spec_take(s, p1, ","@) {
                None => Ok((acc.push(f), p1)),
                Some(p2) => if i < p2 <= s.len() {
                    spec_model_fields(s, p2, acc.push(f))
                } else {
                    Ok((acc.push(f), p2))
                },
            },
        }
    }
}

/// Identifiers, separated by `,`, up to a `)` that is not taken; `msg` is
/// the error where an identifier is missing.
pub open spec fn spec_ident_list(s: Seq<char>, i: int, msg: Seq<char>, acc: Seq<IdentV>) -> Result<
    (Seq<IdentV>, int),
    ParseErrorV,
>
    decreases s.len() - i,
{
    if spec_at_end(s, i) || spec_peek(s, i, ")"@) {
        Ok((acc, i))
    } else {
        match spec_ident(s, i, false) {
            None => Err(err_at(s, msg, i, 0)),
            Some((id, p1)) => match spec_take(s, p1, ","@) {
                None => Ok((acc.push(id), p1)),
                Some(p2) => if i < p2 <= s.len() {
                    spec_ident_list(s, p2, msg, acc.push(id))
                } else {
                    Ok((acc.push(id), p2))
                },
            },
        }
    }
}

pub open spec fn spec_model(s: Seq<char>, i: int) -> Result<Option<(ModelV, int)>, ParseErrorV> {
    match spec_keyword(s, i, "model"@) {
        None => Ok(None),
        Some(p1) => match spec_ident(s, p1, false) {
            None => Err(err_at(s, "expected model name"@, p1, 0)),
            Some((name, p2)) => match spec_expect(s, p2, "{"@) {
                Err(e) => Err(e),
                Ok(p3) => match spec_model_fields(s, p3, seq![]) {
                    Err(e) => Err(e),
                    Ok((fields, p4)) => match spec_expect(s, p4, "}"@) {
                        Err(e) => Err(e),
                        Ok(p5) => Ok(Some((ModelV { name, fields }, p5))),
                    },
                },
            },
        },
    }
}

pub open spec fn action_message() -> Seq<char> {
    "Expected 'select', 'update', or 'delete'"@
}

pub open spec fn spec_action(s: Seq<char>, i: int) -> Result<(Action, int), ParseErrorV> {
    match spec_ident(s, i, false) {
        None => Err(err_at(s, "expected 'select' or 'update' or 'delete'"@, i, 0)),
        Some((id, p1)) => if eq_ignore_case(id.value, "select"@) {
            Ok((Action::Select, p1))
        } else if eq_ignore_case(id.value, "update"@) {
            Ok((Action::Update, p1))
        } else if eq_ignore_case(id.value, "delete"@) {
            Ok((Action::Delete, p1))
        } else {
            Err(perr(action_message(), id.index as int, id.length as int))
        },
    }
}

// ---------------------------------------------------------------------------
// Expressions
pub open spec fn primary_message() -> Seq<char> {
    "expected primary expression"@
}

/// A primary expression, or nothing where none starts at `i`.
pub open spec fn spec_try_primary(s: Seq<char>, i: int) -> Result<Option<(ExprV, int)>, ParseErrorV> {
    match spec_number(s, i, u64::MAX as nat) {
        Err(e) => Err(e),
        Ok(Some((v, p))) => Ok(Some((ExprV::Number(v as u64), p))),
        Ok(None) => match spec_ident(s, i, false) {
            Some((id, p1)) => match spec_take(s, p1, "."@) {
                Some(p2) => match spec_ident(s, p2, false) {
                    Some((f, p3)) => Ok(Some((ExprV::Field(Some(id), f), p3))),
                    None => Err(err_at(s, "expected field name after model name"@, p2, 0)),
                },
                None => Ok(Some((ExprV::Field(None, id), p1))),
            },
            None => match spec_take(s, i, "#"@) {
                Some(p1) => match spec_ident(s, p1, false) {
                    Some((id, p2)) => Ok(Some((ExprV::Interp(id), p2))),
                    None => Err(err_at(s, "expected argument name"@, p1, 0)),
                },
                None => Ok(None),
            },
        },
    }
}

/// An operand that must be there: nothing at `i` is an error at `i`.
pub open spec fn required(s: Seq<char>, r: Result<Option<(ExprV, int)>, ParseErrorV>, i: int) -> Result<
    (ExprV, int),
    ParseErrorV,
> {
    match r {
        Err(e) => Err(e),
        Ok(Some(x)) => Ok(x),
        Ok(None) => Err(err_at(s, primary_message(), i, 0)),
    }
}

pub open spec fn spec_try_unary(s: Seq<char>, i: int) -> Result<Option<(ExprV, int)>, ParseErrorV> {
    match spec_keyword(s, i, "not"@) {
        Some(p1) => match required(s, spec_try_primary(s, p1), p1) {
            Err(e) => Err(e),
            Ok((e, p2)) => Ok(Some((ExprV::Unary(UnaryOp::Not, Box::new(e)), p2))),
        },
        None => match spec_take(s, i, "-"@) {
            Some(p1) => match required(s, spec_try_primary(s, p1), p1) {
                Err(e) => Err(e),
                Ok((e, p2)) => Ok(Some((ExprV::Unary(UnaryOp::Negative, Box::new(e)), p2))),
            },
            None => spec_try_primary(s, i),
        },
    }
}

/// Binding levels, from the tightest: 1 `* / %`, 2 `+ -`, 3 `< <= > >=`,
/// 4 `== !=`, 5 `and`, 6 `or`; level 0 is a unary expression.
pub open spec fn or_level() -> nat {
    6
}

/// The operator of `level` that comes next at `i`, and where it ends.
pub open spec fn spec_level_op(s: Seq<char>, i: int, level: nat) -> Option<(BinaryOp, int)> {
    if level == 1 {
        if spec_take(s, i, "*"@) is Some {
            Some((BinaryOp::Mul, spec_take(s, i, "*"@)->0))
        } else if spec_take(s, i, "/"@) is Some {
            Some((BinaryOp::Div, spec_take(s, i, "/"@)->0))
        } else if spec_take(s, i, "%"@) is Some {
            Some((BinaryOp::Rem, spec_take(s, i, "%"@)->0))
        } else {
            None
        }
    } else if level == 2 {
        if spec_take(s, i, "+"@) is Some {
            Some((BinaryOp::Add, spec_take(s, i, "+"@)->0))
        } else if spec_take(s, i, "-"@) is Some {
            Some((BinaryOp::Sub, spec_take(s, i, "-"@)->0))
        } else {
            None
        }
    } else if level == 3 {
        if spec_take(s, i, ">="@) is Some {
            Some((BinaryOp::Ge, spec_take(s, i, ">="@)->0))
        } else if spec_take(s, i, ">"@) is Some {
            Some((BinaryOp::Gt, spec_take(s, i, ">"@)->0))
        } else if spec_take(s, i, "<="@) is Some {
            Some((BinaryOp::Le, spec_take(s, i, "<="@)->0))
        } else if spec_take(s, i, "<"@) is Some {
            Some((BinaryOp::Lt, spec_take(s, i, "<"@)->0))
        } else {
            None
        }
    } else if level == 4 {
        if spec_take(s, i, "=="@) is Some {
            Some((BinaryOp::Eq, spec_take(s, i, "=="@)->0))
        } else if spec_take(s, i, "!="@) is Some {
            Some((BinaryOp::Ne, spec_take(s, i, "!="@)->0))
        } else {
            None
        }
    } else if level == 5 {
        match spec_keyword_insensitive(s, i, "and"@) {
            Some(p) => Some((BinaryOp::And, p)),
            None => None,
        }
    } else if level == 6 {
        match spec_keyword_insensitive(s, i, "or"@) {
            Some(p) => Some((BinaryOp::Or, p)),
            None => None,
        }
    } else {
        None
    }
}

/// An expression of `level` or tighter, or nothing where none starts at `i`.
pub open spec fn spec_try_level(s: Seq<char>, i: int, level: nat) -> Result<
    Option<(ExprV, int)>,
    ParseErrorV,
>
    decreases level, 1nat, 0int,
{
    if level == 0 {
        spec_try_unary(s, i)
    } else {
        match spec_try_level(s, i, (level - 1) as nat) {
            Err(e) => Err(e),
            Ok(None) => Ok(None),
            Ok(Some((lhs, p))) => match spec_level_tail(s, p, level, lhs) {
                Err(e) => Err(e),
                Ok(x) => Ok(Some(x)),
            },
        }
    }
}

/// After the left operand `lhs`, the operators of `level` and their right
/// operands, folded to the left.
pub open spec fn spec_level_tail(s: Seq<char>, i: int, level: nat, lhs: ExprV) -> Result<
    (ExprV, int),
    ParseErrorV,
>
    decreases level, 0nat, s.len() - i,
{
    if level == 0 {
        Ok((lhs, i))
    } else {
        match spec_level_op(s, i, level) {
            None => Ok((lhs, i)),
            Some((op, p1)) => match required(s, spec_try_level(s, p1, (level - 1) as nat), p1) {
                Err(e) => Err(e),
                Ok((rhs, p2)) => if i < p2 <= s.len() {
                    spec_level_tail(s, p2, level, ExprV::Binary(Box::new(lhs), op, Box::new(rhs)))
                } else {
                    Ok((lhs, i))
                },
            },
        }
    }
}

pub open spec fn spec_try_expression(s: Seq<char>, i: int) -> Result<Option<(ExprV, int)>, ParseErrorV> {
    spec_try_level(s, i, or_level())
}

pub open spec fn spec_expression(s: Seq<char>, i: int) -> Result<(ExprV, int), ParseErrorV> {
    match spec_try_expression(s, i) {
        Err(e) => Err(e),
        Ok(Some(x)) => Ok(x),
        Ok(None) => Err(err_at(s, "expected qql expression"@, i, 0)),
    }
}

// ---------------------------------------------------------------------------
// Precedence
/// The binding level of a binary operator, as `spec_level_op` uses it.
pub open spec fn op_level(op: BinaryOp) -> nat {
    match op {
        BinaryOp::Mul | BinaryOp::Div | BinaryOp::Rem => 1,
        BinaryOp::Add | BinaryOp::Sub => 2,
        BinaryOp::Lt | BinaryOp::Le | BinaryOp::Gt | BinaryOp::Ge => 3,
        BinaryOp::Eq | BinaryOp::Ne => 4,
        BinaryOp::And => 5,
        BinaryOp::Or => 6,
    }
}

pub open spec fn nat_max(a: nat, b: nat) -> nat {
    if a >= b {
        a
    } else {
        b
    }
}

/// The loosest level of the binary operators in `e`; 0 where it has none.
pub open spec fn max_level(e: ExprV) -> nat
    decreases e,
{
    match e {
        ExprV::Binary(l, op, r) => nat_max(op_level(op), nat_max(max_level(*l), max_level(*r))),
        ExprV::Unary(_, r) => max_level(*r),
        _ => 0,
    }
}

/// Whether, at every binary operator of `e`, the left operand holds no
/// looser operator and the right operand only tighter ones.
pub open spec fn grouped(e: ExprV) -> bool
    decreases e,
{
    match e {
        ExprV::Binary(l, op, r) => max_level(*l) <= op_level(op) && max_level(*r) < op_level(op)
            && grouped(*l) && grouped(*r),
        ExprV::Unary(_, r) => grouped(*r),
        _ => true,
    }
}

proof fn lemma_level_op(s: Seq<char>, i: int, level: nat)
    ensures
        spec_level_op(s, i, level) matches Some((op, _)) ==> op_level(op) == level,
{
}

proof fn lemma_unary_grouped(s: Seq<char>, i: int)
    ensures
        spec_try_unary(s, i) matches Ok(Some((e, _))) ==> grouped(e) && max_level(e) == 0,
{
    reveal_with_fuel(grouped, 2);
    reveal_with_fuel(max_level, 2);
}

proof fn lemma_level_grouped(s: Seq<char>, i: int, level: nat)
    ensures
        spec_try_level(s, i, level) matches Ok(Some((e, _))) ==> grouped(e) && max_level(e) <= level,
    decreases level, 1nat, 0int,
{
    if level == 0 {
        lemma_unary_grouped(s, i);
    } else {
        lemma_level_grouped(s, i, (level - 1) as nat);
        if let Ok(Some((lhs, p))) = spec_try_level(s, i, (level - 1) as nat) {
            lemma_tail_grouped(s, p, level, lhs);
        }
    }
}

proof fn lemma_tail_grouped(s: Seq<char>, i: int, level: nat, lhs: ExprV)
    requires
        level >= 1,
        grouped(lhs),
        max_level(lhs) <= level,
    ensures
        spec_level_tail(s, i, level, lhs) matches Ok((e, _)) ==> grouped(e) && max_level(e) <= level,
    decreases level, 0nat, s.len() - i,
{
    lemma_level_op(s, i, level);
    if let Some((op, p1)) = spec_level_op(s, i, level) {
        lemma_level_grouped(s, p1, (level - 1) as nat);
        if let Ok((rhs, p2)) = required(s, spec_try_level(s, p1, (level - 1) as nat), p1) {
            if i < p2 <= s.len() {
                let next = ExprV::Binary(Box::new(lhs), op, Box::new(rhs));
                assert(grouped(next));
                lemma_tail_grouped(s, p2, level, next);
            }
        }
    }
}

/// Tighter operators bind first, and operators of one level group to the
/// left: in every expression parsed, the left operand of each binary
/// operator holds no looser operator and its right operand only tighter ones.
pub proof fn lemma_precedence(s: Seq<char>, i: int)
    ensures
        spec_try_expression(s, i) matches Ok(Some((e, _))) ==> grouped(e),
{
    lemma_level_grouped(s, i, or_level());
}

// ---------------------------------------------------------------------------
// Statements and queries
pub open spec fn quantifier_message() -> Seq<char> {
    "expected 'ONE', 'ALL', a number, or an expression"@
}

/// A quantifier: `one`, `all`, a number or an expression, tried in that
/// order; the first that matches is taken.
pub open spec fn spec_quantifier(s: Seq<char>, i: int) -> Result<(QuantifierV, int), ParseErrorV> {
    match spec_keyword_insensitive(s, i, "one"@) {
        Some(p) => Ok((QuantifierV::One, p)),
        None => match spec_keyword_insensitive(s, i, "all"@) {
            Some(p) => Ok((QuantifierV::All, p)),
            None => match spec_number(s, i, u64::MAX as nat) {
                Err(e) => Err(e),
                Ok(Some((v, p))) => Ok((QuantifierV::Number(v as u64), p)),
                Ok(None) => match spec_try_expression(s, i) {
                    Err(e) => Err(e),
                    Ok(Some((e, p))) => Ok((QuantifierV::Expr(e), p)),
                    Ok(None) => Err(err_at(s, quantifier_message(), i, 0)),
                },
            },
        },
    }
}

pub open spec fn spec_selector(s: Seq<char>, i: int) -> Result<(SelectorV, int), ParseErrorV> {
    match spec_ident(s, i, false) {
        None => Err(err_at(s, "expected model name"@, i, 0)),
        Some((name, p1)) => match spec_expect(s, p1, "("@) {
            Err(e) => Err(e),
            Ok(p2) => match spec_ident_list(s, p2, "expected field name"@, seq![]) {
                Err(e) => Err(e),
                Ok((fields, p3)) => match spec_expect(s, p3, ")"@) {
                    Err(e) => Err(e),
                    Ok(p4) => Ok((SelectorV { name, fields }, p4)),
                },
            },
        },
    }
}

/// More selectors, each after a `,`.
pub open spec fn spec_selectors_tail(s: Seq<char>, i: int, acc: Seq<SelectorV>) -> Result<
    (Seq<SelectorV>, int),
    ParseErrorV,
>
    decreases s.len() - i,
{
    match spec_take(s, i, ","@) {
        None => Ok((acc, i)),
        Some(p1) => match spec_selector(s, p1) {
            Err(e) => Err(e),
            Ok((sel, p2)) => if i < p2 <= s.len() {
                spec_selectors_tail(s, p2, acc.push(sel))
            } else {
                Ok((acc, i))
            },
        },
    }
}

pub open spec fn spec_selectors(s: Seq<char>, i: int) -> Result<(Seq<SelectorV>, int), ParseErrorV> {
    match spec_selector(s, i) {
        Err(e) => Err(e),
        Ok((sel, p)) => spec_selectors_tail(s, p, seq![sel]),
    }
}

pub open spec fn spec_where_clause(s: Seq<char>, i: int) -> Result<Option<(ExprV, int)>, ParseErrorV> {
    match spec_keyword_insensitive(s, i, "where"@) {
        None => Ok(None),
        Some(p1) => match spec_expression(s, p1) {
            Err(e) => Err(e),
            Ok(x) => Ok(Some(x)),
        },
    }
}

pub open spec fn spec_statement(s: Seq<char>, i: int) -> Result<(StatementV, int), ParseErrorV> {
    match spec_action(s, i) {
        Err(e) => Err(e),
        Ok((action, p1)) => match spec_quantifier(s, p1) {
            Err(e) => Err(e),
            Ok((quantifier, p2)) => match spec_selectors(s, p2) {
                Err(e) => Err(e),
                Ok((selectors, p3)) => match spec_where_clause(s, p3) {
                    Err(e) => Err(e),
                    Ok(None) => Ok((StatementV { action, quantifier, selectors, where_clause: None }, p3)),
                    Ok(Some((w, p4))) => Ok(
                        (StatementV { action, quantifier, selectors, where_clause: Some(w) }, p4),
                    ),
                },
            },
        },
    }
}

pub open spec fn spec_query(s: Seq<char>, i: int) -> Result<Option<(QueryV, int)>, ParseErrorV> {
    match spec_keyword(s, i, "query"@) {
        None => Ok(None),
        Some(p1) => match spec_ident(s, p1, false) {
            None => Err(err_at(s, "Expected query name"@, p1, 0)),
            Some((name, p2)) => match spec_expect(s, p2, "("@) {
                Err(e) => Err(e),
                Ok(p3) => match spec_ident_list(s, p3, "expected identifier"@, seq![]) {
                    Err(e) => Err(e),
                    Ok((args, p4)) => match spec_expect(s, p4, ")"@) {
                        Err(e) => Err(e),
                        Ok(p5) => match spec_expect(s, p5, "{"@) {
                            Err(e) => Err(e),
                            Ok(p6) => match spec_statement(s, p6) {
                                Err(e) => Err(e),
                                Ok((statement, p7)) => match spec_expect(s, p7, "}"@) {
                                    Err(e) => Err(e),
                                    Ok(p8) => Ok(Some((QueryV { name, args, statement }, p8))),
                                },
                            },
                        },
                    },
                },
            },
        },
    }
}

/// A whole file: models and queries in any order, each keyed by its name;
/// a later one of the same name replaces an earlier one.
pub open spec fn spec_file(
    s: Seq<char>,
    i: int,
    models: Map<Seq<char>, ModelV>,
    queries: Map<Seq<char>, QueryV>,
) -> Result<(Map<Seq<char>, ModelV>, Map<Seq<char>, QueryV>), ParseErrorV>
    decreases s.len() - i,
{
    if spec_at_end(s, i) {
        Ok((models, queries))
    } else {
        match spec_model(s, i) {
            Err(e) => Err(e),
            Ok(Some((m, p))) => if i < p <= s.len() {
                spec_file(s, p, models.insert(m.name.value, m), queries)
            } else {
                Ok((models, queries))
            },
            Ok(None) => match spec_query(s, i) {
                Err(e) => Err(e),
                Ok(Some((q, p))) => if i < p <= s.len() {
                    spec_file(s, p, models, queries.insert(q.name.value, q))
                } else {
                    Ok((models, queries))
                },
                Ok(None) => Err(err_at(s, "expected model or query"@, i, 0)),
            },
        }
    }
}

/// What parsing the source `s` yields.
pub open spec fn spec_parse(s: Seq<char>) -> Result<
    (Map<Seq<char>, ModelV>, Map<Seq<char>, QueryV>),
    ParseErrorV,
> {
    spec_file(s, 0, Map::empty(), Map::empty())
}

/// Parsing is deterministic: two sources of the same text yield the same
/// models and queries, or the same error.
pub proof fn lemma_parse_deterministic(a: Seq<char>, b: Seq<char>)
    requires
        a == b,
    ensures
        spec_parse(a) == spec_parse(b),
{
}

} // verus!
