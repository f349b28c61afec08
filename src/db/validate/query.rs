//! Validation of one query against the registry of validated models.
use vstd::prelude::*;
use crate::db::context::Context;
use crate::db::model::{registry_contents, spec_has_field, ModelRegistry, ModelV};
use crate::db::validate::error::{ValidationError, ValidationErrorV};
use crate::maps::{name_set_contents, NameSet};
use crate::parser::{Ident, IdentV};
use crate::qql::ast::{opt_ident_view, Expr, ExprV, Quantifier, QuantifierV, Query, QueryV};

verus! {

/// The first argument from `i` on whose name is in `seen` or among the
/// arguments between `i` and it.
pub open spec fn duplicate_arg_from(args: Seq<IdentV>, i: int, seen: Set<Seq<char>>) -> Option<IdentV>
    decreases args.len() - i,
{
    if i < 0 || i >= args.len() {
        None
    } else if seen.contains(args[i].value) {
        Some(args[i])
    } else {
        duplicate_arg_from(args, i + 1, seen.insert(args[i].value))
    }
}

/// The first argument whose name an earlier argument has.
pub open spec fn duplicate_arg(args: Seq<IdentV>) -> Option<IdentV> {
    duplicate_arg_from(args, 0, Set::empty())
}

pub open spec fn arg_names(args: Seq<IdentV>) -> Set<Seq<char>> {
    args.map_values(|a: IdentV| a.value).to_set()
}

/// The model that unqualified fields refer to: that of the only selector,
/// where there is exactly one.
pub open spec fn principal_model(q: QueryV) -> Option<IdentV> {
    if q.statement.selectors.len() == 1 {
        Some(q.statement.selectors[0].name)
    } else {
        None
    }
}

/// The first error in `e`, walking it left to right.
pub open spec fn expr_error(
    e: ExprV,
    query: IdentV,
    args: Set<Seq<char>>,
    principal: Option<IdentV>,
    models: Map<Seq<char>, ModelV>,
) -> Option<ValidationErrorV>
    decreases e,
{
    match e {
        ExprV::Binary(l, _, r) => match expr_error(*l, query, args, principal, models) {
            Some(x) => Some(x),
            None => expr_error(*r, query, args, principal, models),
        },
        ExprV::Unary(_, r) => expr_error(*r, query, args, principal, models),
        ExprV::Number(_) => None,
        ExprV::Interp(v) => if args.contains(v.value) {
            None
        } else {
            Some(ValidationErrorV::UnknownQueryVariable { query, variable: v })
        },
        ExprV::Field(m, f) => {
            let target = match m {
                Some(m) => Some(m),
                None => principal,
            };
            match target {
                None => Some(ValidationErrorV::AmbiguousQueryField { query, field: f }),
                Some(t) => if !models.contains_key(t.value) {
                    Some(ValidationErrorV::QueryUnknownModel { query, model: t, field: f })
                } else if !spec_has_field(models[t.value], f.value) {
                    Some(ValidationErrorV::QueryUnknownField { query, model: models[t.value].name, field: f })
                } else {
                    None
                },
            }
        },
    }
}

/// The first error of the query: a repeated argument, then the quantifier's
/// expression, then the where-clause.
pub open spec fn query_error(q: QueryV, models: Map<Seq<char>, ModelV>) -> Option<ValidationErrorV> {
    match duplicate_arg(q.args) {
        Some(a) => Some(ValidationErrorV::DuplicateQueryArgument { query: q.name, argument: a }),
        None => {
            let args = arg_names(q.args);
            let principal = principal_model(q);
            let quantified = match q.statement.quantifier {
                QuantifierV::Expr(e) => expr_error(e, q.name, args, principal, models),
                _ => None,
            };
            match quantified {
                Some(x) => Some(x),
                None => match q.statement.where_clause {
                    Some(w) => expr_error(w, q.name, args, principal, models),
                    None => None,
                },
            }
        },
    }
}

/// Validates `query` against the models of `context`.
pub fn validate(context: &Context, query: &Query) -> (r: Result<(), ValidationError>)
    ensures
        match query_error(query@, registry_contents(context.models)) {
            Some(e) => r is Err && r->Err_0@ == e,
            None => r is Ok,
        },
{
    let ghost qv = query@;
    let mut args = NameSet::new();
    let ghost mut seen: Set<Seq<char>> = Set::empty();
    let mut i: usize = 0;
    while i < query.args.len()
        invariant
            i <= query.args@.len(),
            qv == query@,
            name_set_contents(args) == seen,
            seen == qv.args.subrange(0, i as int).map_values(|a: IdentV| a.value).to_set(),
            duplicate_arg_from(qv.args, i as int, seen) == duplicate_arg(qv.args),
        decreases query.args@.len() - i,
    {
        let arg = &query.args[i];
        assert(qv.args[i as int] == arg@);
        if args.contains(arg.as_str()) {
            return Err(
                ValidationError::DuplicateQueryArgument { query: query.name.copy(), argument: arg.copy() },
            );
        }
        args.insert(arg.value.clone());
        proof {
            seen = seen.insert(arg.value@);
            assert(qv.args.subrange(0, i + 1).map_values(|a: IdentV| a.value) =~= qv.args.subrange(
                0,
                i as int,
            ).map_values(|a: IdentV| a.value).push(arg.value@));
            qv.args.subrange(0, i as int).map_values(|a: IdentV| a.value).lemma_push_to_set_commute(arg.value@);
        }
        i = i + 1;
    }
    proof {
        assert(qv.args.subrange(0, i as int) =~= qv.args);
    }
    let principal = if query.statement.selectors.len() == 1 {
        Some(query.statement.selectors[0].name.copy())
    } else {
        None
    };
    assert(opt_ident_view(principal) == principal_model(qv));
    if let Quantifier::Expr(expr) = &query.statement.quantifier {
        validate_expr(&context.models, &query.name, &args, &principal, expr)?;
    }
    if let Some(w) = &query.statement.where_clause {
        validate_expr(&context.models, &query.name, &args, &principal, &w.expr)?;
    }
    Ok(())
}

/// Validates the field references and interpolations of `expr`.
pub fn validate_expr(
    models: &ModelRegistry,
    query: &Ident,
    args: &NameSet,
    principal: &Option<Ident>,
    expr: &Expr,
) -> (r: Result<(), ValidationError>)
    ensures
        match expr_error(
            expr@,
            query@,
            name_set_contents(*args),
            opt_ident_view(*principal),
            registry_contents(*models),
        ) {
            Some(e) => r is Err && r->Err_0@ == e,
            None => r is Ok,
        },
    decreases expr,
{
    match expr {
        Expr::Binary(l, _, r) => {
            validate_expr(models, query, args, principal, l)?;
            validate_expr(models, query, args, principal, r)
        },
        Expr::Unary(_, r) => validate_expr(models, query, args, principal, r),
        Expr::Number(_) => Ok(()),
        Expr::Interp(var) => {
            if !args.contains(var.as_str()) {
                Err(ValidationError::UnknownQueryVariable { query: query.copy(), variable: var.copy() })
            } else {
                Ok(())
            }
        },
        Expr::Field(model, field) => {
            let target = match model {
                Some(m) => Some(m),
                None => principal.as_ref(),
            };
            match target {
                None => Err(ValidationError::AmbiguousQueryField { query: query.copy(), field: field.copy() }),
                Some(t) => match models.get(t.as_str()) {
                    None => Err(
                        ValidationError::QueryUnknownModel {
                            query: query.copy(),
                            model: t.copy(),
                            field: field.copy(),
                        },
                    ),
                    Some(m) => if !m.has_field(field.as_str()) {
                        Err(
                            ValidationError::QueryUnknownField {
                                query: query.copy(),
                                model: m.name.copy(),
                                field: field.copy(),
                            },
                        )
                    } else {
                        Ok(())
                    },
                },
            }
        },
    }
}

/// An unqualified field in the where-clause of a query without exactly one
/// selector is ambiguous.
pub proof fn lemma_unqualified_field_without_principal(q: QueryV, models: Map<Seq<char>, ModelV>, f: IdentV)
    requires
        duplicate_arg(q.args) is None,
        q.statement.selectors.len() != 1,
        !(q.statement.quantifier is Expr),
        q.statement.where_clause == Some(ExprV::Field(None, f)),
    ensures
        query_error(q, models) == Some(ValidationErrorV::AmbiguousQueryField { query: q.name, field: f }),
{
}

/// With exactly one selector, an unqualified field in the where-clause is
/// a field of the selector's model: valid where the model has it, else an
/// unknown field of that model.
pub proof fn lemma_unqualified_field_of_principal(q: QueryV, models: Map<Seq<char>, ModelV>, f: IdentV)
    requires
        duplicate_arg(q.args) is None,
        q.statement.selectors.len() == 1,
        !(q.statement.quantifier is Expr),
        q.statement.where_clause == Some(ExprV::Field(None, f)),
        models.contains_key(q.statement.selectors[0].name.value),
    ensures
        ({
            let m = models[q.statement.selectors[0].name.value];
            query_error(q, models) == if spec_has_field(m, f.value) {
                None
            } else {
                Some(ValidationErrorV::QueryUnknownField { query: q.name, model: m.name, field: f })
            }
        }),
{
}

/// An interpolation of a name that is not an argument of the query is an
/// unknown variable.
pub proof fn lemma_unknown_interpolation(q: QueryV, models: Map<Seq<char>, ModelV>, v: IdentV)
    requires
        duplicate_arg(q.args) is None,
        !(q.statement.quantifier is Expr),
        q.statement.where_clause == Some(ExprV::Interp(v)),
        forall|i: int| 0 <= i < q.args.len() ==> (#[trigger] q.args[i]).value != v.value,
    ensures
        query_error(q, models) == Some(ValidationErrorV::UnknownQueryVariable { query: q.name, variable: v }),
{
    if arg_names(q.args).contains(v.value) {
        let i = q.args.map_values(|a: IdentV| a.value).index_of(v.value);
        assert(q.args[i].value == v.value);
    }
}

} // verus!
