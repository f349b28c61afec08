//! The QQL syntax tree, and its mathematical view.
use vstd::prelude::*;
use crate::parser::{Ident, IdentV};

verus! {

#[derive(Debug)]
pub struct Model {
    pub name: Ident,
    pub fields: Vec<ModelField>,
}

#[derive(Debug)]
pub struct ModelField {
    pub name: Ident,
    pub type_: FieldType,
}

#[derive(Debug)]
pub struct FieldType {
    pub name: Ident,
    pub arg: Option<u64>,
    pub optional: bool,
}

#[derive(Debug)]
pub struct Query {
    pub name: Ident,
    pub args: Vec<Ident>,
    pub statement: Statement,
}

#[derive(Debug)]
pub struct Statement {
    pub action: Action,
    pub quantifier: Quantifier,
    pub selectors: Vec<Selector>,
    pub where_clause: Option<WhereClause>,
}

#[derive(Clone, Copy, Debug, PartialEq, Eq, Structural)]
pub enum Action {
    Select,
    Update,
    Delete,
}

#[derive(Debug)]
pub enum Quantifier {
    One,
    All,
    Number(u64),
    Expr(Expr),
}

#[derive(Debug)]
pub struct Selector {
    pub name: Ident,
    pub fields: Vec<Ident>,
}

#[derive(Debug)]
pub struct WhereClause {
    pub expr: Expr,
}

#[derive(Debug)]
pub enum Expr {
    Binary(Box<Expr>, BinaryOp, Box<Expr>),
    Unary(UnaryOp, Box<Expr>),
    Number(u64),
    Interp(Ident),
    Field(Option<Ident>, Ident),
}

#[derive(Clone, Copy, Debug, PartialEq, Eq, Structural)]
pub enum BinaryOp {
    Mul,
    Div,
    Rem,
    Add,
    Sub,
    Lt,
    Le,
    Gt,
    Ge,
    Eq,
    Ne,
    And,
    Or,
}

#[derive(Clone, Copy, Debug, PartialEq, Eq, Structural)]
pub enum UnaryOp {
    Not,
    Negative,
}

// ---------------------------------------------------------------------------
// Views
pub ghost struct ModelV {
    pub name: IdentV,
    pub fields: Seq<ModelFieldV>,
}

pub ghost struct ModelFieldV {
    pub name: IdentV,
    pub type_: FieldTypeV,
}

pub ghost struct FieldTypeV {
    pub name: IdentV,
    pub arg: Option<u64>,
    pub optional: bool,
}

pub ghost struct QueryV {
    pub name: IdentV,
    pub args: Seq<IdentV>,
    pub statement: StatementV,
}

pub ghost struct StatementV {
    pub action: Action,
    pub quantifier: QuantifierV,
    pub selectors: Seq<SelectorV>,
    pub where_clause: Option<ExprV>,
}

pub ghost enum QuantifierV {
    One,
    All,
    Number(u64),
    Expr(ExprV),
}

pub ghost struct SelectorV {
    pub name: IdentV,
    pub fields: Seq<IdentV>,
}

pub ghost enum ExprV {
    Binary(Box<ExprV>, BinaryOp, Box<ExprV>),
    Unary(UnaryOp, Box<ExprV>),
    Number(u64),
    Interp(IdentV),
    Field(Option<IdentV>, IdentV),
}

pub open spec fn idents_view(v: Seq<Ident>) -> Seq<IdentV> {
    v.map_values(|i: Ident| i@)
}

pub open spec fn opt_ident_view(o: Option<Ident>) -> Option<IdentV> {
    match o {
        Some(i) => Some(i@),
        None => None,
    }
}

impl View for FieldType {
    type V = FieldTypeV;

    open spec fn view(&self) -> FieldTypeV {
        FieldTypeV { name: self.name@, arg: self.arg, optional: self.optional }
    }
}

impl View for ModelField {
    type V = ModelFieldV;

    open spec fn view(&self) -> ModelFieldV {
        ModelFieldV { name: self.name@, type_: self.type_@ }
    }
}

impl View for Model {
    type V = ModelV;

    open spec fn view(&self) -> ModelV {
        ModelV { name: self.name@, fields: self.fields@.map_values(|f: ModelField| f@) }
    }
}

impl View for Selector {
    type V = SelectorV;

    open spec fn view(&self) -> SelectorV {
        SelectorV { name: self.name@, fields: idents_view(self.fields@) }
    }
}

pub open spec fn expr_view(e: Expr) -> ExprV
    decreases e,
{
    match e {
        Expr::Binary(l, op, r) => ExprV::Binary(Box::new(expr_view(*l)), op, Box::new(expr_view(*r))),
        Expr::Unary(op, r) => ExprV::Unary(op, Box::new(expr_view(*r))),
        Expr::Number(n) => ExprV::Number(n),
        Expr::Interp(i) => ExprV::Interp(i@),
        Expr::Field(m, f) => ExprV::Field(opt_ident_view(m), f@),
    }
}

impl View for Expr {
    type V = ExprV;

    open spec fn view(&self) -> ExprV {
        expr_view(*self)
    }
}

impl View for Quantifier {
    type V = QuantifierV;

    open spec fn view(&self) -> QuantifierV {
        match self {
            Quantifier::One => QuantifierV::One,
            Quantifier::All => QuantifierV::All,
            Quantifier::Number(n) => QuantifierV::Number(*n),
            Quantifier::Expr(e) => QuantifierV::Expr(e@),
        }
    }
}

impl View for WhereClause {
    type V = ExprV;

    open spec fn view(&self) -> ExprV {
        self.expr@
    }
}

impl View for Statement {
    type V = StatementV;

    open spec fn view(&self) -> StatementV {
        StatementV {
            action: self.action,
            quantifier: self.quantifier@,
            selectors: self.selectors@.map_values(|s: Selector| s@),
            where_clause: match self.where_clause {
                Some(w) => Some(w@),
                None => None,
            },
        }
    }
}

impl View for Query {
    type V = QueryV;

    open spec fn view(&self) -> QueryV {
        QueryV { name: self.name@, args: idents_view(self.args@), statement: self.statement@ }
    }
}

} // verus!
