//! QQL expressions, parsed by precedence climbing, and quantifiers.
use vstd::prelude::*;
use crate::parser::{agrees, agrees_opt, ParseError};
use crate::qql::ast::{BinaryOp, Expr, Quantifier, UnaryOp};
use crate::qql::grammar::{
    required, spec_expression, spec_level_op, spec_level_tail, spec_quantifier,
    spec_try_expression, spec_try_level, spec_try_primary, spec_try_unary,
};
use crate::qql::parse::QQLParser;

verus! {

impl QQLParser {
    pub fn parse_qql_quantifier(&mut self) -> (r: Result<Quantifier, ParseError>)
        requires
            old(self).wf(),
        ensures
            final(self).advanced(*old(self)),
            agrees(r, spec_quantifier(old(self).src(), old(self).pos()), final(self).pos()),
    {
        let at = self.inner.here();
        if self.take_keyword_insensitive("one") {
            return Ok(Quantifier::One);
        }
        if self.take_keyword_insensitive("all") {
            return Ok(Quantifier::All);
        }
        if let Some(number) = self.parse_number()? {
            return Ok(Quantifier::Number(number));
        }
        if let Some(expr) = self.try_parse_qql_expression()? {
            return Ok(Quantifier::Expr(expr));
        }
        Err(ParseError::new("expected 'ONE', 'ALL', a number, or an expression", at))
    }

    /// An expression, or `None` where none starts here.
    pub fn try_parse_qql_expression(&mut self) -> (r: Result<Option<Expr>, ParseError>)
        requires
            old(self).wf(),
        ensures
            final(self).advanced(*old(self)),
            agrees_opt(r, spec_try_expression(old(self).src(), old(self).pos()), old(self).pos(), final(self).pos()),
    {
        self.try_level(6)
    }

    pub fn parse_qql_expression(&mut self) -> (r: Result<Expr, ParseError>)
        requires
            old(self).wf(),
        ensures
            final(self).advanced(*old(self)),
            agrees(r, spec_expression(old(self).src(), old(self).pos()), final(self).pos()),
    {
        let at = self.inner.here();
        match self.try_parse_qql_expression()? {
            Some(expr) => Ok(expr),
            None => Err(ParseError::new("expected qql expression", at)),
        }
    }

    pub fn parse_qql_expression_or(&mut self) -> (r: Result<Expr, ParseError>)
        requires
            old(self).wf(),
        ensures
            final(self).advanced(*old(self)),
            agrees(r, required(old(self).src(), spec_try_level(old(self).src(), old(self).pos(), 6), old(self).pos()), final(self).pos()),
    {
        self.required_level(6)
    }

    pub fn parse_qql_expression_and(&mut self) -> (r: Result<Expr, ParseError>)
        requires
            old(self).wf(),
        ensures
            final(self).advanced(*old(self)),
            agrees(r, required(old(self).src(), spec_try_level(old(self).src(), old(self).pos(), 5), old(self).pos()), final(self).pos()),
    {
        self.required_level(5)
    }

    pub fn parse_qql_expression_eq(&mut self) -> (r: Result<Expr, ParseError>)
        requires
            old(self).wf(),
        ensures
            final(self).advanced(*old(self)),
            agrees(r, required(old(self).src(), spec_try_level(old(self).src(), old(self).pos(), 4), old(self).pos()), final(self).pos()),
    {
        self.required_level(4)
    }

    pub fn parse_qql_expression_ord(&mut self) -> (r: Result<Expr, ParseError>)
        requires
            old(self).wf(),
        ensures
            final(self).advanced(*old(self)),
            agrees(r, required(old(self).src(), spec_try_level(old(self).src(), old(self).pos(), 3), old(self).pos()), final(self).pos()),
    {
        self.required_level(3)
    }

    pub fn parse_qql_expression_term(&mut self) -> (r: Result<Expr, ParseError>)
        requires
            old(self).wf(),
        ensures
            final(self).advanced(*old(self)),
            agrees(r, required(old(self).src(), spec_try_level(old(self).src(), old(self).pos(), 2), old(self).pos()), final(self).pos()),
    {
        self.required_level(2)
    }

    pub fn parse_qql_expression_factor(&mut self) -> (r: Result<Expr, ParseError>)
        requires
            old(self).wf(),
        ensures
            final(self).advanced(*old(self)),
            agrees(r, required(old(self).src(), spec_try_level(old(self).src(), old(self).pos(), 1), old(self).pos()), final(self).pos()),
    {
        self.required_level(1)
    }

    pub fn parse_qql_expression_unary(&mut self) -> (r: Result<Expr, ParseError>)
        requires
            old(self).wf(),
        ensures
            final(self).advanced(*old(self)),
            agrees(r, required(old(self).src(), spec_try_unary(old(self).src(), old(self).pos()), old(self).pos()), final(self).pos()),
    {
        self.required_level(0)
    }

    pub fn parse_qql_expression_primary(&mut self) -> (r: Result<Expr, ParseError>)
        requires
            old(self).wf(),
        ensures
            final(self).advanced(*old(self)),
            agrees(r, required(old(self).src(), spec_try_primary(old(self).src(), old(self).pos()), old(self).pos()), final(self).pos()),
    {
        let at = self.inner.here();
        match self.try_primary()? {
            Some(e) => Ok(e),
            None => Err(ParseError::new("expected primary expression", at)),
        }
    }

    /// An expression of `level` or tighter, which must be there.
    fn required_level(&mut self, level: u8) -> (r: Result<Expr, ParseError>)
        requires
            old(self).wf(),
            level <= 6,
        ensures
            final(self).advanced(*old(self)),
            agrees(r, required(old(self).src(), spec_try_level(old(self).src(), old(self).pos(), level as nat), old(self).pos()), final(self).pos()),
    {
        let at = self.inner.here();
        match self.try_level(level)? {
            Some(e) => Ok(e),
            None => Err(ParseError::new("expected primary expression", at)),
        }
    }

    fn try_primary(&mut self) -> (r: Result<Option<Expr>, ParseError>)
        requires
            old(self).wf(),
        ensures
            final(self).advanced(*old(self)),
            agrees_opt(r, spec_try_primary(old(self).src(), old(self).pos()), old(self).pos(), final(self).pos()),
    {
        if let Some(number) = self.parse_number()? {
            return Ok(Some(Expr::Number(number)));
        }
        if let Some(ident) = self.parse_ident() {
            return if self.inner.take(".") {
                let at = self.inner.here();
                match self.parse_ident() {
                    Some(field) => Ok(Some(Expr::Field(Some(ident), field))),
                    None => Err(ParseError::new("expected field name after model name", at)),
                }
            } else {
                Ok(Some(Expr::Field(None, ident)))
            };
        }
        if self.inner.take("#") {
            let at = self.inner.here();
            return match self.parse_ident() {
                Some(ident) => Ok(Some(Expr::Interp(ident))),
                None => Err(ParseError::new("expected argument name", at)),
            };
        }
        Ok(None)
    }

    fn try_unary(&mut self) -> (r: Result<Option<Expr>, ParseError>)
        requires
            old(self).wf(),
        ensures
            final(self).advanced(*old(self)),
            agrees_opt(r, spec_try_unary(old(self).src(), old(self).pos()), old(self).pos(), final(self).pos()),
    {
        let op = if self.take_keyword("not") {
            UnaryOp::Not
        } else if self.inner.take("-") {
            UnaryOp::Negative
        } else {
            return self.try_primary();
        };
        let at = self.inner.here();
        match self.try_primary()? {
            Some(e) => Ok(Some(Expr::Unary(op, Box::new(e)))),
            None => Err(ParseError::new("expected primary expression", at)),
        }
    }

    /// Moves past the operator of `level` that comes next, if any.
    fn level_op(&mut self, level: u8) -> (r: Option<BinaryOp>)
        requires
            old(self).wf(),
            1 <= level <= 6,
        ensures
            final(self).advanced(*old(self)),
            match spec_level_op(old(self).src(), old(self).pos(), level as nat) {
                Some((op, p)) => r == Some(op) && final(self).pos() == p,
                None => r is None && final(self).pos() == old(self).pos(),
            },
            r is Some ==> old(self).pos() < final(self).pos(),
    {
        proof {
            reveal_strlit("*");
            reveal_strlit("/");
            reveal_strlit("%");
            reveal_strlit("+");
            reveal_strlit("-");
            reveal_strlit(">=");
            reveal_strlit(">");
            reveal_strlit("<=");
            reveal_strlit("<");
            reveal_strlit("==");
            reveal_strlit("!=");
        }
        if level == 1 {
            if self.inner.take("*") {
                Some(BinaryOp::Mul)
            } else if self.inner.take("/") {
                Some(BinaryOp::Div)
            } else if self.inner.take("%") {
                Some(BinaryOp::Rem)
            } else {
                None
            }
        } else if level == 2 {
            if self.inner.take("+") {
                Some(BinaryOp::Add)
            } else if self.inner.take("-") {
                Some(BinaryOp::Sub)
            } else {
                None
            }
        } else if level == 3 {
            if self.inner.take(">=") {
                Some(BinaryOp::Ge)
            } else if self.inner.take(">") {
                Some(BinaryOp::Gt)
            } else if self.inner.take("<=") {
                Some(BinaryOp::Le)
            } else if self.inner.take("<") {
                Some(BinaryOp::Lt)
            } else {
                None
            }
        } else if level == 4 {
            if self.inner.take("==") {
                Some(BinaryOp::Eq)
            } else if self.inner.take("!=") {
                Some(BinaryOp::Ne)
            } else {
                None
            }
        } else if level == 5 {
            if self.take_keyword_insensitive("and") {
                Some(BinaryOp::And)
            } else {
                None
            }
        } else {
            if self.take_keyword_insensitive("or") {
                Some(BinaryOp::Or)
            } else {
                None
            }
        }
    }

    fn try_level(&mut self, level: u8) -> (r: Result<Option<Expr>, ParseError>)
        requires
            old(self).wf(),
            level <= 6,
        ensures
            final(self).advanced(*old(self)),
            agrees_opt(r, spec_try_level(old(self).src(), old(self).pos(), level as nat), old(self).pos(), final(self).pos()),
        decreases level, 1nat,
    {
        if level == 0 {
            return self.try_unary();
        }
        match self.try_level(level - 1)? {
            None => Ok(None),
            Some(lhs) => Ok(Some(self.level_tail(level, lhs)?)),
        }
    }

    /// The operators of `level` after `lhs`, and their operands, folded to the left.
    fn level_tail(&mut self, level: u8, lhs: Expr) -> (r: Result<Expr, ParseError>)
        requires
            old(self).wf(),
            1 <= level <= 6,
        ensures
            final(self).advanced(*old(self)),
            agrees(r, spec_level_tail(old(self).src(), old(self).pos(), level as nat, lhs@), final(self).pos()),
        decreases level, 0nat,
    {
        let ghost s = self.src();
        let ghost p0 = self.pos();
        let mut expr = lhs;
        loop
            invariant
                self.advanced(*old(self)),
                s == self.src(),
                p0 == old(self).pos(),
                1 <= level <= 6,
                spec_level_tail(s, self.pos(), level as nat, expr@)
                    == spec_level_tail(s, p0, level as nat, lhs@),
            decreases s.len() - self.pos(),
        {
            let ghost before = self.pos();
            let op = match self.level_op(level) {
                Some(op) => op,
                None => return Ok(expr),
            };
            let at = self.inner.here();
            let rhs = match self.try_level(level - 1)? {
                Some(e) => e,
                None => return Err(ParseError::new("expected primary expression", at)),
            };
            expr = Expr::Binary(Box::new(expr), op, Box::new(rhs));
            assert(before < self.pos());
        }
    }
}

} // verus!
