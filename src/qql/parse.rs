//! The QQL parser: recursive descent over the cursor, one method per
//! production of the grammar.
use vstd::prelude::*;
use crate::maps::{model_map_contents, query_map_contents, ModelMap, QueryMap};
use crate::parser::{agrees, agrees_opt, spec_ident, spec_number, str_eq, Ident, ParseError, Parser};
use crate::qql::ast::{
    idents_view, Action, FieldType, Model, ModelField, ModelV, Query, QueryV, Selector, Statement,
    WhereClause,
};
use crate::qql::grammar::{
    keyword_message, spec_action, spec_expect_keyword, spec_field_type, spec_file, spec_ident_list,
    spec_keyword, spec_keyword_insensitive, spec_model, spec_model_field, spec_model_fields,
    spec_query, spec_selector, spec_selectors, spec_selectors_tail, spec_statement, spec_type_arg,
    spec_where_clause,
};

verus! {

pub struct QQLParser {
    pub inner: Parser,
}

/// The result of parsing a QQL source: its models and queries by name.
pub struct QQLFile {
    pub models: ModelMap,
    pub queries: QueryMap,
}

impl QQLParser {
    pub open spec fn src(&self) -> Seq<char> {
        self.inner.src()
    }

    pub open spec fn pos(&self) -> int {
        self.inner.pos()
    }

    pub open spec fn wf(&self) -> bool {
        self.inner.wf()
    }

    /// The cursor has only moved forward over the same source.
    pub open spec fn advanced(&self, before: QQLParser) -> bool {
        self.wf() && self.src() == before.src() && before.pos() <= self.pos()
    }

    pub fn new(s: &str) -> (r: QQLParser)
        ensures
            r.wf(),
            r.src() == s@,
            r.pos() == 0,
    {
        QQLParser { inner: Parser::new(s) }
    }

    /// Parses the rest of the source as models and queries.
    pub fn parse(&mut self) -> (r: Result<QQLFile, ParseError>)
        requires
            old(self).wf(),
        ensures
            final(self).advanced(*old(self)),
            match spec_file(old(self).src(), old(self).pos(), Map::empty(), Map::empty()) {
                Ok((ms, qs)) => r is Ok && model_map_contents(r->Ok_0.models) == ms
                    && query_map_contents(r->Ok_0.queries) == qs,
                Err(e) => r is Err && r->Err_0@ == e,
            },
            r is Ok ==> r->Ok_0.wf(),
    {
        let ghost s = self.src();
        let ghost p0 = self.pos();
        proof {
            lemma_file_keyed_by_name(s, p0, Map::empty(), Map::empty());
        }
        let mut models = ModelMap::new();
        let mut queries = QueryMap::new();
        loop
            invariant
                self.advanced(*old(self)),
                s == self.src(),
                p0 == old(self).pos(),
                spec_file(s, self.pos(), model_map_contents(models), query_map_contents(queries))
                    == spec_file(s, p0, Map::empty(), Map::empty()),
                spec_file(s, p0, Map::empty(), Map::empty()) matches Ok((ms, qs)) ==> keyed_by_name(ms, qs),
            decreases s.len() - self.pos(),
        {
            if self.inner.at_end() {
                return Ok(QQLFile { models, queries });
            }
            let ghost before = self.pos();
            match self.parse_model() {
                Err(e) => return Err(e),
                Ok(Some(model)) => {
                    let name = model.name.value.clone();
                    models.insert(name, model);
                },
                Ok(None) => match self.parse_query() {
                    Err(e) => return Err(e),
                    Ok(Some(query)) => {
                        let name = query.name.value.clone();
                        queries.insert(name, query);
                    },
                    Ok(None) => return Err(ParseError::new("expected model or query", self.inner.here())),
                },
            }
            assert(before < self.pos());
        }
    }

    pub fn parse_number(&mut self) -> (r: Result<Option<u64>, ParseError>)
        requires
            old(self).wf(),
        ensures
            final(self).advanced(*old(self)),
            match spec_number(old(self).src(), old(self).pos(), u64::MAX as nat) {
                Ok(Some((v, e))) => r == Ok::<Option<u64>, ParseError>(Some(v as u64)) && final(self).pos() == e,
                Ok(None) => r == Ok::<Option<u64>, ParseError>(None) && final(self).pos() == old(self).pos(),
                Err(e) => r is Err && r->Err_0@ == e,
            },
            r matches Ok(Some(_)) ==> old(self).pos() < final(self).pos(),
            r is Err ==> final(self).pos() == old(self).pos(),
    {
        self.inner.number(u64::MAX)
    }

    pub fn parse_ident(&mut self) -> (r: Option<Ident>)
        requires
            old(self).wf(),
        ensures
            final(self).advanced(*old(self)),
            match spec_ident(old(self).src(), old(self).pos(), false) {
                Some((v, e)) => r is Some && r->0@ == v && final(self).pos() == e,
                None => r is None && final(self).pos() == old(self).pos(),
            },
            r is Some ==> old(self).pos() < final(self).pos(),
    {
        self.inner.ident(false)
    }

    pub fn expect_keyword(&mut self, keyword: &str) -> (r: Result<(), ParseError>)
        requires
            old(self).wf(),
        ensures
            final(self).advanced(*old(self)),
            match spec_expect_keyword(old(self).src(), old(self).pos(), keyword@) {
                Ok(e) => r is Ok && final(self).pos() == e,
                Err(e) => r is Err && r->Err_0@ == e,
            },
            r is Ok ==> old(self).pos() < final(self).pos(),
    {
        let at = self.inner.here();
        let message = String::from_str("expected keyword \"").concat(keyword).concat("\"");
        proof {
            assert(message@ == keyword_message(keyword@));
        }
        match self.parse_ident() {
            None => Err(ParseError::new_spanned(message, at, 0)),
            Some(ident) => if str_eq(ident.as_str(), keyword) {
                Ok(())
            } else {
                Err(ParseError::new_spanned(message, ident.location, ident.length))
            },
        }
    }

    pub fn take_keyword(&mut self, keyword: &str) -> (r: bool)
        requires
            old(self).wf(),
        ensures
            final(self).advanced(*old(self)),
            match spec_keyword(old(self).src(), old(self).pos(), keyword@) {
                Some(e) => r && final(self).pos() == e,
                None => !r && final(self).pos() == old(self).pos(),
            },
            r ==> old(self).pos() < final(self).pos(),
    {
        let saved = self.inner.cursor;
        match self.expect_keyword(keyword) {
            Ok(_) => true,
            Err(_) => {
                self.inner.cursor = saved;
                false
            },
        }
    }

    pub fn take_keyword_insensitive(&mut self, keyword: &str) -> (r: bool)
        requires
            old(self).wf(),
        ensures
            final(self).advanced(*old(self)),
            match spec_keyword_insensitive(old(self).src(), old(self).pos(), keyword@) {
                Some(e) => r && final(self).pos() == e,
                None => !r && final(self).pos() == old(self).pos(),
            },
            r ==> old(self).pos() < final(self).pos(),
    {
        let saved = self.inner.cursor;
        let Some(ident) = self.parse_ident() else {
            return false;
        };
        if !ident.eq_ignore_ascii_case(keyword) {
            self.inner.cursor = saved;
            false
        } else {
            true
        }
    }

    pub fn parse_model(&mut self) -> (r: Result<Option<Model>, ParseError>)
        requires
            old(self).wf(),
        ensures
            final(self).advanced(*old(self)),
            agrees_opt(r, spec_model(old(self).src(), old(self).pos()), old(self).pos(), final(self).pos()),
            r matches Ok(Some(_)) ==> old(self).pos() < final(self).pos(),
    {
        if !self.take_keyword("model") {
            return Ok(None);
        }
        let Some(name) = self.parse_ident() else {
            return Err(ParseError::new("expected model name", self.inner.here()));
        };
        self.inner.expect("{")?;
        let fields = self.parse_model_fields()?;
        self.inner.expect("}")?;
        Ok(Some(Model { name, fields }))
    }

    fn parse_model_fields(&mut self) -> (r: Result<Vec<ModelField>, ParseError>)
        requires
            old(self).wf(),
        ensures
            final(self).advanced(*old(self)),
            match spec_model_fields(old(self).src(), old(self).pos(), seq![]) {
                Ok((fs, p)) => r is Ok && r->Ok_0@.map_values(|f: ModelField| f@) == fs
                    && final(self).pos() == p,
                Err(e) => r is Err && r->Err_0@ == e,
            },
    {
        let ghost s = self.src();
        let ghost p0 = self.pos();
        let mut out: Vec<ModelField> = Vec::new();
        proof {
            reveal_strlit(",");
            assert(out@.map_values(|f: ModelField| f@) =~= seq![]);
        }
        loop
            invariant
                self.advanced(*old(self)),
                s == self.src(),
                p0 == old(self).pos(),
                spec_model_fields(s, self.pos(), out@.map_values(|f: ModelField| f@))
                    == spec_model_fields(s, p0, seq![]),
            decreases s.len() - self.pos(),
        {
            if self.inner.at_end() || self.inner.peek("}") {
                return Ok(out);
            }
            let ghost before = self.pos();
            let ghost prev = out@.map_values(|f: ModelField| f@);
            let field = self.parse_model_field()?;
            out.push(field);
            proof {
                assert(out@.map_values(|f: ModelField| f@) =~= prev.push(field@));
            }
            proof {
                reveal_strlit(",");
            }
            if !self.inner.take(",") {
                return Ok(out);
            }
            assert(before < self.pos());
        }
    }

    pub fn parse_model_field(&mut self) -> (r: Result<ModelField, ParseError>)
        requires
            old(self).wf(),
        ensures
            final(self).advanced(*old(self)),
            agrees(r, spec_model_field(old(self).src(), old(self).pos()), final(self).pos()),
    {
        let Some(name) = self.parse_ident() else {
            return Err(ParseError::new("expected field name", self.inner.here()));
        };
        self.inner.expect(":")?;
        let type_ = self.parse_field_type()?;
        Ok(ModelField { name, type_ })
    }

    pub fn parse_field_type(&mut self) -> (r: Result<FieldType, ParseError>)
        requires
            old(self).wf(),
        ensures
            final(self).advanced(*old(self)),
            agrees(r, spec_field_type(old(self).src(), old(self).pos()), final(self).pos()),
    {
        let Some(name) = self.parse_ident() else {
            return Err(ParseError::new("expected type name", self.inner.here()));
        };
        let ghost p1 = self.pos();
        let arg = if self.inner.take("(") {
            let at = self.inner.here();
            let value = match self.parse_number()? {
                Some(v) => v,
                None => return Err(ParseError::new("expected type argument", at)),
            };
            self.inner.expect(")")?;
            Some(value)
        } else {
            None
        };
        assert(spec_type_arg(self.src(), p1) == Ok::<(Option<u64>, int), crate::parser::ParseErrorV>((arg, self.pos())));
        let optional = self.inner.take("?");
        Ok(FieldType { name, arg, optional })
    }

    /// Identifiers separated by `,`, up to a `)` that is not taken.
    fn parse_ident_list(&mut self, missing: &str) -> (r: Result<Vec<Ident>, ParseError>)
        requires
            old(self).wf(),
        ensures
            final(self).advanced(*old(self)),
            match spec_ident_list(old(self).src(), old(self).pos(), missing@, seq![]) {
                Ok((ids, p)) => r is Ok && idents_view(r->Ok_0@) == ids && final(self).pos() == p,
                Err(e) => r is Err && r->Err_0@ == e,
            },
    {
        let ghost s = self.src();
        let ghost p0 = self.pos();
        let mut out: Vec<Ident> = Vec::new();
        proof {
            reveal_strlit(",");
            assert(idents_view(out@) =~= seq![]);
        }
        loop
            invariant
                self.advanced(*old(self)),
                s == self.src(),
                p0 == old(self).pos(),
                spec_ident_list(s, self.pos(), missing@, idents_view(out@))
                    == spec_ident_list(s, p0, missing@, seq![]),
            decreases s.len() - self.pos(),
        {
            if self.inner.at_end() || self.inner.peek(")") {
                return Ok(out);
            }
            let ghost before = self.pos();
            let ghost prev = idents_view(out@);
            let Some(ident) = self.parse_ident() else {
                return Err(ParseError::new(missing, self.inner.here()));
            };
            out.push(ident);
            proof {
                assert(idents_view(out@) =~= prev.push(ident@));
            }
            proof {
                reveal_strlit(",");
            }
            if !self.inner.take(",") {
                return Ok(out);
            }
            assert(before < self.pos());
        }
    }

    #[verifier::rlimit(40)]
    pub fn parse_query(&mut self) -> (r: Result<Option<Query>, ParseError>)
        requires
            old(self).wf(),
        ensures
            final(self).advanced(*old(self)),
            agrees_opt(r, spec_query(old(self).src(), old(self).pos()), old(self).pos(), final(self).pos()),
            r matches Ok(Some(_)) ==> old(self).pos() < final(self).pos(),
    {
        if !self.take_keyword("query") {
            return Ok(None);
        }
        let Some(name) = self.parse_ident() else {
            return Err(ParseError::new("Expected query name", self.inner.here()));
        };
        self.inner.expect("(")?;
        let args = self.parse_ident_list("expected identifier")?;
        self.inner.expect(")")?;
        self.inner.expect("{")?;
        let statement = self.parse_qql_statement()?;
        self.inner.expect("}")?;
        Ok(Some(Query { name, args, statement }))
    }

    pub fn parse_qql_statement(&mut self) -> (r: Result<Statement, ParseError>)
        requires
            old(self).wf(),
        ensures
            final(self).advanced(*old(self)),
            agrees(r, spec_statement(old(self).src(), old(self).pos()), final(self).pos()),
    {
        let action = self.parse_qql_action()?;
        let quantifier = self.parse_qql_quantifier()?;
        let selectors = self.parse_qql_selectors()?;
        let where_clause = self.parse_qql_where_clause()?;
        Ok(Statement { action, quantifier, selectors, where_clause })
    }

    pub fn parse_qql_action(&mut self) -> (r: Result<Action, ParseError>)
        requires
            old(self).wf(),
        ensures
            final(self).advanced(*old(self)),
            match spec_action(old(self).src(), old(self).pos()) {
                Ok((a, p)) => r == Ok::<Action, ParseError>(a) && final(self).pos() == p,
                Err(e) => r is Err && r->Err_0@ == e,
            },
    {
        let Some(ident) = self.parse_ident() else {
            return Err(ParseError::new("expected 'select' or 'update' or 'delete'", self.inner.here()));
        };
        if ident.eq_ignore_ascii_case("select") {
            Ok(Action::Select)
        } else if ident.eq_ignore_ascii_case("update") {
            Ok(Action::Update)
        } else if ident.eq_ignore_ascii_case("delete") {
            Ok(Action::Delete)
        } else {
            let m = String::from_str("Expected 'select', 'update', or 'delete'");
            Err(ParseError::new_spanned(m, ident.location, ident.length))
        }
    }

    pub fn parse_qql_selector(&mut self) -> (r: Result<Selector, ParseError>)
        requires
            old(self).wf(),
        ensures
            final(self).advanced(*old(self)),
            agrees(r, spec_selector(old(self).src(), old(self).pos()), final(self).pos()),
    {
        let Some(name) = self.parse_ident() else {
            return Err(ParseError::new("expected model name", self.inner.here()));
        };
        self.inner.expect("(")?;
        let fields = self.parse_ident_list("expected field name")?;
        self.inner.expect(")")?;
        Ok(Selector { name, fields })
    }

    /// One selector or more, separated by `,`.
    fn parse_qql_selectors(&mut self) -> (r: Result<Vec<Selector>, ParseError>)
        requires
            old(self).wf(),
        ensures
            final(self).advanced(*old(self)),
            match spec_selectors(old(self).src(), old(self).pos()) {
                Ok((sels, p)) => r is Ok && r->Ok_0@.map_values(|x: Selector| x@) == sels
                    && final(self).pos() == p,
                Err(e) => r is Err && r->Err_0@ == e,
            },
    {
        let ghost s = self.src();
        let first = self.parse_qql_selector()?;
        let mut out: Vec<Selector> = vec![first];
        let ghost p1 = self.pos();
        proof {
            reveal_strlit(",");
        }
        assert(out@.map_values(|x: Selector| x@) =~= seq![first@]);
        loop
            invariant
                self.advanced(*old(self)),
                s == self.src(),
                p1 <= self.pos(),
                spec_selectors_tail(s, self.pos(), out@.map_values(|x: Selector| x@))
                    == spec_selectors(s, old(self).pos()),
            decreases s.len() - self.pos(),
        {
            let ghost before = self.pos();
            let ghost prev = out@.map_values(|x: Selector| x@);
            proof {
                reveal_strlit(",");
            }
            if !self.inner.take(",") {
                return Ok(out);
            }
            let item = self.parse_qql_selector()?;
            out.push(item);
            proof {
                assert(out@.map_values(|x: Selector| x@) =~= prev.push(item@));
            }
            assert(before < self.pos());
        }
    }

    pub fn parse_qql_where_clause(&mut self) -> (r: Result<Option<WhereClause>, ParseError>)
        requires
            old(self).wf(),
        ensures
            final(self).advanced(*old(self)),
            agrees_opt(r, spec_where_clause(old(self).src(), old(self).pos()), old(self).pos(), final(self).pos()),
    {
        if !self.take_keyword_insensitive("where") {
            return Ok(None);
        }
        let expr = self.parse_qql_expression()?;
        Ok(Some(WhereClause { expr }))
    }
}

/// Whether every model and query of the maps is keyed by its own name.
pub open spec fn keyed_by_name(ms: Map<Seq<char>, ModelV>, qs: Map<Seq<char>, QueryV>) -> bool {
    &&& forall|k: Seq<char>| #[trigger] ms.contains_key(k) ==> ms[k].name.value == k
    &&& forall|k: Seq<char>| #[trigger] qs.contains_key(k) ==> qs[k].name.value == k
}

/// What parsing from `i` yields keeps models and queries keyed by name.
pub proof fn lemma_file_keyed_by_name(
    s: Seq<char>,
    i: int,
    ms: Map<Seq<char>, ModelV>,
    qs: Map<Seq<char>, QueryV>,
)
    requires
        keyed_by_name(ms, qs),
    ensures
        spec_file(s, i, ms, qs) matches Ok((ms2, qs2)) ==> keyed_by_name(ms2, qs2),
    decreases s.len() - i,
{
    if !crate::parser::spec_at_end(s, i) {
        match spec_model(s, i) {
            Ok(Some((m, p))) => if i < p <= s.len() {
                lemma_file_keyed_by_name(s, p, ms.insert(m.name.value, m), qs);
            },
            Ok(None) => match spec_query(s, i) {
                Ok(Some((q, p))) => if i < p <= s.len() {
                    lemma_file_keyed_by_name(s, p, ms, qs.insert(q.name.value, q));
                },
                _ => {},
            },
            _ => {},
        }
    }
}

impl QQLFile {
    /// Every model and query is keyed by its own name.
    pub open spec fn wf(&self) -> bool {
        keyed_by_name(model_map_contents(self.models), query_map_contents(self.queries))
    }

    /// Parses a whole QQL source.
    pub fn from_source(s: &str) -> (r: Result<QQLFile, ParseError>)
        ensures
            match crate::qql::grammar::spec_parse(s@) {
                Ok((ms, qs)) => r is Ok && model_map_contents(r->Ok_0.models) == ms
                    && query_map_contents(r->Ok_0.queries) == qs,
                Err(e) => r is Err && r->Err_0@ == e,
            },
            r is Ok ==> r->Ok_0.wf(),
    {
        let mut parser = QQLParser::new(s);
        parser.parse()
    }
}

} // verus!
