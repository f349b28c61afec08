//! The configuration parser.
use vstd::prelude::*;
use crate::config::ast::{
    lemma_values_view_prefix, value_map_contents, values_view, Function, Group, Value, ValueMap,
};
use crate::config::grammar::{
    char_code, escaped, hex4, hex_value, is_char_code, is_hex, is_path_char,
    is_path_start, path_tail, spec_args, spec_config, spec_entries, spec_function, spec_group,
    spec_path, spec_string, spec_string_body, spec_value,
};
use crate::parser::{
    agrees, agrees_opt, spec_ident, spec_number, string_of, Ident, ParseError, Parser,
};

verus! {

pub struct ConfigParser {
    pub inner: Parser,
}

/// A parsed configuration: its top-level entries.
pub struct Config {
    pub inner: Group,
}

impl ConfigParser {
    pub open spec fn src(&self) -> Seq<char> {
        self.inner.src()
    }

    pub open spec fn pos(&self) -> int {
        self.inner.pos()
    }

    pub open spec fn wf(&self) -> bool {
        self.inner.wf()
    }

    pub open spec fn advanced(&self, before: ConfigParser) -> bool {
        self.wf() && self.src() == before.src() && before.pos() <= self.pos()
    }

    pub fn new(contents: &str) -> (r: ConfigParser)
        ensures
            r.wf(),
            r.src() == contents@,
            r.pos() == 0,
    {
        ConfigParser { inner: Parser::new(contents) }
    }

    pub fn parse_ident(&mut self) -> (r: Option<Ident>)
        requires
            old(self).wf(),
        ensures
            final(self).advanced(*old(self)),
            match spec_ident(old(self).src(), old(self).pos(), true) {
                Some((v, e)) => r is Some && r->0@ == v && final(self).pos() == e,
                None => r is None && final(self).pos() == old(self).pos(),
            },
            r is Some ==> old(self).pos() < final(self).pos(),
    {
        self.inner.ident(true)
    }

    pub fn parse_int(&mut self) -> (r: Result<Option<i64>, ParseError>)
        requires
            old(self).wf(),
        ensures
            final(self).advanced(*old(self)),
            match spec_number(old(self).src(), old(self).pos(), i64::MAX as nat) {
                Ok(Some((v, e))) => r == Ok::<Option<i64>, ParseError>(Some(v as i64)) && final(self).pos() == e,
                Ok(None) => r == Ok::<Option<i64>, ParseError>(None) && final(self).pos() == old(self).pos(),
                Err(e) => r is Err && r->Err_0@ == e,
            },
            r is Err ==> final(self).pos() == old(self).pos(),
    {
        match self.inner.number(i64::MAX as u64) {
            Ok(Some(v)) => Ok(Some(v as i64)),
            Ok(None) => Ok(None),
            Err(e) => Err(e),
        }
    }

    pub fn parse_path(&mut self) -> (r: Option<String>)
        requires
            old(self).wf(),
        ensures
            final(self).advanced(*old(self)),
            match spec_path(old(self).src(), old(self).pos()) {
                Some((t, e)) => r is Some && r->0@ == t && final(self).pos() == e,
                None => r is None && final(self).pos() == old(self).pos(),
            },
    {
        proof {
            reveal_strlit("..");
            reveal_strlit(".");
            reveal_strlit("~");
            reveal_strlit("/");
        }
        let j = self.inner.next_token();
        let len = self.inner.source.len();
        let mut q = if self.inner.lit_at(j, "..") {
            j + 2
        } else if self.inner.lit_at(j, ".") {
            j + 1
        } else if self.inner.lit_at(j, "~") {
            j + 1
        } else if self.inner.lit_at(j, "/") {
            j
        } else {
            return None;
        };
        let ghost q0 = q;
        let mut done = false;
        while !done
            invariant
                j <= q <= len,
                len == self.src().len(),
                !done ==> path_tail(self.src(), q as int) == path_tail(self.src(), q0 as int),
                done ==> q == path_tail(self.src(), q0 as int),
            decreases len - q + (if done { 0int } else { 1int }),
        {
            if q < len && self.inner.source[q] == '/' {
                if q + 1 < len && is_path_start_char(self.inner.source[q + 1]) {
                    let mut e = q + 2;
                    let ghost s = self.src();
                    proof {
                        lemma_path_run(s, e as int);
                    }
                    while e < len && is_path_char_exec(self.inner.source[e])
                        invariant
                            q + 2 <= e <= len,
                            len == s.len(),
                            s == self.src(),
                            crate::config::grammar::path_run_end(s, e as int)
                                == crate::config::grammar::path_run_end(s, q + 2),
                        decreases len - e,
                    {
                        e = e + 1;
                    }
                    q = e;
                } else {
                    q = q + 1;
                    done = true;
                }
            } else {
                done = true;
            }
        }
        let value = string_of(self.inner.source.as_slice(), j, q);
        self.inner.cursor = q;
        Some(value)
    }

    pub fn parse_string(&mut self) -> (r: Result<Option<String>, ParseError>)
        requires
            old(self).wf(),
        ensures
            final(self).advanced(*old(self)),
            match spec_string(old(self).src(), old(self).pos()) {
                Ok(Some((t, e))) => r is Ok && r->Ok_0 is Some && r->Ok_0->0@ == t && final(self).pos() == e,
                Ok(None) => r is Ok && r->Ok_0 is None && final(self).pos() == old(self).pos(),
                Err(e) => r is Err && r->Err_0@ == e,
            },
            r is Err ==> final(self).pos() == old(self).pos(),
    {
        let j = self.inner.next_token();
        let len = self.inner.source.len();
        if j >= len || !(self.inner.source[j] == '"' || self.inner.source[j] == '\'') {
            return Ok(None);
        }
        let ghost s = self.src();
        let quote = self.inner.source[j];
        let mut q = j + 1;
        let mut content: Vec<char> = Vec::new();
        loop
            invariant
                j < q <= len,
                old(self).pos() <= j,
                j == crate::parser::skip_space(s, old(self).pos()),
                len == s.len(),
                s == self.src(),
                self.advanced(*old(self)),
                self.pos() == old(self).pos(),
                quote == s[j as int],
                quote == '"' || quote == '\'',
                spec_string_body(s, q as int, quote, content@) == spec_string_body(s, j + 1, quote, seq![]),
            decreases len - q,
        {
            if q >= len {
                let quoted = string_of(self.inner.source.as_slice(), j, j + 1);
                assert(quoted@ =~= seq![quote]);
                let m = String::from_str("expected '").concat(quoted.as_str()).concat("'");
                return Err(ParseError::new_spanned(m, self.inner.at(q), 0));
            }
            let c = self.inner.source[q];
            if c == quote {
                self.inner.cursor = q + 1;
                let out = string_of(content.as_slice(), 0, content.len());
                assert(content@.subrange(0, content@.len() as int) =~= content@);
                return Ok(Some(out));
            }
            if c != '\\' {
                content.push(c);
                q = q + 1;
                continue;
            }
            if q + 1 >= len {
                return Err(
                    ParseError::new(
                        "unterminated string, expected escape character after '\\'",
                        self.inner.at(q + 1),
                    ),
                );
            }
            let e = self.inner.source[q + 1];
            if e == 'u' {
                if len - q < 6 {
                    let m = String::from_str("Expected 4 hex-digits after \\u");
                    return Err(ParseError::new_spanned(m, self.inner.at(q), self.inner.bytes(q, q + 2)));
                }
                let digits = string_of(self.inner.source.as_slice(), q + 2, q + 6);
                let src = &self.inner.source;
                if !(is_hex_char(src[q + 2]) && is_hex_char(src[q + 3]) && is_hex_char(src[q + 4])
                    && is_hex_char(src[q + 5])) {
                    let m = String::from_str("Expected 4 hex-digits after \\u, instead found \"").concat(
                        digits.as_str(),
                    ).concat("\"");
                    return Err(ParseError::new_spanned(m, self.inner.at(q), self.inner.bytes(q, q + 6)));
                }
                let code = hex_digit(src[q + 2]) * 4096 + hex_digit(src[q + 3]) * 256 + hex_digit(src[q + 4])
                    * 16 + hex_digit(src[q + 5]);
                match char_from_u32(code) {
                    Some(ch) => {
                        proof {
                            assert(code as nat == hex4(s, q + 2));
                            assert(char_code(ch) == hex4(s, q + 2));
                            let w = crate::config::grammar::char_with_code(hex4(s, q + 2));
                            assert(char_code(w) == hex4(s, q + 2));
                            crate::config::grammar::lemma_char_code_injective(w, ch);
                        }
                        content.push(ch);
                        q = q + 6;
                    },
                    None => {
                        let m = String::from_str("Invalid unicode escape, ").concat(digits.as_str()).concat(
                            " is not a valid character",
                        );
                        return Err(ParseError::new_spanned(m, self.inner.at(q), self.inner.bytes(q, q + 6)));
                    },
                }
            } else {
                match escaped_char(e) {
                    Some(x) => {
                        content.push(x);
                        q = q + 2;
                    },
                    None => {
                        let m = String::from_str("invalid escape character, expected ");
                        return Err(ParseError::new_spanned(m, self.inner.at(q), self.inner.bytes(q, q + 2)));
                    },
                }
            }
        }
    }
}

impl ConfigParser {
    pub fn parse_value(&mut self) -> (r: Result<Value, ParseError>)
        requires
            old(self).wf(),
        ensures
            final(self).advanced(*old(self)),
            agrees(r, spec_value(old(self).src(), old(self).pos()), final(self).pos()),
        decreases old(self).src().len() - old(self).pos(), 3nat,
    {
        if let Some(group) = self.parse_group()? {
            Ok(Value::Group(group))
        } else if let Some(string) = self.parse_string()? {
            Ok(Value::String(string))
        } else if let Some(n) = self.parse_int()? {
            Ok(Value::Int(n))
        } else if let Some(function) = self.parse_function()? {
            Ok(Value::Function(function))
        } else if let Some(path) = self.parse_path() {
            Ok(Value::Path(path))
        } else {
            Err(ParseError::new("Expected value: group, string, integer, function, or path", self.inner.here()))
        }
    }

    pub fn parse_group(&mut self) -> (r: Result<Option<Group>, ParseError>)
        requires
            old(self).wf(),
        ensures
            final(self).advanced(*old(self)),
            agrees_opt(r, spec_group(old(self).src(), old(self).pos()), old(self).pos(), final(self).pos()),
        decreases old(self).src().len() - old(self).pos(), 2nat,
    {
        proof {
            reveal_strlit("{");
        }
        if !self.inner.take("{") {
            return Ok(None);
        }
        let inner = self.parse_entries(true)?;
        self.inner.expect("}")?;
        Ok(Some(Group { inner }))
    }

    /// `name value` entries, up to the end or, when `nested`, up to a `}`.
    fn parse_entries(&mut self, nested: bool) -> (r: Result<ValueMap, ParseError>)
        requires
            old(self).wf(),
        ensures
            final(self).advanced(*old(self)),
            match spec_entries(old(self).src(), old(self).pos(), Map::empty(), nested) {
                Ok((m, p)) => r is Ok && value_map_contents(r->Ok_0) == m && final(self).pos() == p,
                Err(e) => r is Err && r->Err_0@ == e,
            },
        decreases old(self).src().len() - old(self).pos(), 4nat,
    {
        let ghost s = self.src();
        let ghost p0 = self.pos();
        let mut out = ValueMap::new();
        loop
            invariant
                self.advanced(*old(self)),
                s == self.src(),
                p0 == old(self).pos(),
                spec_entries(s, self.pos(), value_map_contents(out), nested) == spec_entries(
                    s,
                    p0,
                    Map::empty(),
                    nested,
                ),
            decreases s.len() - self.pos(),
        {
            if self.inner.at_end() || (nested && self.inner.peek("}")) {
                return Ok(out);
            }
            let ghost before = self.pos();
            let Some(name) = self.parse_ident() else {
                return Err(ParseError::new("Expected field name", self.inner.here()));
            };
            let value = self.parse_value()?;
            out.insert(name.value, value);
            assert(before < self.pos());
        }
    }

    pub fn parse_function(&mut self) -> (r: Result<Option<Function>, ParseError>)
        requires
            old(self).wf(),
        ensures
            final(self).advanced(*old(self)),
            match spec_function(old(self).src(), old(self).pos()) {
                Ok(Some(((name, args), p))) => r is Ok && r->Ok_0 is Some && r->Ok_0->0.name@ == name
                    && values_view(r->Ok_0->0.args@, r->Ok_0->0.args@.len()) == args && final(self).pos() == p,
                Ok(None) => r is Ok && r->Ok_0 is None && final(self).pos() == old(self).pos(),
                Err(e) => r is Err && r->Err_0@ == e,
            },
        decreases old(self).src().len() - old(self).pos(), 2nat,
    {
        let Some(name) = self.parse_ident() else {
            return Ok(None);
        };
        self.inner.expect("(")?;
        let args = self.parse_args()?;
        self.inner.expect(")")?;
        Ok(Some(Function { name, args }))
    }

    /// Values separated by `,`, up to a `)` that is not taken.
    fn parse_args(&mut self) -> (r: Result<Vec<Value>, ParseError>)
        requires
            old(self).wf(),
        ensures
            final(self).advanced(*old(self)),
            match spec_args(old(self).src(), old(self).pos(), seq![]) {
                Ok((args, p)) => r is Ok && values_view(r->Ok_0@, r->Ok_0@.len()) == args && final(self).pos() == p,
                Err(e) => r is Err && r->Err_0@ == e,
            },
        decreases old(self).src().len() - old(self).pos(), 5nat,
    {
        let ghost s = self.src();
        let ghost p0 = self.pos();
        let mut out: Vec<Value> = Vec::new();
        loop
            invariant
                self.advanced(*old(self)),
                s == self.src(),
                p0 == old(self).pos(),
                spec_args(s, self.pos(), values_view(out@, out@.len())) == spec_args(s, p0, seq![]),
                out@.len() > 0 ==> p0 < self.pos(),
            decreases s.len() - self.pos(),
        {
            if self.inner.at_end() || self.inner.peek(")") {
                return Ok(out);
            }
            let ghost before = self.pos();
            let ghost prev = out@;
            let value = self.parse_value()?;
            out.push(value);
            proof {
                reveal_strlit(",");
                assert(prev.subrange(0, prev.len() as int) =~= out@.subrange(0, prev.len() as int));
                lemma_values_view_prefix(prev, out@, prev.len());
            }
            if !self.inner.take(",") {
                return Ok(out);
            }
            assert(before < self.pos());
        }
    }
}

impl Config {
    /// Parses a configuration source: `name value` entries up to its end.
    pub fn from_source(contents: &str) -> (r: Result<Config, ParseError>)
        ensures
            match spec_config(contents@) {
                Ok(m) => r is Ok && r->Ok_0.inner@ == m,
                Err(e) => r is Err && r->Err_0@ == e,
            },
    {
        let mut parser = ConfigParser::new(contents);
        let inner = parser.parse_entries(false)?;
        Ok(Config { inner: Group { inner } })
    }
}

proof fn lemma_path_run(s: Seq<char>, e: int)
    requires
        0 <= e <= s.len(),
    ensures
        e <= crate::config::grammar::path_run_end(s, e) <= s.len(),
    decreases s.len() - e,
{
    if e < s.len() && is_path_char(s[e]) {
        lemma_path_run(s, e + 1);
    }
}

fn is_path_start_char(c: char) -> (r: bool)
    ensures
        r == is_path_start(c),
{
    ('a' <= c && c <= 'z') || ('A' <= c && c <= 'Z') || ('0' <= c && c <= '9') || c == '_' || c == '.'
}

fn is_path_char_exec(c: char) -> (r: bool)
    ensures
        r == is_path_char(c),
{
    is_path_start_char(c) || c == ' '
}

fn is_hex_char(c: char) -> (r: bool)
    ensures
        r == is_hex(c),
{
    ('0' <= c && c <= '9') || ('a' <= c && c <= 'f') || ('A' <= c && c <= 'F')
}

fn hex_digit(c: char) -> (r: u32)
    requires
        is_hex(c),
    ensures
        r == hex_value(c),
        r < 16,
{
    if '0' <= c && c <= '9' {
        (c as u32) - ('0' as u32)
    } else if 'a' <= c && c <= 'f' {
        (c as u32) - ('a' as u32) + 10
    } else {
        (c as u32) - ('A' as u32) + 10
    }
}

fn escaped_char(c: char) -> (r: Option<char>)
    ensures
        r == escaped(c),
{
    if c == 'n' {
        Some('\n')
    } else if c == 'r' {
        Some('\r')
    } else if c == 't' {
        Some('\t')
    } else if c == '\\' {
        Some('\\')
    } else if c == '\'' {
        Some('\'')
    } else if c == '"' {
        Some('"')
    } else {
        None
    }
}

/// Relies on char::from_u32: the character of that code, where there is one.
#[verifier::external_body]
fn char_from_u32(code: u32) -> (r: Option<char>)
    ensures
        is_char_code(code as nat) <==> r is Some,
        r is Some ==> char_code(r->0) == code as nat,
{
    char::from_u32(code)
}

} // verus!
