//! The configuration grammar, stated over the source characters.
use vstd::prelude::*;
use crate::config::ast::ValueV;
use crate::parser::{
    err_at, expected_message, is_alpha, is_digit, lit_at, skip_space, spec_at_end, spec_expect,
    spec_ident, spec_number, spec_peek, spec_take, IdentV, ParseErrorV,
};

verus! {

pub open spec fn is_hex(c: char) -> bool {
    is_digit(c) || ('a' <= c && c <= 'f') || ('A' <= c && c <= 'F')
}

pub open spec fn hex_value(c: char) -> nat {
    if is_digit(c) {
        (c as int - '0' as int) as nat
    } else if 'a' <= c && c <= 'f' {
        (c as int - 'a' as int + 10) as nat
    } else {
        (c as int - 'A' as int + 10) as nat
    }
}

/// Whether the four characters at `q` are hexadecimal digits.
pub open spec fn hex4_at(s: Seq<char>, q: int) -> bool {
    is_hex(s[q]) && is_hex(s[q + 1]) && is_hex(s[q + 2]) && is_hex(s[q + 3])
}

/// The number that the four hexadecimal digits at `q` write.
pub open spec fn hex4(s: Seq<char>, q: int) -> nat {
    hex_value(s[q]) * 4096 + hex_value(s[q + 1]) * 256 + hex_value(s[q + 2]) * 16 + hex_value(s[q + 3])
}

/// Whether `n` is the code of a character: not a surrogate, not past U+10FFFF.
pub open spec fn is_char_code(n: nat) -> bool {
    n < 0xD800 || (0xE000 <= n && n < 0x110000)
}

pub open spec fn char_code(c: char) -> nat {
    c as nat
}

pub proof fn lemma_char_code_injective(a: char, b: char)
    requires
        char_code(a) == char_code(b),
    ensures
        a == b,
{
}

/// The character whose code is `n`.
pub open spec fn char_with_code(n: nat) -> char {
    choose|c: char| #[trigger] char_code(c) == n
}

/// What `\c` stands for, for the escapes other than `\u`.
pub open spec fn escaped(c: char) -> Option<char> {
    if c == 'n' {
        Some('\n')
    } else if c == 'r' {
        Some('\r')
    } else if c == 't' {
        Some('\t')
    } else if c == '\\' {
        Some('\\')
    } else if c == '\'' {
        Some('\'')
    } else if c == '"' {
        Some('"')
    } else {
        None
    }
}

pub open spec fn bad_hex_message(digits: Seq<char>) -> Seq<char> {
    "Expected 4 hex-digits after \\u, instead found \""@ + digits + "\""@
}

pub open spec fn bad_code_message(digits: Seq<char>) -> Seq<char> {
    "Invalid unicode escape, "@ + digits + " is not a valid character"@
}

/// The rest of a string literal from `q`, up to the closing `quote`, with
/// `acc` read so far: its content, and where the literal ends.
pub open spec fn spec_string_body(s: Seq<char>, q: int, quote: char, acc: Seq<char>) -> Result<
    (Seq<char>, int),
    ParseErrorV,
>
    decreases s.len() - q,
{
    if q < 0 || q >= s.len() {
        Err(err_at(s, expected_message(seq![quote]), q, 0))
    } else if s[q] == quote {
        Ok((acc, q + 1))
    } else if s[q] != '\\' {
        spec_string_body(s, q + 1, quote, acc.push(s[q]))
    } else if q + 1 >= s.len() {
        Err(err_at(s, "unterminated string, expected escape character after '\\'"@, q + 1, 0))
    } else if s[q + 1] == 'u' {
        if q + 6 > s.len() {
            Err(err_at(s, "Expected 4 hex-digits after \\u"@, q, 2))
        } else if !hex4_at(s, q + 2) {
            Err(err_at(s, bad_hex_message(s.subrange(q + 2, q + 6)), q, 6))
        } else if !is_char_code(hex4(s, q + 2)) {
            Err(err_at(s, bad_code_message(s.subrange(q + 2, q + 6)), q, 6))
        } else {
            spec_string_body(s, q + 6, quote, acc.push(char_with_code(hex4(s, q + 2))))
        }
    } else {
        match escaped(s[q + 1]) {
            Some(c) => spec_string_body(s, q + 2, quote, acc.push(c)),
            None => Err(err_at(s, "invalid escape character, expected "@, q, 2)),
        }
    }
}

/// A string literal in `"` or `'`, or nothing where none starts at `i`.
pub open spec fn spec_string(s: Seq<char>, i: int) -> Result<Option<(Seq<char>, int)>, ParseErrorV> {
    let j = skip_space(s, i);
    if 0 <= j < s.len() && (s[j] == '"' || s[j] == '\'') {
        match spec_string_body(s, j + 1, s[j], seq![]) {
            Err(e) => Err(e),
            Ok(x) => Ok(Some(x)),
        }
    } else {
        Ok(None)
    }
}

pub open spec fn is_path_start(c: char) -> bool {
    is_alpha(c) || is_digit(c) || c == '_' || c == '.'
}

pub open spec fn is_path_char(c: char) -> bool {
    is_path_start(c) || c == ' '
}

pub open spec fn path_run_end(s: Seq<char>, q: int) -> int
    decreases s.len() - q,
{
    if 0 <= q < s.len() && is_path_char(s[q]) {
        path_run_end(s, q + 1)
    } else {
        q
    }
}

/// The `/`-separated components from `q` on, and where they end.
pub open spec fn path_tail(s: Seq<char>, q: int) -> int
    decreases s.len() - q,
{
    if 0 <= q < s.len() && s[q] == '/' {
        if q + 1 < s.len() && is_path_start(s[q + 1]) {
            let e = path_run_end(s, q + 2);
            if q < e <= s.len() {
                path_tail(s, e)
            } else {
                q
            }
        } else {
            q + 1
        }
    } else {
        q
    }
}

/// A path: `..`, `.`, `~` or `/` to start, then `/`-separated components.
pub open spec fn spec_path(s: Seq<char>, i: int) -> Option<(Seq<char>, int)> {
    let j = skip_space(s, i);
    let start = if lit_at(s, j, ".."@) {
        Some(j + 2)
    } else if lit_at(s, j, "."@) {
        Some(j + 1)
    } else if lit_at(s, j, "~"@) {
        Some(j + 1)
    } else if lit_at(s, j, "/"@) {
        Some(j)
    } else {
        None
    };
    match start {
        None => None,
        Some(q) => {
            let e = path_tail(s, q);
            Some((s.subrange(j, e), e))
        },
    }
}

pub open spec fn value_message() -> Seq<char> {
    "Expected value: group, string, integer, function, or path"@
}

/// A value: a group, a string, an integer, a call or a path, tried in that order.
pub open spec fn spec_value(s: Seq<char>, i: int) -> Result<(ValueV, int), ParseErrorV>
    decreases s.len() - i, 3nat,
{
    match spec_group(s, i) {
        Err(e) => Err(e),
        Ok(Some((g, p))) => Ok((ValueV::Group(g), p)),
        Ok(None) => match spec_string(s, i) {
            Err(e) => Err(e),
            Ok(Some((t, p))) => Ok((ValueV::String(t), p)),
            Ok(None) => match spec_number(s, i, i64::MAX as nat) {
                Err(e) => Err(e),
                Ok(Some((n, p))) => Ok((ValueV::Int(n as i64), p)),
                Ok(None) => match spec_function(s, i) {
                    Err(e) => Err(e),
                    Ok(Some(((name, args), p))) => Ok((ValueV::Function(name, args), p)),
                    Ok(None) => match spec_path(s, i) {
                        Some((t, p)) => Ok((ValueV::Path(t), p)),
                        None => Err(err_at(s, value_message(), i, 0)),
                    },
                },
            },
        },
    }
}

/// A group in braces, or nothing where no `{` comes next.
pub open spec fn spec_group(s: Seq<char>, i: int) -> Result<Option<(Map<Seq<char>, ValueV>, int)>, ParseErrorV>
    decreases s.len() - i, 2nat,
{
    match spec_take(s, i, "{"@) {
        None => Ok(None),
        Some(p1) => if i < p1 <= s.len() {
            match spec_entries(s, p1, Map::empty(), true) {
                Err(e) => Err(e),
                Ok((m, p2)) => match spec_expect(s, p2, "}"@) {
                    Err(e) => Err(e),
                    Ok(p3) => Ok(Some((m, p3))),
                },
            }
        } else {
            Ok(None)
        },
    }
}

/// `name value` entries added to `acc`, up to the end, or, when `nested`,
/// up to a `}` that is not taken.
pub open spec fn spec_entries(s: Seq<char>, i: int, acc: Map<Seq<char>, ValueV>, nested: bool) -> Result<
    (Map<Seq<char>, ValueV>, int),
    ParseErrorV,
>
    decreases s.len() - i, 4nat,
{
    if spec_at_end(s, i) || (nested && spec_peek(s, i, "}"@)) {
        Ok((acc, i))
    } else {
        match spec_ident(s, i, true) {
            None => Err(err_at(s, "Expected field name"@, i, 0)),
            Some((name, p1)) => if i < p1 <= s.len() {
                match spec_value(s, p1) {
                    Err(e) => Err(e),
                    Ok((v, p2)) => if p1 <= p2 <= s.len() {
                        spec_entries(s, p2, acc.insert(name.value, v), nested)
                    } else {
                        Ok((acc, i))
                    },
                }
            } else {
                Ok((acc, i))
            },
        }
    }
}

/// A call `name(args...)`, or nothing where no identifier comes next.
pub open spec fn spec_function(s: Seq<char>, i: int) -> Result<Option<((IdentV, Seq<ValueV>), int)>, ParseErrorV>
    decreases s.len() - i, 2nat,
{
    match spec_ident(s, i, true) {
        None => Ok(None),
        Some((name, p1)) => match spec_expect(s, p1, "("@) {
            Err(e) => Err(e),
            Ok(p2) => if i < p2 <= s.len() {
                match spec_args(s, p2, seq![]) {
                    Err(e) => Err(e),
                    Ok((args, p3)) => match spec_expect(s, p3, ")"@) {
                        Err(e) => Err(e),
                        Ok(p4) => Ok(Some(((name, args), p4))),
                    },
                }
            } else {
                Ok(None)
            },
        },
    }
}

/// Values separated by `,`, up to a `)` that is not taken.
pub open spec fn spec_args(s: Seq<char>, i: int, acc: Seq<ValueV>) -> Result<(Seq<ValueV>, int), ParseErrorV>
    decreases s.len() - i, 5nat,
{
    if spec_at_end(s, i) || spec_peek(s, i, ")"@) {
        Ok((acc, i))
    } else {
        match spec_value(s, i) {
            Err(e) => Err(e),
            Ok((v, p1)) => match spec_take(s, p1, ","@) {
                None => Ok((acc.push(v), p1)),
                Some(p2) => if i < p2 <= s.len() {
                    spec_args(s, p2, acc.push(v))
                } else {
                    Ok((acc.push(v), p2))
                },
            },
        }
    }
}

/// What parsing a configuration source yields: its top-level entries.
pub open spec fn spec_config(s: Seq<char>) -> Result<Map<Seq<char>, ValueV>, ParseErrorV> {
    match spec_entries(s, 0, Map::empty(), false) {
        Err(e) => Err(e),
        Ok((m, _)) => Ok(m),
    }
}

} // verus!
