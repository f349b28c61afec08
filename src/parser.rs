//! The parsing cursor shared by the configuration language and QQL:
//! a source held as characters, a position, whitespace skipping between
//! tokens, and the identifiers and errors that parsing produces.
use vstd::prelude::*;

verus! {

/// A position in the source: its offset in bytes of UTF-8 from the start.
#[derive(Clone, Copy, Debug, PartialEq, Eq, Structural)]
pub struct Location {
    pub index: usize,
}

/// An identifier together with where it was found: its location and its
/// length in bytes.
///
/// Two identifiers are equal when their text is equal, wherever they stand.
#[derive(Clone, Debug)]
pub struct Ident {
    pub value: String,
    pub location: Location,
    pub length: usize,
}

/// What an identifier is, as a mathematical value.
pub ghost struct IdentV {
    pub value: Seq<char>,
    pub index: nat,
    pub length: nat,
}

impl View for Ident {
    type V = IdentV;

    open spec fn view(&self) -> IdentV {
        IdentV { value: self.value@, index: self.location.index as nat, length: self.length as nat }
    }
}

impl PartialEq for Ident {
    fn eq(&self, o: &Ident) -> (r: bool)
        ensures
            r == (self.value@ == o.value@),
    {
        str_eq(self.value.as_str(), o.value.as_str())
    }
}

impl vstd::std_specs::cmp::PartialEqSpecImpl for Ident {
    open spec fn obeys_eq_spec() -> bool {
        true
    }

    open spec fn eq_spec(&self, o: &Ident) -> bool {
        self.value@ == o.value@
    }
}

impl Ident {
    /// A copy of the identifier.
    pub fn copy(&self) -> (r: Ident)
        ensures
            r@ == self@,
    {
        Ident { value: self.value.clone(), location: self.location, length: self.length }
    }

    pub fn as_str(&self) -> (r: &str)
        ensures
            r@ == self.value@,
    {
        self.value.as_str()
    }

    /// Compares the text with `other`, ignoring ASCII case.
    pub fn eq_ignore_ascii_case(&self, other: &str) -> (r: bool)
        ensures
            r == eq_ignore_case(self.value@, other@),
    {
        str_eq_ignore_case(self.value.as_str(), other)
    }
}

/// A failure to parse: what was expected, where, and over how many bytes.
#[derive(Clone, Debug)]
pub struct ParseError {
    pub message: String,
    pub location: Location,
    pub length: usize,
}

pub ghost struct ParseErrorV {
    pub message: Seq<char>,
    pub index: nat,
    pub length: nat,
}

impl View for ParseError {
    type V = ParseErrorV;

    open spec fn view(&self) -> ParseErrorV {
        ParseErrorV {
            message: self.message@,
            index: self.location.index as nat,
            length: self.length as nat,
        }
    }
}

pub open spec fn perr(message: Seq<char>, index: int, length: int) -> ParseErrorV {
    ParseErrorV { message, index: index as nat, length: length as nat }
}

impl ParseError {
    pub fn new(message: &str, location: Location) -> (r: ParseError)
        ensures
            r@ == perr(message@, location.index as int, 0),
    {
        ParseError { message: String::from_str(message), location, length: 0 }
    }

    pub fn new_spanned(message: String, location: Location, length: usize) -> (r: ParseError)
        ensures
            r@ == perr(message@, location.index as int, length as int),
    {
        ParseError { message, location, length }
    }
}

// ---------------------------------------------------------------------------
// Characters
pub open spec fn is_space(c: char) -> bool {
    c == ' ' || c == '\t' || c == '\n' || c == '\r' || c == '\x0C'
}

pub open spec fn is_digit(c: char) -> bool {
    '0' <= c && c <= '9'
}

pub open spec fn is_alpha(c: char) -> bool {
    ('a' <= c && c <= 'z') || ('A' <= c && c <= 'Z')
}

pub open spec fn is_ident_start(c: char, dash: bool) -> bool {
    is_alpha(c) || c == '_' || (dash && c == '-')
}

pub open spec fn is_ident_char(c: char) -> bool {
    is_alpha(c) || is_digit(c) || c == '_'
}

pub open spec fn is_digit_or_sep(c: char) -> bool {
    is_digit(c) || c == '_'
}

pub open spec fn lower(c: char) -> char {
    if 'A' <= c && c <= 'Z' {
        ((c as u8) + 32) as char
    } else {
        c
    }
}

pub open spec fn eq_ignore_case(a: Seq<char>, b: Seq<char>) -> bool {
    a.len() == b.len() && forall|i: int| 0 <= i < a.len() ==> lower(#[trigger] a[i]) == lower(b[i])
}

pub fn is_space_char(c: char) -> (r: bool)
    ensures
        r == is_space(c),
{
    c == ' ' || c == '\t' || c == '\n' || c == '\r' || c == '\x0C'
}

pub fn is_digit_char(c: char) -> (r: bool)
    ensures
        r == is_digit(c),
{
    '0' <= c && c <= '9'
}

fn is_alpha_char(c: char) -> (r: bool)
    ensures
        r == is_alpha(c),
{
    ('a' <= c && c <= 'z') || ('A' <= c && c <= 'Z')
}

fn lower_char(c: char) -> (r: char)
    ensures
        r == lower(c),
{
    if 'A' <= c && c <= 'Z' {
        ((c as u8) + 32) as char
    } else {
        c
    }
}

pub fn str_eq(a: &str, b: &str) -> (r: bool)
    ensures
        r == (a@ == b@),
{
    let n = a.unicode_len();
    if n != b.unicode_len() {
        return false;
    }
    let mut i: usize = 0;
    while i < n
        invariant
            n == a@.len(),
            n == b@.len(),
            i <= n,
            forall|j: int| 0 <= j < i ==> a@[j] == b@[j],
        decreases n - i,
    {
        if a.get_char(i) != b.get_char(i) {
            return false;
        }
        i = i + 1;
    }
    assert(a@ =~= b@);
    true
}

pub fn str_eq_ignore_case(a: &str, b: &str) -> (r: bool)
    ensures
        r == eq_ignore_case(a@, b@),
{
    let n = a.unicode_len();
    if n != b.unicode_len() {
        return false;
    }
    let mut i: usize = 0;
    while i < n
        invariant
            n == a@.len(),
            n == b@.len(),
            i <= n,
            forall|j: int| 0 <= j < i ==> lower(a@[j]) == lower(b@[j]),
        decreases n - i,
    {
        if lower_char(a.get_char(i)) != lower_char(b.get_char(i)) {
            return false;
        }
        i = i + 1;
    }
    true
}


/// How many bytes UTF-8 takes for `c`.
pub open spec fn char_len(c: char) -> nat {
    if (c as nat) < 0x80 {
        1
    } else if (c as nat) < 0x800 {
        2
    } else if (c as nat) < 0x10000 {
        3
    } else {
        4
    }
}

/// How many bytes UTF-8 takes for `t`.
pub open spec fn utf8_len(t: Seq<char>) -> nat
    decreases t.len(),
{
    if t.len() == 0 {
        0
    } else {
        utf8_len(t.drop_last()) + char_len(t.last())
    }
}

/// The byte offset of the character position `i` of `s`.
pub open spec fn byte_offset(s: Seq<char>, i: int) -> nat {
    utf8_len(s.subrange(0, i))
}

/// An error at the character position `i`, spanning `n` characters, with
/// both given in bytes.
pub open spec fn err_at(s: Seq<char>, message: Seq<char>, i: int, n: int) -> ParseErrorV {
    perr(message, byte_offset(s, i) as int, byte_offset(s, i + n) - byte_offset(s, i))
}

pub proof fn lemma_byte_offset_monotone(s: Seq<char>, i: int, j: int)
    requires
        0 <= i <= j <= s.len(),
    ensures
        byte_offset(s, i) <= byte_offset(s, j),
    decreases j - i,
{
    if i < j {
        assert(s.subrange(0, j).drop_last() =~= s.subrange(0, j - 1));
        lemma_byte_offset_monotone(s, i, j - 1);
    }
}

/// The first position at or after `i` that is not whitespace.
pub open spec fn skip_space(s: Seq<char>, i: int) -> int
    decreases s.len() - i,
{
    if 0 <= i < s.len() && is_space(s[i]) {
        skip_space(s, i + 1)
    } else {
        i
    }
}

/// The end of the run of identifier characters that starts at `i`.
pub open spec fn ident_end(s: Seq<char>, i: int) -> int
    decreases s.len() - i,
{
    if 0 <= i < s.len() && is_ident_char(s[i]) {
        ident_end(s, i + 1)
    } else {
        i
    }
}

/// The end of the run of digits and underscores that starts at `i`.
pub open spec fn digits_end(s: Seq<char>, i: int) -> int
    decreases s.len() - i,
{
    if 0 <= i < s.len() && is_digit_or_sep(s[i]) {
        digits_end(s, i + 1)
    } else {
        i
    }
}

pub proof fn lemma_skip_space_bounds(s: Seq<char>, i: int)
    requires
        0 <= i <= s.len(),
    ensures
        i <= skip_space(s, i) <= s.len(),
    decreases s.len() - i,
{
    if i < s.len() && is_space(s[i]) {
        lemma_skip_space_bounds(s, i + 1);
    }
}

pub proof fn lemma_ident_end_bounds(s: Seq<char>, i: int)
    requires
        0 <= i <= s.len(),
    ensures
        i <= ident_end(s, i) <= s.len(),
    decreases s.len() - i,
{
    if i < s.len() && is_ident_char(s[i]) {
        lemma_ident_end_bounds(s, i + 1);
    }
}

pub proof fn lemma_digits_end_bounds(s: Seq<char>, i: int)
    requires
        0 <= i <= s.len(),
    ensures
        i <= digits_end(s, i) <= s.len(),
    decreases s.len() - i,
{
    if i < s.len() && is_digit_or_sep(s[i]) {
        lemma_digits_end_bounds(s, i + 1);
    }
}

/// Whether the literal `t` stands in `s` at `j`.
pub open spec fn lit_at(s: Seq<char>, j: int, t: Seq<char>) -> bool {
    0 <= j && j + t.len() <= s.len() && s.subrange(j, j + t.len()) == t
}

/// Whether only whitespace is left from `i` on.
pub open spec fn spec_at_end(s: Seq<char>, i: int) -> bool {
    skip_space(s, i) >= s.len()
}

/// Whether the token `t` comes next, after whitespace.
pub open spec fn spec_peek(s: Seq<char>, i: int, t: Seq<char>) -> bool {
    lit_at(s, skip_space(s, i), t)
}

/// Where taking the token `t` at `i` leaves the cursor, if it comes next.
pub open spec fn spec_take(s: Seq<char>, i: int, t: Seq<char>) -> Option<int> {
    if spec_peek(s, i, t) {
        Some(skip_space(s, i) + t.len())
    } else {
        None
    }
}

pub open spec fn expected_message(t: Seq<char>) -> Seq<char> {
    "expected '"@ + t + "'"@
}

/// Taking the token `t` at `i`, where a miss is an error at `i`.
pub open spec fn spec_expect(s: Seq<char>, i: int, t: Seq<char>) -> Result<int, ParseErrorV> {
    match spec_take(s, i, t) {
        Some(j) => Ok(j),
        None => Err(err_at(s, expected_message(t), i, 0)),
    }
}

/// The identifier that comes next, after whitespace, and where it ends.
/// With `dash`, an identifier may also start with `-`.
pub open spec fn spec_ident(s: Seq<char>, i: int, dash: bool) -> Option<(IdentV, int)> {
    let j = skip_space(s, i);
    if 0 <= j < s.len() && is_ident_start(s[j], dash) {
        let e = ident_end(s, j + 1);
        Some(
            (
                IdentV {
                    value: s.subrange(j, e),
                    index: byte_offset(s, j),
                    length: (byte_offset(s, e) - byte_offset(s, j)) as nat,
                },
                e,
            ),
        )
    } else {
        None
    }
}

/// The value of a run of digits, underscores ignored.
pub open spec fn digits_value(t: Seq<char>) -> nat
    decreases t.len(),
{
    if t.len() == 0 {
        0
    } else if t.last() == '_' {
        digits_value(t.drop_last())
    } else {
        digits_value(t.drop_last()) * 10 + ((t.last() as int - '0' as int) as nat)
    }
}

pub open spec fn too_large_message() -> Seq<char> {
    "unable to parse number: number too large to fit in target type"@
}

/// The number that comes next, after whitespace, if no larger than `max`.
pub open spec fn spec_number(s: Seq<char>, i: int, max: nat) -> Result<Option<(nat, int)>, ParseErrorV> {
    let j = skip_space(s, i);
    if 0 <= j < s.len() && is_digit(s[j]) {
        let e = digits_end(s, j + 1);
        let v = digits_value(s.subrange(j, e));
        if v <= max {
            Ok(Some((v, e)))
        } else {
            Err(err_at(s, too_large_message(), j, e - j))
        }
    } else {
        Ok(None)
    }
}

/// Whether an exec result `r`, with the cursor left at `end`, is the one
/// that `sp` gives.
pub open spec fn agrees<T: View>(r: Result<T, ParseError>, sp: Result<(T::V, int), ParseErrorV>, end: int) -> bool {
    match sp {
        Ok((v, p)) => r is Ok && r->Ok_0@ == v && end == p,
        Err(e) => r is Err && r->Err_0@ == e,
    }
}

/// As `agrees`, for a parse that may find nothing and then leaves the
/// cursor where it was, at `start`.
pub open spec fn agrees_opt<T: View>(
    r: Result<Option<T>, ParseError>,
    sp: Result<Option<(T::V, int)>, ParseErrorV>,
    start: int,
    end: int,
) -> bool {
    match sp {
        Ok(Some((v, p))) => r is Ok && r->Ok_0 is Some && r->Ok_0->0@ == v && end == p,
        Ok(None) => r is Ok && r->Ok_0 is None && end == start,
        Err(e) => r is Err && r->Err_0@ == e,
    }
}

/// The cursor: the source, the byte offset of each of its positions, and
/// the current position, counted in characters.
#[derive(Clone, Debug)]
pub struct Parser {
    pub source: Vec<char>,
    pub offsets: Vec<usize>,
    pub cursor: usize,
}

impl Parser {
    pub open spec fn src(&self) -> Seq<char> {
        self.source@
    }

    pub open spec fn pos(&self) -> int {
        self.cursor as int
    }

    pub open spec fn wf(&self) -> bool {
        &&& self.cursor <= self.source@.len()
        &&& self.offsets@.len() == self.source@.len() + 1
        &&& forall|k: int| 0 <= k <= self.source@.len() ==> #[trigger] self.offsets@[k] == byte_offset(self.source@, k)
    }

    pub fn new(s: &str) -> (r: Parser)
        ensures
            r.src() == s@,
            r.pos() == 0,
            r.wf(),
    {
        Parser { source: chars_of(s), offsets: char_offsets(s), cursor: 0 }
    }

    /// The location of the character position `j`.
    pub fn at(&self, j: usize) -> (r: Location)
        requires
            self.wf(),
            j <= self.src().len(),
        ensures
            r.index == byte_offset(self.src(), j as int),
    {
        Location { index: self.offsets[j] }
    }

    /// The location of the cursor.
    pub fn here(&self) -> (r: Location)
        requires
            self.wf(),
        ensures
            r.index == byte_offset(self.src(), self.pos()),
    {
        self.at(self.cursor)
    }

    /// How many bytes the characters from position `j` to `e` take.
    pub fn bytes(&self, j: usize, e: usize) -> (r: usize)
        requires
            self.wf(),
            j <= e <= self.src().len(),
        ensures
            r == byte_offset(self.src(), e as int) - byte_offset(self.src(), j as int),
    {
        proof {
            lemma_byte_offset_monotone(self.src(), j as int, e as int);
        }
        self.offsets[e] - self.offsets[j]
    }

    /// The position after the whitespace that follows the cursor.
    pub fn next_token(&self) -> (r: usize)
        requires
            self.wf(),
        ensures
            r == skip_space(self.src(), self.pos()),
            self.pos() <= r <= self.src().len(),
    {
        let mut j = self.cursor;
        proof {
            lemma_skip_space_bounds(self.src(), j as int);
        }
        while j < self.source.len() && is_space_char(self.source[j])
            invariant
                self.pos() <= j <= self.source@.len(),
                skip_space(self.src(), j as int) == skip_space(self.src(), self.pos()),
            decreases self.source@.len() - j,
        {
            j = j + 1;
        }
        j
    }

    pub fn at_end(&self) -> (r: bool)
        requires
            self.wf(),
        ensures
            r == spec_at_end(self.src(), self.pos()),
    {
        self.next_token() >= self.source.len()
    }

    pub fn lit_at(&self, j: usize, t: &str) -> (r: bool)
        requires
            j <= self.src().len(),
        ensures
            r == lit_at(self.src(), j as int, t@),
            self.src().len() <= usize::MAX,
    {
        let n = t.unicode_len();
        if n > self.source.len() - j {
            return false;
        }
        let mut k: usize = 0;
        while k < n
            invariant
                n == t@.len(),
                j + n <= self.source@.len(),
                self.source@.len() <= usize::MAX,
                k <= n,
                forall|m: int| 0 <= m < k ==> self.src()[j + m] == t@[m],
            decreases n - k,
        {
            if self.source[j + k] != t.get_char(k) {
                assert(self.src().subrange(j as int, j + n)[k as int] != t@[k as int]);
                return false;
            }
            k = k + 1;
        }
        assert(self.src().subrange(j as int, j + n) =~= t@);
        true
    }

    /// Whether the token `t` comes next; the cursor does not move.
    pub fn peek(&self, t: &str) -> (r: bool)
        requires
            self.wf(),
        ensures
            r == spec_peek(self.src(), self.pos(), t@),
    {
        let j = self.next_token();
        self.lit_at(j, t)
    }

    /// Moves past the token `t` if it comes next; else the cursor stays.
    pub fn take(&mut self, t: &str) -> (r: bool)
        requires
            old(self).wf(),
        ensures
            final(self).wf(),
            final(self).src() == old(self).src(),
            r == spec_take(old(self).src(), old(self).pos(), t@) is Some,
            r ==> final(self).pos() == spec_take(old(self).src(), old(self).pos(), t@)->0,
            !r ==> final(self).pos() == old(self).pos(),
            old(self).pos() <= final(self).pos(),
            r && t@.len() > 0 ==> old(self).pos() < final(self).pos(),
    {
        let j = self.next_token();
        if self.lit_at(j, t) {
            self.cursor = j + t.unicode_len();
            true
        } else {
            false
        }
    }

    /// Moves past the token `t`, which must come next.
    pub fn expect(&mut self, t: &str) -> (r: Result<(), ParseError>)
        requires
            old(self).wf(),
        ensures
            final(self).wf(),
            final(self).src() == old(self).src(),
            match spec_expect(old(self).src(), old(self).pos(), t@) {
                Ok(j) => r is Ok && final(self).pos() == j,
                Err(e) => r is Err && r->Err_0@ == e,
            },
            old(self).pos() <= final(self).pos(),
            r is Ok && t@.len() > 0 ==> old(self).pos() < final(self).pos(),
    {
        if self.take(t) {
            Ok(())
        } else {
            let m = String::from_str("expected '").concat(t).concat("'");
            Err(ParseError::new_spanned(m, self.here(), 0))
        }
    }

    /// The identifier that comes next, if any; the cursor moves past it.
    pub fn ident(&mut self, dash: bool) -> (r: Option<Ident>)
        requires
            old(self).wf(),
        ensures
            final(self).wf(),
            final(self).src() == old(self).src(),
            match spec_ident(old(self).src(), old(self).pos(), dash) {
                Some((v, e)) => r is Some && r->0@ == v && final(self).pos() == e,
                None => r is None && final(self).pos() == old(self).pos(),
            },
            r is Some ==> old(self).pos() < final(self).pos(),
    {
        let j = self.next_token();
        if j < self.source.len() {
            let c = self.source[j];
            if is_alpha_char(c) || c == '_' || (dash && c == '-') {
                let mut e = j + 1;
                proof {
                    lemma_ident_end_bounds(self.src(), e as int);
                }
                while e < self.source.len() && (is_alpha_char(self.source[e]) || is_digit_char(self.source[e])
                    || self.source[e] == '_')
                    invariant
                        j < e <= self.src().len(),
                        ident_end(self.src(), e as int) == ident_end(self.src(), j + 1),
                    decreases self.src().len() - e,
                {
                    e = e + 1;
                }
                let value = string_of(self.source.as_slice(), j, e);
                let location = self.at(j);
                let length = self.bytes(j, e);
                self.cursor = e;
                return Some(Ident { value, location, length });
            }
        }
        None
    }

    /// The number that comes next, if any, no larger than `max`; the cursor moves past it.
    pub fn number(&mut self, max: u64) -> (r: Result<Option<u64>, ParseError>)
        requires
            old(self).wf(),
        ensures
            final(self).wf(),
            final(self).src() == old(self).src(),
            match spec_number(old(self).src(), old(self).pos(), max as nat) {
                Ok(Some((v, e))) => r == Ok::<Option<u64>, ParseError>(Some(v as u64)) && final(self).pos() == e,
                Ok(None) => r == Ok::<Option<u64>, ParseError>(None) && final(self).pos() == old(self).pos(),
                Err(e) => r is Err && r->Err_0@ == e,
            },
            old(self).pos() <= final(self).pos(),
            r matches Ok(Some(_)) ==> old(self).pos() < final(self).pos(),
            r is Err ==> final(self).pos() == old(self).pos(),
    {
        let j = self.next_token();
        if j < self.source.len() && is_digit_char(self.source[j]) {
            let mut e = j + 1;
            proof {
                lemma_digits_end_bounds(self.src(), e as int);
            }
            while e < self.source.len() && (is_digit_char(self.source[e]) || self.source[e] == '_')
                invariant
                    j < e <= self.src().len(),
                    digits_end(self.src(), e as int) == digits_end(self.src(), j + 1),
                    forall|k: int| j <= k < e ==> is_digit_or_sep(#[trigger] self.src()[k]),
                decreases self.src().len() - e,
            {
                e = e + 1;
            }
            match decimal_value(self.source.as_slice(), j, e, max) {
                Some(v) => {
                    self.cursor = e;
                    Ok(Some(v))
                }
                None => {
                    let m = String::from_str("unable to parse number: number too large to fit in target type");
                    Err(ParseError::new_spanned(m, self.at(j), self.bytes(j, e)))
                }
            }
        } else {
            Ok(None)
        }
    }
}

/// The value of the digits in `s[start..end]`, if no larger than `max`.
fn decimal_value(s: &[char], start: usize, end: usize, max: u64) -> (r: Option<u64>)
    requires
        start <= end <= s@.len(),
        forall|k: int| start <= k < end ==> is_digit_or_sep(#[trigger] s@[k]),
    ensures
        match r {
            Some(v) => v == digits_value(s@.subrange(start as int, end as int)) && v <= max,
            None => digits_value(s@.subrange(start as int, end as int)) > max,
        },
{
    let mut v: u64 = 0;
    let mut over = false;
    let mut i = start;
    while i < end
        invariant
            start <= i <= end <= s@.len(),
            forall|k: int| start <= k < end ==> is_digit_or_sep(#[trigger] s@[k]),
            !over ==> v == digits_value(s@.subrange(start as int, i as int)) && v <= max,
            over ==> digits_value(s@.subrange(start as int, i as int)) > max,
        decreases end - i,
    {
        let c = s[i];
        proof {
            let t = s@.subrange(start as int, i + 1);
            assert(t.drop_last() =~= s@.subrange(start as int, i as int));
            assert(t.last() == c);
        }
        if c != '_' && !over {
            let d = (c as u32 - '0' as u32) as u64;
            if d > max || v > (max - d) / 10 {
                over = true;
                proof {
                    if d <= max {
                        assert(v * 10 + d > max) by (nonlinear_arith)
                            requires v > (max - d) / 10, d <= max;
                    }
                }
            } else {
                proof {
                    assert(v * 10 + d <= max) by (nonlinear_arith)
                        requires v <= (max - d) / 10, d <= max;
                }
                v = v * 10 + d;
            }
        }
        i = i + 1;
    }
    if over {
        None
    } else {
        Some(v)
    }
}

/// Relies on str::chars, collected into a Vec: the characters of `s` in order.
#[verifier::external_body]
fn chars_of(s: &str) -> (r: Vec<char>)
    ensures
        r@ == s@,
{
    s.chars().collect()
}

/// Relies on str::char_indices, with str::len for the end: the byte offset
/// of each character position of `s`, the end included.
#[verifier::external_body]
fn char_offsets(s: &str) -> (r: Vec<usize>)
    ensures
        r@.len() == s@.len() + 1,
        forall|k: int| 0 <= k <= s@.len() ==> #[trigger] r@[k] == byte_offset(s@, k),
{
    s.char_indices().map(|(i, _)| i).chain(std::iter::once(s.len())).collect()
}

/// Relies on String's FromIterator<&char>: the string of the characters `s[start..end]`.
#[verifier::external_body]
pub fn string_of(s: &[char], start: usize, end: usize) -> (r: String)
    requires
        start <= end <= s@.len(),
    ensures
        r@ == s@.subrange(start as int, end as int),
{
    s[start..end].iter().collect()
}

} // verus!
