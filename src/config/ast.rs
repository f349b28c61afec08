//! Configuration values, and their mathematical view.
use vstd::prelude::*;
use crate::parser::{Ident, IdentV};

verus! {

#[derive(Debug)]
pub enum Value {
    Group(Group),
    Function(Function),
    String(String),
    Int(i64),
    Path(String),
}

/// A deferred call: `name(args...)`.
#[derive(Debug)]
pub struct Function {
    pub name: Ident,
    pub args: Vec<Value>,
}

/// Named values; a later entry of the same name replaces an earlier one.
/// The calls among them are evaluated against a function registry that the
/// reader passes in.
#[derive(Debug)]
pub struct Group {
    pub inner: ValueMap,
}

pub ghost enum ValueV {
    Group(Map<Seq<char>, ValueV>),
    Function(IdentV, Seq<ValueV>),
    String(Seq<char>),
    Int(i64),
    Path(Seq<char>),
}

pub open spec fn value_view(v: Value) -> ValueV
    decreases v, 0nat,
{
    match v {
        Value::Group(g) => ValueV::Group(value_map_contents(g.inner)),
        Value::Function(f) => ValueV::Function(f.name@, values_view(f.args@, f.args@.len())),
        Value::String(s) => ValueV::String(s@),
        Value::Int(n) => ValueV::Int(n),
        Value::Path(p) => ValueV::Path(p@),
    }
}

/// The views of the first `n` values of `s`.
pub open spec fn values_view(s: Seq<Value>, n: nat) -> Seq<ValueV>
    decreases s, n,
{
    if n == 0 || n > s.len() {
        seq![]
    } else {
        values_view(s, (n - 1) as nat).push(value_view(s[n - 1]))
    }
}

impl View for Value {
    type V = ValueV;

    open spec fn view(&self) -> ValueV {
        value_view(*self)
    }
}

impl View for Group {
    type V = Map<Seq<char>, ValueV>;

    open spec fn view(&self) -> Map<Seq<char>, ValueV> {
        value_map_contents(self.inner)
    }
}

/// The entries of a group.
#[derive(Debug)]
#[verifier::external_body]
pub struct ValueMap {
    inner: hashbrown::HashMap<String, Value>,
}

pub uninterp spec fn value_map_contents(m: ValueMap) -> Map<Seq<char>, ValueV>;

impl ValueMap {
    /// Relies on hashbrown::HashMap::new: the map starts empty.
    #[verifier::external_body]
    pub fn new() -> (r: ValueMap)
        ensures
            (value_map_contents(r) == Map::<Seq<char>, ValueV>::empty()),
    {
        ValueMap { inner: hashbrown::HashMap::new() }
    }

    /// Relies on hashbrown::HashMap::insert: the name maps to the value
    /// afterwards, in place of what it mapped to before.
    #[verifier::external_body]
    pub fn insert(&mut self, k: String, v: Value)
        ensures
            value_map_contents(*final(self)) == value_map_contents(*old(self)).insert(k@, v@),
    {
        self.inner.insert(k, v);
    }

    /// Relies on hashbrown::HashMap::get: the value the name maps to.
    #[verifier::external_body]
    pub fn get(&self, k: &str) -> (r: Option<&Value>)
        ensures
            value_map_contents(*self).contains_key(k@) <==> r is Some,
            r is Some ==> r->0@ == value_map_contents(*self)[k@],
    {
        self.inner.get(k)
    }

}

impl Value {
    pub fn as_group(&self) -> (r: Option<&Group>)
        ensures
            self is Group <==> r is Some,
            r is Some ==> self == &Value::Group(*r->0),
    {
        match self {
            Value::Group(g) => Some(g),
            _ => None,
        }
    }

    pub fn as_function(&self) -> (r: Option<&Function>)
        ensures
            self is Function <==> r is Some,
            r is Some ==> self == &Value::Function(*r->0),
    {
        match self {
            Value::Function(f) => Some(f),
            _ => None,
        }
    }

    pub fn as_string(&self) -> (r: Option<&String>)
        ensures
            self is String <==> r is Some,
            r is Some ==> self == &Value::String(*r->0),
    {
        match self {
            Value::String(s) => Some(s),
            _ => None,
        }
    }

    pub fn as_int(&self) -> (r: Option<i64>)
        ensures
            self is Int <==> r is Some,
            r is Some ==> self == &Value::Int(r->0),
    {
        match self {
            Value::Int(n) => Some(*n),
            _ => None,
        }
    }

    pub fn as_path(&self) -> (r: Option<&String>)
        ensures
            self is Path <==> r is Some,
            r is Some ==> self == &Value::Path(*r->0),
    {
        match self {
            Value::Path(p) => Some(p),
            _ => None,
        }
    }
}

/// The views of a prefix depend on that prefix alone.
pub proof fn lemma_values_view_prefix(a: Seq<Value>, b: Seq<Value>, n: nat)
    requires
        n <= a.len(),
        n <= b.len(),
        a.subrange(0, n as int) == b.subrange(0, n as int),
    ensures
        values_view(a, n) == values_view(b, n),
    decreases n,
{
    if n > 0 {
        assert(a[n - 1] == a.subrange(0, n as int)[n - 1]);
        assert(b[n - 1] == b.subrange(0, n as int)[n - 1]);
        assert(a.subrange(0, n - 1) =~= a.subrange(0, n as int).subrange(0, n - 1));
        assert(b.subrange(0, n - 1) =~= b.subrange(0, n as int).subrange(0, n - 1));
        lemma_values_view_prefix(a, b, (n - 1) as nat);
    }
}

} // verus!
