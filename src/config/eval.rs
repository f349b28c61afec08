//! Evaluation of configuration values: the registry of built-in functions,
//! the `Env` built-in, and reading settings out of a group.
use vstd::prelude::*;
use crate::config::ast::{values_view, Function, Group, Value, ValueV};
use crate::config::error::{EvaluationError, EvaluationErrorV};
use crate::parser::{string_of, IdentV};

verus! {

/// The built-in functions that a configuration can call.
#[derive(Clone, Copy, Debug, PartialEq, Eq, Structural)]
pub enum Builtin {
    Env,
}

/// A table from function names to built-ins.
#[verifier::external_body]
pub struct FunctionTable {
    inner: hashbrown::HashMap<String, Builtin>,
}

pub uninterp spec fn function_table_contents(t: FunctionTable) -> Map<Seq<char>, Builtin>;

impl FunctionTable {
    /// Relies on hashbrown::HashMap::new: the table starts empty.
    #[verifier::external_body]
    pub fn new() -> (r: FunctionTable)
        ensures
            (function_table_contents(r) == Map::<Seq<char>, Builtin>::empty()),
    {
        FunctionTable { inner: hashbrown::HashMap::new() }
    }

    /// Relies on hashbrown::HashMap::contains_key: whether the name is in the table.
    #[verifier::external_body]
    pub fn contains_key(&self, k: &str) -> (r: bool)
        ensures
            r == function_table_contents(*self).contains_key(k@),
    {
        self.inner.contains_key(k)
    }

    /// Relies on hashbrown::HashMap::insert: the name maps to the built-in afterwards.
    #[verifier::external_body]
    pub fn insert(&mut self, k: String, v: Builtin)
        ensures
            function_table_contents(*final(self)) == function_table_contents(*old(self)).insert(k@, v),
    {
        self.inner.insert(k, v);
    }

    /// Relies on hashbrown::HashMap::get: the built-in the name maps to.
    #[verifier::external_body]
    pub fn get(&self, k: &str) -> (r: Option<Builtin>)
        ensures
            function_table_contents(*self).contains_key(k@) <==> r is Some,
            r is Some ==> r->0 == function_table_contents(*self)[k@],
    {
        self.inner.get(k).copied()
    }
}

/// The registry of the functions that configuration values can call.
pub struct Context {
    functions: FunctionTable,
}

impl Context {
    pub closed spec fn functions(&self) -> Map<Seq<char>, Builtin> {
        function_table_contents(self.functions)
    }

    /// A registry with no functions.
    pub fn empty() -> (r: Context)
        ensures
            r.functions() == Map::<Seq<char>, Builtin>::empty(),
    {
        Context { functions: FunctionTable::new() }
    }

    /// The registry of the built-ins: `Env`.
    pub fn new() -> (r: Context)
        ensures
            r.functions() == map!["Env"@ => Builtin::Env],
    {
        let mut out = Self::empty();
        build_context(&mut out);
        out
    }

    /// Registers `func` under `name`; a name registered before is an error.
    pub fn add_function(&mut self, name: String, func: Builtin) -> (r: Result<(), String>)
        ensures
            r is Err <==> old(self).functions().contains_key(name@),
            r is Ok ==> final(self).functions() == old(self).functions().insert(name@, func),
            r is Err ==> final(self).functions() == old(self).functions(),
    {
        if self.functions.contains_key(name.as_str()) {
            let m = String::from_str("Function \"").concat(name.as_str()).concat("\" already exists!");
            return Err(m);
        }
        self.functions.insert(name, func);
        Ok(())
    }
}

fn build_context(context: &mut Context)
    requires
        old(context).functions() == Map::<Seq<char>, Builtin>::empty(),
    ensures
        final(context).functions() == map!["Env"@ => Builtin::Env],
{
    let r = context.add_function(String::from_str("Env"), Builtin::Env);
    proof {
        assert(context.functions() =~= map!["Env"@ => Builtin::Env]);
    }
}

// ---------------------------------------------------------------------------
// The environment
/// What the environment holds for a variable: text, or a value that is not
/// valid text, with the message that reading it gave.
#[derive(Debug)]
pub enum EnvValue {
    Text(String),
    Invalid(String),
}

#[derive(Debug)]
pub struct EnvVar {
    pub key: String,
    pub value: EnvValue,
}

/// The environment variables that `Env` reads.
#[derive(Debug)]
pub struct Environment {
    pub vars: Vec<EnvVar>,
}

/// The value of the first variable named `key` from `i` on.
pub open spec fn env_lookup_from(vars: Seq<EnvVar>, key: Seq<char>, i: int) -> Option<EnvValue>
    decreases vars.len() - i,
{
    if i < 0 || i >= vars.len() {
        None
    } else if vars[i].key@ == key {
        Some(vars[i].value)
    } else {
        env_lookup_from(vars, key, i + 1)
    }
}

pub open spec fn env_lookup(vars: Seq<EnvVar>, key: Seq<char>) -> Option<EnvValue> {
    env_lookup_from(vars, key, 0)
}

impl Environment {
    pub fn lookup(&self, key: &str) -> (r: Option<&EnvValue>)
        ensures
            env_lookup(self.vars@, key@) is Some <==> r is Some,
            r is Some ==> *r->0 == env_lookup(self.vars@, key@)->0,
    {
        let mut i: usize = 0;
        while i < self.vars.len()
            invariant
                i <= self.vars@.len(),
                env_lookup_from(self.vars@, key@, i as int) == env_lookup(self.vars@, key@),
            decreases self.vars@.len() - i,
        {
            if crate::parser::str_eq(self.vars[i].key.as_str(), key) {
                return Some(&self.vars[i].value);
            }
            i = i + 1;
        }
        None
    }
}

// ---------------------------------------------------------------------------
// Evaluation
/// An evaluated value: one of the configuration, or one that evaluation made.
pub enum Evaluated<'a> {
    Borrowed(&'a Value),
    Owned(Value),
}

impl<'a> View for Evaluated<'a> {
    type V = ValueV;

    open spec fn view(&self) -> ValueV {
        match self {
            Evaluated::Borrowed(v) => v@,
            Evaluated::Owned(v) => v@,
        }
    }
}

impl<'a> Evaluated<'a> {
    pub fn value(&self) -> (r: &Value)
        ensures
            r@ == self@,
    {
        match self {
            Evaluated::Borrowed(v) => v,
            Evaluated::Owned(v) => v,
        }
    }

    pub fn into_owned_string(self) -> (r: Option<String>)
        ensures
            self@ is String <==> r is Some,
            r is Some ==> self@ == ValueV::String(r->0@),
    {
        match self {
            Evaluated::Borrowed(Value::String(s)) => Some(s.clone()),
            Evaluated::Owned(Value::String(s)) => Some(s),
            _ => None,
        }
    }
}

pub open spec fn env_descriptor() -> Seq<char> {
    "Env(key, [default-value])"@
}

pub open spec fn digit_char(d: nat) -> char {
    (('0' as u8) + (d as u8)) as char
}

/// The decimal digits of `n`.
pub open spec fn decimal(n: nat) -> Seq<char>
    decreases n,
{
    if n < 10 {
        seq![digit_char(n)]
    } else {
        decimal(n / 10).push(digit_char(n % 10))
    }
}

pub open spec fn not_present_message() -> Seq<char> {
    "environment variable not found"@
}

/// What `Env(args...)` gives, the arguments evaluated, in `vars`.
pub open spec fn spec_env(args: Seq<ValueV>, vars: Seq<EnvVar>) -> Result<ValueV, EvaluationErrorV> {
    if args.len() != 1 && args.len() != 2 {
        Err(EvaluationErrorV::ArgumentIssue {
            function: env_descriptor(),
            issue: "Expected 1 or 2 arguments, instead found "@ + decimal(args.len()) + " arguments"@,
        })
    } else {
        match args[0] {
            ValueV::String(key) => match env_lookup(vars, key) {
                Some(EnvValue::Text(v)) => Ok(ValueV::String(v@)),
                Some(EnvValue::Invalid(m)) => Err(EvaluationErrorV::EvaluationError { function: env_descriptor(), message: m@ }),
                None => if args.len() == 2 {
                    Ok(args[1])
                } else {
                    Err(EvaluationErrorV::EvaluationError { function: env_descriptor(), message: not_present_message() })
                },
            },
            _ => Err(EvaluationErrorV::ArgumentTypeIssue {
                function: env_descriptor(),
                argument: "key"@,
                type_: "string"@,
            }),
        }
    }
}

/// `Env(key)` and `Env(key, default)` give the variable's text where it is
/// set; where it is not set, the default, and without one an error.
pub proof fn lemma_env_lookup(key: Seq<char>, default: ValueV, vars: Seq<EnvVar>)
    ensures
        env_lookup(vars, key) matches Some(EnvValue::Text(t)) ==> spec_env(seq![ValueV::String(key)], vars)
            == Ok::<ValueV, EvaluationErrorV>(ValueV::String(t@)) && spec_env(
            seq![ValueV::String(key), default],
            vars,
        ) == Ok::<ValueV, EvaluationErrorV>(ValueV::String(t@)),
        env_lookup(vars, key) is None ==> spec_env(seq![ValueV::String(key), default], vars) == Ok::<
            ValueV,
            EvaluationErrorV,
        >(default),
        env_lookup(vars, key) is None ==> spec_env(seq![ValueV::String(key)], vars) == Err::<
            ValueV,
            EvaluationErrorV,
        >(EvaluationErrorV::EvaluationError { function: env_descriptor(), message: not_present_message() }),
{
}

/// What the built-in `f` gives for the evaluated arguments `args`.
pub open spec fn spec_call(f: Builtin, args: Seq<ValueV>, vars: Seq<EnvVar>) -> Result<ValueV, EvaluationErrorV> {
    match f {
        Builtin::Env => spec_env(args, vars),
    }
}

/// What calling `name(args...)` gives: the function is looked up first,
/// then the arguments are evaluated from left to right, calls among them
/// first, and the function applied to them.
pub open spec fn spec_eval_call(
    name: IdentV,
    args: Seq<ValueV>,
    functions: Map<Seq<char>, Builtin>,
    vars: Seq<EnvVar>,
) -> Result<ValueV, EvaluationErrorV>
    decreases args, 1nat, 0nat,
{
    if !functions.contains_key(name.value) {
        Err(EvaluationErrorV::UnknownFunction { name })
    } else {
        match spec_eval_args(args, args.len(), functions, vars) {
            Err(e) => Err(e),
            Ok(vals) => spec_call(functions[name.value], vals, vars),
        }
    }
}

/// The first `n` arguments, evaluated.
pub open spec fn spec_eval_args(
    args: Seq<ValueV>,
    n: nat,
    functions: Map<Seq<char>, Builtin>,
    vars: Seq<EnvVar>,
) -> Result<Seq<ValueV>, EvaluationErrorV>
    decreases args, 0nat, n,
{
    if n == 0 || n > args.len() {
        Ok(seq![])
    } else {
        match spec_eval_args(args, (n - 1) as nat, functions, vars) {
            Err(e) => Err(e),
            Ok(prev) => match args[n - 1] {
                ValueV::Function(fname, fargs) => match spec_eval_call(fname, fargs, functions, vars) {
                    Err(e) => Err(e),
                    Ok(v) => Ok(prev.push(v)),
                },
                v => Ok(prev.push(v)),
            },
        }
    }
}

fn push_decimal(n: u64, out: &mut Vec<char>)
    ensures
        final(out)@ == old(out)@ + decimal(n as nat),
    decreases n,
{
    if n >= 10 {
        push_decimal(n / 10, out);
    }
    let d = (n % 10) as u8;
    out.push(('0' as u8 + d) as char);
    proof {
        if n >= 10 {
            assert(decimal(n as nat) == decimal((n / 10) as nat).push(digit_char((n % 10) as nat)));
        }
    }
    assert(final(out)@ =~= old(out)@ + decimal(n as nat));
}

/// The decimal digits of `n`.
pub fn decimal_string(n: u64) -> (r: String)
    ensures
        r@ == decimal(n as nat),
{
    let mut digits: Vec<char> = Vec::new();
    push_decimal(n, &mut digits);
    assert(digits@.subrange(0, digits@.len() as int) =~= digits@);
    string_of(digits.as_slice(), 0, digits.len())
}

/// The views of evaluated arguments.
pub open spec fn evaluated_view<'a>(args: Seq<Evaluated<'a>>) -> Seq<ValueV> {
    args.map_values(|a: Evaluated<'a>| a@)
}

/// The built-in `Env(key, [default])`: the environment variable `key`, or
/// `default` where no such variable is set.
pub struct EnvFunction;

impl EnvFunction {
    pub fn call<'a>(&self, mut args: Vec<Evaluated<'a>>, env: &Environment) -> (r: Result<
        Evaluated<'a>,
        EvaluationError,
    >)
        ensures
            match spec_env(evaluated_view(args@), env.vars@) {
                Ok(v) => r is Ok && r->Ok_0@ == v,
                Err(e) => r is Err && r->Err_0@ == e,
            },
    {
        let ghost va = evaluated_view(args@);
        let n = args.len();
        if n != 1 && n != 2 {
            let issue = String::from_str("Expected 1 or 2 arguments, instead found ").concat(
                decimal_string(n as u64).as_str(),
            ).concat(" arguments");
            return Err(
                EvaluationError::ArgumentIssue {
                    function: String::from_str("Env(key, [default-value])"),
                    issue,
                },
            );
        }
        assert(va[0] == args@[0]@);
        let key = match args[0].value() {
            Value::String(k) => k,
            _ => {
                return Err(
                    EvaluationError::ArgumentTypeIssue {
                        function: String::from_str("Env(key, [default-value])"),
                        argument: String::from_str("key"),
                        type_: String::from_str("string"),
                    },
                );
            },
        };
        match env.lookup(key.as_str()) {
            Some(EnvValue::Text(v)) => Ok(Evaluated::Owned(Value::String(v.clone()))),
            Some(EnvValue::Invalid(m)) => Err(
                EvaluationError::EvaluationError {
                    function: String::from_str("Env(key, [default-value])"),
                    message: m.clone(),
                },
            ),
            None => {
                if n == 2 {
                    assert(va[1] == args@[1]@);
                    Ok(args.pop().unwrap())
                } else {
                    Err(
                        EvaluationError::EvaluationError {
                            function: String::from_str("Env(key, [default-value])"),
                            message: String::from_str("environment variable not found"),
                        },
                    )
                }
            },
        }
    }
}

impl Builtin {
    pub fn call<'a>(&self, args: Vec<Evaluated<'a>>, env: &Environment) -> (r: Result<
        Evaluated<'a>,
        EvaluationError,
    >)
        ensures
            match spec_call(*self, evaluated_view(args@), env.vars@) {
                Ok(v) => r is Ok && r->Ok_0@ == v,
                Err(e) => r is Err && r->Err_0@ == e,
            },
    {
        match self {
            Builtin::Env => EnvFunction.call(args, env),
        }
    }
}

/// Evaluates the call `function`: looks the function up in `context`,
/// evaluates the arguments from left to right, and applies it. A built-in
/// never gives back a call (`Env` gives a string or one of its evaluated
/// arguments), so one application ends the evaluation.
pub fn eval<'a>(function: &'a Function, context: &Context, env: &Environment) -> (r: Result<
    Evaluated<'a>,
    EvaluationError,
>)
    ensures
        match spec_eval_call(
            function.name@,
            values_view(function.args@, function.args@.len()),
            context.functions(),
            env.vars@,
        ) {
            Ok(v) => r is Ok && r->Ok_0@ == v,
            Err(e) => r is Err && r->Err_0@ == e,
        },
    decreases function,
{
    let ghost fv = values_view(function.args@, function.args@.len());
    let Some(handler) = context.functions.get(function.name.as_str()) else {
        return Err(EvaluationError::UnknownFunction { name: function.name.copy() });
    };
    let mut args: Vec<Evaluated<'a>> = Vec::new();
    let mut i: usize = 0;
    proof {
        lemma_values_view_len(function.args@, function.args@.len());
        assert(evaluated_view(args@) =~= seq![]);
    }
    while i < function.args.len()
        invariant
            i <= function.args@.len(),
            args@.len() == i,
            fv.len() == function.args@.len(),
            context.functions().contains_key(function.name@.value),
            handler == context.functions()[function.name@.value],
            fv == values_view(function.args@, function.args@.len()),
            spec_eval_args(fv, i as nat, context.functions(), env.vars@) == Ok::<Seq<ValueV>, EvaluationErrorV>(evaluated_view(args@)),
        decreases function.args@.len() - i,
    {
        proof {
            lemma_values_view_index(function.args@, function.args@.len(), i as nat);
        }
        let arg = &function.args[i];
        let ghost prev = args@;
        match arg {
            Value::Function(f) => {
                assert(decreases_to!(function => function.args));
                assert(decreases_to!(function.args => function.args@));
                assert(decreases_to!(function.args@ => function.args@[i as int]));
                let v = match eval(f, context, env) {
                    Ok(v) => v,
                    Err(e) => {
                        proof {
                            assert(fv[i as int] == arg@);
                            assert(spec_eval_args(fv, (i + 1) as nat, context.functions(), env.vars@) == Err::<Seq<ValueV>, EvaluationErrorV>(e@));
                            lemma_eval_args_err(fv, (i + 1) as nat, fv.len(), context.functions(), env.vars@);
                        }
                        return Err(e);
                    },
                };
                args.push(v);
            },
            _ => {
                args.push(Evaluated::Borrowed(arg));
            },
        }
        assert(evaluated_view(args@) =~= evaluated_view(prev).push(args@[i as int]@));
        i = i + 1;
    }
    handler.call(args, env)
}

/// Once an argument fails, evaluating more arguments fails the same way.
pub proof fn lemma_eval_args_err(
    args: Seq<ValueV>,
    i: nat,
    n: nat,
    functions: Map<Seq<char>, Builtin>,
    vars: Seq<EnvVar>,
)
    requires
        0 < i <= n <= args.len(),
        spec_eval_args(args, i, functions, vars) is Err,
    ensures
        spec_eval_args(args, n, functions, vars) == spec_eval_args(args, i, functions, vars),
    decreases n - i,
{
    if i < n {
        lemma_eval_args_err(args, i, (n - 1) as nat, functions, vars);
    }
}

/// The `i`-th view of a prefix is the view of the `i`-th value.
pub proof fn lemma_values_view_index(s: Seq<Value>, n: nat, i: nat)
    requires
        i < n <= s.len(),
    ensures
        values_view(s, n).len() == n,
        values_view(s, n)[i as int] == s[i as int]@,
    decreases n,
{
    lemma_values_view_len(s, (n - 1) as nat);
    if i < n - 1 {
        lemma_values_view_index(s, (n - 1) as nat, i);
    }
}

pub proof fn lemma_values_view_len(s: Seq<Value>, n: nat)
    requires
        n <= s.len(),
    ensures
        values_view(s, n).len() == n,
    decreases n,
{
    if n > 0 {
        lemma_values_view_len(s, (n - 1) as nat);
    }
}

/// What reading `key` from a group of entries `g` gives, evaluated.
pub open spec fn spec_group_eval(
    g: Map<Seq<char>, ValueV>,
    key: Seq<char>,
    functions: Map<Seq<char>, Builtin>,
    vars: Seq<EnvVar>,
) -> Result<ValueV, EvaluationErrorV> {
    if !g.contains_key(key) {
        Err(EvaluationErrorV::ExpectedValue { key, type_: "value"@ })
    } else {
        match g[key] {
            ValueV::Function(name, args) => spec_eval_call(name, args, functions, vars),
            v => Ok(v),
        }
    }
}

/// The string at `key`, a call evaluated.
pub open spec fn spec_get_string(
    g: Map<Seq<char>, ValueV>,
    key: Seq<char>,
    functions: Map<Seq<char>, Builtin>,
    vars: Seq<EnvVar>,
) -> Result<Seq<char>, EvaluationErrorV> {
    match spec_group_eval(g, key, functions, vars) {
        Ok(ValueV::String(t)) => Ok(t),
        Ok(_) => Err(expected(key, "string"@)),
        Err(e) => Err(e),
    }
}

/// The integer at `key`, a call evaluated.
pub open spec fn spec_get_int(
    g: Map<Seq<char>, ValueV>,
    key: Seq<char>,
    functions: Map<Seq<char>, Builtin>,
    vars: Seq<EnvVar>,
) -> Result<i64, EvaluationErrorV> {
    match spec_group_eval(g, key, functions, vars) {
        Ok(ValueV::Int(n)) => Ok(n),
        Ok(_) => Err(expected(key, "int"@)),
        Err(e) => Err(e),
    }
}

/// The path at `key`, a call evaluated.
pub open spec fn spec_get_path(
    g: Map<Seq<char>, ValueV>,
    key: Seq<char>,
    functions: Map<Seq<char>, Builtin>,
    vars: Seq<EnvVar>,
) -> Result<Seq<char>, EvaluationErrorV> {
    match spec_group_eval(g, key, functions, vars) {
        Ok(ValueV::Path(t)) => Ok(t),
        Ok(_) => Err(expected(key, "path"@)),
        Err(e) => Err(e),
    }
}

pub open spec fn expected(key: Seq<char>, type_: Seq<char>) -> EvaluationErrorV {
    EvaluationErrorV::ExpectedValue { key, type_ }
}

fn expected_value(key: &str, type_: &str) -> (r: EvaluationError)
    ensures
        r@ == expected(key@, type_@),
{
    EvaluationError::ExpectedValue { key: String::from_str(key), type_: String::from_str(type_) }
}

impl Group {
    /// The value of `key`, as written.
    pub fn get_raw(&self, key: &str) -> (r: Option<&Value>)
        ensures
            self@.contains_key(key@) <==> r is Some,
            r is Some ==> r->0@ == self@[key@],
    {
        self.inner.get(key)
    }

    /// The value of `key`, a call evaluated.
    pub fn eval<'a>(&'a self, key: &str, context: &Context, env: &Environment) -> (r: Result<
        Evaluated<'a>,
        EvaluationError,
    >)
        ensures
            match spec_group_eval(self@, key@, context.functions(), env.vars@) {
                Ok(v) => r is Ok && r->Ok_0@ == v,
                Err(e) => r is Err && r->Err_0@ == e,
            },
    {
        let Some(value) = self.get_raw(key) else {
            return Err(expected_value(key, "value"));
        };
        match value {
            Value::Function(f) => eval(f, context, env),
            _ => Ok(Evaluated::Borrowed(value)),
        }
    }

    /// The group at `key`.
    pub fn get_group(&self, key: &str) -> (r: Result<&Group, EvaluationError>)
        ensures
            match r {
                Ok(g) => self@.contains_key(key@) && self@[key@] == ValueV::Group(g@),
                Err(e) => !(self@.contains_key(key@) && self@[key@] is Group) && e@ == expected(key@, "group"@),
            },
    {
        match self.get_raw(key) {
            Some(Value::Group(g)) => Ok(g),
            _ => Err(expected_value(key, "group")),
        }
    }

    /// The string at `key`, a call evaluated.
    pub fn get_string(&self, key: &str, context: &Context, env: &Environment) -> (r: Result<String, EvaluationError>)
        ensures
            match spec_get_string(self@, key@, context.functions(), env.vars@) {
                Ok(t) => r is Ok && r->Ok_0@ == t,
                Err(e) => r is Err && r->Err_0@ == e,
            },
    {
        let value = self.eval(key, context, env)?;
        match value.into_owned_string() {
            Some(s) => Ok(s),
            None => Err(expected_value(key, "string")),
        }
    }

    /// The integer at `key`, a call evaluated.
    pub fn get_int(&self, key: &str, context: &Context, env: &Environment) -> (r: Result<i64, EvaluationError>)
        ensures
            match spec_get_int(self@, key@, context.functions(), env.vars@) {
                Ok(n) => r == Ok::<i64, EvaluationError>(n),
                Err(e) => r is Err && r->Err_0@ == e,
            },
    {
        let value = self.eval(key, context, env)?;
        match value.value() {
            Value::Int(n) => Ok(*n),
            _ => Err(expected_value(key, "int")),
        }
    }

    /// The path at `key`, a call evaluated.
    pub fn get_path(&self, key: &str, context: &Context, env: &Environment) -> (r: Result<String, EvaluationError>)
        ensures
            match spec_get_path(self@, key@, context.functions(), env.vars@) {
                Ok(t) => r is Ok && r->Ok_0@ == t,
                Err(e) => r is Err && r->Err_0@ == e,
            },
    {
        let value = self.eval(key, context, env)?;
        match value.value() {
            Value::Path(p) => Ok(p.clone()),
            _ => Err(expected_value(key, "path")),
        }
    }
}

} // verus!
