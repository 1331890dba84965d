//! The evaluator: a tree-walking interpreter with lexical closures over an
//! environment mapping.
//!
//! Evaluation decisions, fixed here and tested explicitly:
//! - arguments are passed eagerly (call by value): the argument expression
//!   is evaluated against the caller's environment before the closure's
//!   body runs;
//! - a closure captures a full snapshot of its defining environment, so
//!   later bindings in the defining scope never change an already-created
//!   closure;
//! - a relational operator yields one of the closures bound to the names
//!   `true` and `false`, which a bootstrap source must have installed
//!   first; their absence is a configuration error of its own, distinct
//!   from the ordinary runtime errors;
//! - the evaluator never panics and never overruns the native stack:
//!   nesting of function applications is bounded by an explicit fuel, and
//!   exhausting it is reported as an error.

use vstd::prelude::*;
use vstd::string::StrSliceExecFns;
use crate::numeric::{
    add_bits, div_bits, eq_bits, ge_bits, gt_bits, le_bits, lt_bits, mul_bits, ne_bits, neg_bits,
    pow_bits, sub_bits,
};
use crate::numeric::{
    float_add, float_div, float_eq, float_ge, float_gt, float_le, float_lt, float_mul, float_ne,
    float_neg, float_pow, float_sub,
};
use crate::parser::{BinaryOperator, Expression, Program, SpecExpr, SpecStatement, UnaryOperator};

verus! {

/// An error from the evaluator.
///
/// The first three variants are the ordinary runtime errors. The last three
/// are stated design decisions: `InvalidUnaryOperation` reports negation of
/// a non-number (an evaluation-contract violation that is surfaced as an
/// error because the evaluator never panics); `MissingBuiltin` reports a
/// relational expression evaluated before the bootstrap installed the
/// boolean bindings (a configuration error, kept distinct so it cannot
/// masquerade as an undefined variable); `RecursionLimitReached` reports
/// that the explicit bound on nested function applications ran out.
#[derive(Debug, PartialEq)]
pub enum RunnerError {
    UndefinedVariable { name: String },
    BinaryOperationOnNonNumbers,
    ApplyNonFunction,
    InvalidUnaryOperation,
    MissingBuiltin { name: String },
    RecursionLimitReached,
}

/// Mathematical image of a `RunnerError`.
pub enum SpecRunnerError {
    UndefinedVariable { name: Seq<char> },
    BinaryOperationOnNonNumbers,
    ApplyNonFunction,
    InvalidUnaryOperation,
    MissingBuiltin { name: Seq<char> },
    RecursionLimitReached,
}

impl View for RunnerError {
    type V = SpecRunnerError;

    open spec fn view(&self) -> SpecRunnerError {
        match self {
            RunnerError::UndefinedVariable { name } => SpecRunnerError::UndefinedVariable {
                name: name@,
            },
            RunnerError::BinaryOperationOnNonNumbers => SpecRunnerError::BinaryOperationOnNonNumbers,
            RunnerError::ApplyNonFunction => SpecRunnerError::ApplyNonFunction,
            RunnerError::InvalidUnaryOperation => SpecRunnerError::InvalidUnaryOperation,
            RunnerError::MissingBuiltin { name } => SpecRunnerError::MissingBuiltin { name: name@ },
            RunnerError::RecursionLimitReached => SpecRunnerError::RecursionLimitReached,
        }
    }
}

/// A value: a number (held as its IEEE 754 single-precision bit pattern) or
/// a closure bundling a parameter, a body, and a snapshot of the defining
/// environment.
#[derive(Debug, PartialEq)]
pub enum Value {
    Number(u32),
    Function { param: String, body: Box<Expression>, env: Env },
}

/// Mathematical image of a `Value`: a closure's environment becomes a
/// finite map from names to values.
pub enum SpecValue {
    Number { value: u32 },
    Closure { param: Seq<char>, body: SpecExpr, env: Map<Seq<char>, SpecValue> },
}

/// An environment: a mapping from names to values. It is held as a
/// persistent association structure in which later bindings shadow
/// earlier ones; its mathematical image is the finite map those bindings
/// describe.
#[derive(Debug, PartialEq)]
pub struct Env {
    head: Option<Box<EnvNode>>,
}

#[derive(Debug, PartialEq)]
struct EnvNode {
    name: String,
    value: Value,
    rest: Env,
}

impl Value {
    /// The mathematical image of this value.
    pub open spec fn spec_view(self) -> SpecValue
        decreases self,
    {
        match self {
            Value::Number(bits) => SpecValue::Number { value: bits },
            Value::Function { param, body, env } => SpecValue::Closure {
                param: param@,
                body: body@,
                env: env.spec_view(),
            },
        }
    }
}

impl View for Value {
    type V = SpecValue;

    open spec fn view(&self) -> SpecValue {
        self.spec_view()
    }
}

impl Env {
    /// The mathematical image of this environment.
    pub closed spec fn spec_view(self) -> Map<Seq<char>, SpecValue>
        decreases self,
    {
        match self.head {
            None => Map::empty(),
            Some(node) => node.rest.spec_view().insert(node.name@, node.value.spec_view()),
        }
    }
}

impl View for Env {
    type V = Map<Seq<char>, SpecValue>;

    open spec fn view(&self) -> Map<Seq<char>, SpecValue> {
        self.spec_view()
    }
}

impl Env {
    /// The empty environment.
    pub fn new() -> (r: Env)
        ensures
            r@ == Map::<Seq<char>, SpecValue>::empty(),
    {
        Env { head: None }
    }

    /// The value bound to `name`, if any.
    pub fn get<'a>(&'a self, name: &str) -> (r: Option<&'a Value>)
        ensures
            match r {
                Some(v) => self@.contains_key(name@) && v@ == self@[name@],
                None => !self@.contains_key(name@),
            },
        decreases self,
    {
        match &self.head {
            None => None,
            Some(node) => {
                if str_eq(node.name.as_str(), name) {
                    Some(&node.value)
                } else {
                    node.rest.get(name)
                }
            },
        }
    }

    /// Bind `name` to `value`, shadowing any earlier binding of the name.
    pub fn insert(&mut self, name: String, value: Value)
        ensures
            final(self)@ == old(self)@.insert(name@, value@),
    {
        let mut taken = Env { head: None };
        core::mem::swap(&mut taken, self);
        self.head = Some(Box::new(EnvNode { name, value, rest: taken }));
    }

    /// An independent copy with the same mathematical image: the snapshot a
    /// closure captures.
    pub fn duplicate(&self) -> (r: Env)
        ensures
            r@ == self@,
        decreases self,
    {
        match &self.head {
            None => Env { head: None },
            Some(node) => Env {
                head: Some(
                    Box::new(
                        EnvNode {
                            name: node.name.clone(),
                            value: node.value.duplicate(),
                            rest: node.rest.duplicate(),
                        },
                    ),
                ),
            },
        }
    }
}

impl Value {
    /// An owned copy of this value with the same mathematical image.
    pub fn duplicate(&self) -> (r: Value)
        ensures
            r@ == self@,
        decreases self,
    {
        match self {
            Value::Number(bits) => Value::Number(*bits),
            Value::Function { param, body, env } => Value::Function {
                param: param.clone(),
                body: Box::new(body.duplicate()),
                env: env.duplicate(),
            },
        }
    }
}

/// Whether two string slices hold the same characters.
pub fn str_eq(a: &str, b: &str) -> (r: bool)
    ensures
        r == (a@ == b@),
{
    let a_len = a.unicode_len();
    let b_len = b.unicode_len();
    if a_len != b_len {
        return false;
    }
    let mut i: usize = 0;
    while i < a_len
        invariant
            i <= a_len,
            a_len == a@.len(),
            a_len == b@.len(),
            forall|j: int| 0 <= j < i ==> a@[j] == b@[j],
        decreases a_len - i,
    {
        if a.get_char(i) != b.get_char(i) {
            return false;
        }
        i = i + 1;
    }
    proof {
        assert(a@ =~= b@);
    }
    true
}

/// The outcome of a relational operator whose test came out as `test`: one
/// of the closures bound to `true` and `false`, or the configuration error
/// when either binding is missing.
pub open spec fn church_bool_spec(test: bool, env: Map<Seq<char>, SpecValue>) -> Result<
    SpecValue,
    SpecRunnerError,
> {
    if !env.contains_key("true"@) {
        Err(SpecRunnerError::MissingBuiltin { name: "true"@ })
    } else if !env.contains_key("false"@) {
        Err(SpecRunnerError::MissingBuiltin { name: "false"@ })
    } else if test {
        Ok(env["true"@])
    } else {
        Ok(env["false"@])
    }
}

/// The outcome of a binary operator on two already-evaluated operands.
/// Both must be numbers; an arithmetic operator yields the IEEE 754 result,
/// a relational operator selects a boolean closure from the environment.
pub open spec fn eval_binary_spec(
    op: BinaryOperator,
    lv: SpecValue,
    rv: SpecValue,
    env: Map<Seq<char>, SpecValue>,
) -> Result<SpecValue, SpecRunnerError> {
    match (lv, rv) {
        (SpecValue::Number { value: a }, SpecValue::Number { value: b }) => match op {
            BinaryOperator::Add => Ok(SpecValue::Number { value: add_bits(a, b) }),
            BinaryOperator::Sub => Ok(SpecValue::Number { value: sub_bits(a, b) }),
            BinaryOperator::Mul => Ok(SpecValue::Number { value: mul_bits(a, b) }),
            BinaryOperator::Div => Ok(SpecValue::Number { value: div_bits(a, b) }),
            BinaryOperator::Expo => Ok(SpecValue::Number { value: pow_bits(a, b) }),
            BinaryOperator::Equal => church_bool_spec(eq_bits(a, b), env),
            BinaryOperator::NotEqual => church_bool_spec(ne_bits(a, b), env),
            BinaryOperator::LessThan => church_bool_spec(lt_bits(a, b), env),
            BinaryOperator::LessThanOrEqual => church_bool_spec(le_bits(a, b), env),
            BinaryOperator::GreaterThan => church_bool_spec(gt_bits(a, b), env),
            BinaryOperator::GreaterThanOrEqual => church_bool_spec(ge_bits(a, b), env),
        },
        _ => Err(SpecRunnerError::BinaryOperationOnNonNumbers),
    }
}

/// Evaluation itself. `fuel` bounds the nesting of function applications:
/// each application of a closure body consumes one unit, and running out is
/// the `RecursionLimitReached` error. Everything else is structural
/// recursion on the expression.
pub open spec fn eval_spec(fuel: nat, e: SpecExpr, env: Map<Seq<char>, SpecValue>) -> Result<
    SpecValue,
    SpecRunnerError,
>
    decreases fuel, e,
{
    match e {
        SpecExpr::Number { value } => Ok(SpecValue::Number { value }),
        SpecExpr::Name { value } => {
            if env.contains_key(value) {
                Ok(env[value])
            } else {
                Err(SpecRunnerError::UndefinedVariable { name: value })
            }
        },
        SpecExpr::Function { name, body } => Ok(
            SpecValue::Closure { param: name, body: *body, env },
        ),
        SpecExpr::UnaryOperation { operator: _, operand } => match eval_spec(fuel, *operand, env) {
            Err(err) => Err(err),
            Ok(v) => match v {
                SpecValue::Number { value } => Ok(SpecValue::Number { value: neg_bits(value) }),
                _ => Err(SpecRunnerError::InvalidUnaryOperation),
            },
        },
        SpecExpr::BinaryOperation { lhs, operator, rhs } => match eval_spec(fuel, *lhs, env) {
            Err(err) => Err(err),
            Ok(lv) => match eval_spec(fuel, *rhs, env) {
                Err(err) => Err(err),
                Ok(rv) => eval_binary_spec(operator, lv, rv, env),
            },
        },
        SpecExpr::Application { lhs, rhs } => match eval_spec(fuel, *lhs, env) {
            Err(err) => Err(err),
            Ok(fv) => match fv {
                SpecValue::Closure { param, body, env: cenv } => match eval_spec(
                    fuel,
                    *rhs,
                    env,
                ) {
                    Err(err) => Err(err),
                    Ok(av) => {
                        if fuel == 0 {
                            Err(SpecRunnerError::RecursionLimitReached)
                        } else {
                            eval_spec((fuel - 1) as nat, body, cenv.insert(param, av))
                        }
                    },
                },
                _ => Err(SpecRunnerError::ApplyNonFunction),
            },
        },
    }
}

/// The mathematical image of an evaluation outcome.
pub open spec fn res_view(r: Result<Value, RunnerError>) -> Result<SpecValue, SpecRunnerError> {
    match r {
        Ok(v) => Ok(v@),
        Err(e) => Err(e@),
    }
}

/// One of the closures bound to `true` and `false`, selected by `test`.
fn church_bool(test: bool, env: &Env) -> (r: Result<Value, RunnerError>)
    ensures
        res_view(r) == church_bool_spec(test, env@),
{
    let true_value = match env.get("true") {
        Some(v) => v,
        None => {
            return Err(RunnerError::MissingBuiltin { name: "true".to_owned() });
        },
    };
    let false_value = match env.get("false") {
        Some(v) => v,
        None => {
            return Err(RunnerError::MissingBuiltin { name: "false".to_owned() });
        },
    };
    if test {
        Ok(true_value.duplicate())
    } else {
        Ok(false_value.duplicate())
    }
}

/// Evaluate an expression against an environment. Pure with respect to the
/// environment: the result is exactly the mathematical evaluation of the
/// expression's image against the environment's image, with `fuel`
/// bounding the nesting of function applications.
pub fn evaluate_expression(expr: &Expression, env: &Env, fuel: u64) -> (r: Result<
    Value,
    RunnerError,
>)
    ensures
        res_view(r) == eval_spec(fuel as nat, expr@, env@),
    decreases fuel, expr,
{
    match expr {
        Expression::Number { value } => Ok(Value::Number(*value)),
        Expression::Name { value } => match env.get(value.as_str()) {
            Some(v) => Ok(v.duplicate()),
            None => Err(RunnerError::UndefinedVariable { name: value.clone() }),
        },
        Expression::Function { name, body } => Ok(
            Value::Function {
                param: name.clone(),
                body: Box::new(body.duplicate()),
                env: env.duplicate(),
            },
        ),
        Expression::UnaryOperation { operator: UnaryOperator::Sub, operand } => {
            let v = match evaluate_expression(operand, env, fuel) {
                Ok(v) => v,
                Err(e) => {
                    return Err(e);
                },
            };
            match v {
                Value::Number(bits) => Ok(Value::Number(float_neg(bits))),
                _ => Err(RunnerError::InvalidUnaryOperation),
            }
        },
        Expression::BinaryOperation { lhs, operator, rhs } => {
            let left_val = match evaluate_expression(lhs, env, fuel) {
                Ok(v) => v,
                Err(e) => {
                    return Err(e);
                },
            };
            let right_val = match evaluate_expression(rhs, env, fuel) {
                Ok(v) => v,
                Err(e) => {
                    return Err(e);
                },
            };
            match (left_val, right_val) {
                (Value::Number(a), Value::Number(b)) => match operator {
                    BinaryOperator::Add => Ok(Value::Number(float_add(a, b))),
                    BinaryOperator::Sub => Ok(Value::Number(float_sub(a, b))),
                    BinaryOperator::Mul => Ok(Value::Number(float_mul(a, b))),
                    BinaryOperator::Div => Ok(Value::Number(float_div(a, b))),
                    BinaryOperator::Expo => Ok(Value::Number(float_pow(a, b))),
                    BinaryOperator::Equal => church_bool(float_eq(a, b), env),
                    BinaryOperator::NotEqual => church_bool(float_ne(a, b), env),
                    BinaryOperator::LessThan => church_bool(float_lt(a, b), env),
                    BinaryOperator::LessThanOrEqual => church_bool(float_le(a, b), env),
                    BinaryOperator::GreaterThan => church_bool(float_gt(a, b), env),
                    BinaryOperator::GreaterThanOrEqual => church_bool(float_ge(a, b), env),
                },
                _ => Err(RunnerError::BinaryOperationOnNonNumbers),
            }
        },
        Expression::Application { lhs, rhs } => {
            let func_val = match evaluate_expression(lhs, env, fuel) {
                Ok(v) => v,
                Err(e) => {
                    return Err(e);
                },
            };
            match func_val {
                Value::Function { param, body, env: mut call_env } => {
                    let arg = match evaluate_expression(rhs, env, fuel) {
                        Ok(v) => v,
                        Err(e) => {
                            return Err(e);
                        },
                    };
                    if fuel == 0 {
                        return Err(RunnerError::RecursionLimitReached);
                    }
                    call_env.insert(param, arg);
                    evaluate_expression(&body, &call_env, fuel - 1)
                },
                _ => Err(RunnerError::ApplyNonFunction),
            }
        },
    }
}

/// The nesting of function applications allowed by `Runner::run`: the
/// explicit stand-in for the native call stack's practical limit.
pub const DEFAULT_EVAL_FUEL: u64 = 1000000;

/// The global environment after the statements from `i` on have run
/// against `env`, together with the error that stopped them, if one did.
/// Each statement's expression is evaluated against the environment as the
/// earlier statements left it, and its result is bound under the
/// statement's name; the first failure stops the run and keeps the
/// bindings already made.
pub open spec fn run_statements_spec(
    stmts: Seq<SpecStatement>,
    i: int,
    env: Map<Seq<char>, SpecValue>,
    fuel: nat,
) -> (Map<Seq<char>, SpecValue>, Option<SpecRunnerError>)
    decreases stmts.len() - i,
{
    if i < 0 || i >= stmts.len() {
        (env, None)
    } else {
        match eval_spec(fuel, stmts[i].value, env) {
            Err(err) => (env, Some(err)),
            Ok(v) => run_statements_spec(stmts, i + 1, env.insert(stmts[i].name, v), fuel),
        }
    }
}

/// The evaluator's driver: a program and the global environment its
/// statements grow, one binding per executed statement.
pub struct Runner {
    pub globals: Env,
    program: Program,
}

impl Runner {
    /// The mathematical image of the program to run.
    pub closed spec fn spec_program(&self) -> Seq<SpecStatement> {
        self.program@
    }

    /// The mathematical image of the global environment.
    pub closed spec fn spec_globals(&self) -> Map<Seq<char>, SpecValue> {
        self.globals@
    }

    /// A runner for `program`, with an empty global environment.
    pub fn new(program: Program) -> (r: Runner)
        ensures
            r.spec_program() == program@,
            r.spec_globals() == Map::<Seq<char>, SpecValue>::empty(),
    {
        Runner { program, globals: Env::new() }
    }

    /// The value bound to `name` in the global environment, if any.
    pub fn get_global<'a>(&'a self, name: &str) -> (r: Option<&'a Value>)
        ensures
            match r {
                Some(v) => self.spec_globals().contains_key(name@) && v@
                    == self.spec_globals().index(name@),
                None => !self.spec_globals().contains_key(name@),
            },
    {
        self.globals.get(name)
    }

    /// Run every statement in order against the global environment, with
    /// the default bound on the nesting of function applications.
    pub fn run(&mut self) -> (r: Result<(), RunnerError>)
        ensures
            final(self).spec_program() == old(self).spec_program(),
            final(self).spec_globals() == run_statements_spec(
                old(self).spec_program(),
                0,
                old(self).spec_globals(),
                DEFAULT_EVAL_FUEL as nat,
            ).0,
            match r {
                Ok(_) => run_statements_spec(
                    old(self).spec_program(),
                    0,
                    old(self).spec_globals(),
                    DEFAULT_EVAL_FUEL as nat,
                ).1 is None,
                Err(e) => run_statements_spec(
                    old(self).spec_program(),
                    0,
                    old(self).spec_globals(),
                    DEFAULT_EVAL_FUEL as nat,
                ).1 == Some(e@),
            },
    {
        self.run_with_fuel(DEFAULT_EVAL_FUEL)
    }

    /// Run every statement in order against the global environment, with
    /// `fuel` bounding the nesting of function applications.
    #[verifier::loop_isolation(false)]
    pub fn run_with_fuel(&mut self, fuel: u64) -> (r: Result<(), RunnerError>)
        ensures
            final(self).spec_program() == old(self).spec_program(),
            final(self).spec_globals() == run_statements_spec(
                old(self).spec_program(),
                0,
                old(self).spec_globals(),
                fuel as nat,
            ).0,
            match r {
                Ok(_) => run_statements_spec(
                    old(self).spec_program(),
                    0,
                    old(self).spec_globals(),
                    fuel as nat,
                ).1 is None,
                Err(e) => run_statements_spec(
                    old(self).spec_program(),
                    0,
                    old(self).spec_globals(),
                    fuel as nat,
                ).1 == Some(e@),
            },
    {
        run_statements(&self.program, &mut self.globals, fuel)
    }
}

/// Run every statement of `program` in order against `globals`: each
/// statement's expression is evaluated against the environment as the
/// earlier statements left it, and its result is bound under the
/// statement's name. The first failure stops the run and keeps the
/// bindings already made.
#[verifier::loop_isolation(false)]
pub fn run_statements(program: &Program, globals: &mut Env, fuel: u64) -> (r: Result<
    (),
    RunnerError,
>)
    ensures
        final(globals)@ == run_statements_spec(program@, 0, old(globals)@, fuel as nat).0,
        match r {
            Ok(_) => run_statements_spec(program@, 0, old(globals)@, fuel as nat).1 is None,
            Err(e) => run_statements_spec(program@, 0, old(globals)@, fuel as nat).1 == Some(e@),
        },
{
    let ghost stmts = program@;
    let ghost env0 = globals@;
    let mut i: usize = 0;
    while i < program.statements.len()
        invariant
            i <= program.statements.len(),
            run_statements_spec(stmts, 0, env0, fuel as nat) == run_statements_spec(
                stmts,
                i as int,
                globals@,
                fuel as nat,
            ),
        decreases program.statements.len() - i,
    {
        let stmt = &program.statements[i];
        let val = match evaluate_expression(&stmt.value, globals, fuel) {
            Ok(v) => v,
            Err(e) => {
                return Err(e);
            },
        };
        let name = stmt.name.clone();
        globals.insert(name, val);
        i = i + 1;
    }
    Ok(())
}

} // verus!
