//! General properties of evaluation, stated and proved over the
//! mathematical model that the evaluator's contracts use. Each holds for
//! every environment, every fuel, and every expression its statement
//! quantifies over.

use vstd::prelude::*;
use crate::parser::{BinaryOperator, SpecExpr};
use crate::runner::{church_bool_spec, eval_spec, SpecRunnerError, SpecValue};

verus! {

/// Evaluating a number literal always yields exactly that number, in
/// every environment and at every fuel; and since evaluation is a
/// function of the expression and the environment alone, it does so
/// identically on every repetition.
pub proof fn lemma_eval_number(fuel: nat, value: u32, env: Map<Seq<char>, SpecValue>)
    ensures
        eval_spec(fuel, SpecExpr::Number { value }, env) == Ok::<SpecValue, SpecRunnerError>(
            SpecValue::Number { value },
        ),
{
}

/// What applying a value to an argument yields: a closure's body runs
/// against the closure's captured snapshot extended with the argument
/// (one unit of fuel consumed), and anything else refuses. No part of
/// this depends on the environment the application stands in.
pub open spec fn apply_spec(fuel: nat, fv: SpecValue, av: SpecValue) -> Result<
    SpecValue,
    SpecRunnerError,
> {
    match fv {
        SpecValue::Closure { param, body, env } => {
            if fuel == 0 {
                Err(SpecRunnerError::RecursionLimitReached)
            } else {
                eval_spec((fuel - 1) as nat, body, env.insert(param, av))
            }
        },
        _ => Err(SpecRunnerError::ApplyNonFunction),
    }
}

/// An application whose two sides evaluate is exactly the application of
/// the function value to the argument value: the call-site environment
/// plays no further part once the two values are in hand.
pub proof fn lemma_application_applies_values(
    fuel: nat,
    f: SpecExpr,
    a: SpecExpr,
    env: Map<Seq<char>, SpecValue>,
    fv: SpecValue,
    av: SpecValue,
)
    requires
        eval_spec(fuel, f, env) == Ok::<SpecValue, SpecRunnerError>(fv),
        eval_spec(fuel, a, env) == Ok::<SpecValue, SpecRunnerError>(av),
    ensures
        eval_spec(fuel, SpecExpr::Application { lhs: Box::new(f), rhs: Box::new(a) }, env)
            == apply_spec(fuel, fv, av),
{
}

/// Closure purity: the same closure applied to the same argument value
/// yields the same result, whatever the two call sites' environments are
/// and whatever expressions computed the closure and the argument. A
/// closure owns its snapshot, so no binding made between the two calls,
/// and no difference between the callers' scopes, can interfere.
pub proof fn lemma_closure_purity(
    fuel: nat,
    f1: SpecExpr,
    a1: SpecExpr,
    env1: Map<Seq<char>, SpecValue>,
    f2: SpecExpr,
    a2: SpecExpr,
    env2: Map<Seq<char>, SpecValue>,
    c: SpecValue,
    v: SpecValue,
)
    requires
        eval_spec(fuel, f1, env1) == Ok::<SpecValue, SpecRunnerError>(c),
        eval_spec(fuel, a1, env1) == Ok::<SpecValue, SpecRunnerError>(v),
        eval_spec(fuel, f2, env2) == Ok::<SpecValue, SpecRunnerError>(c),
        eval_spec(fuel, a2, env2) == Ok::<SpecValue, SpecRunnerError>(v),
    ensures
        eval_spec(fuel, SpecExpr::Application { lhs: Box::new(f1), rhs: Box::new(a1) }, env1)
            == eval_spec(
            fuel,
            SpecExpr::Application { lhs: Box::new(f2), rhs: Box::new(a2) },
            env2,
        ),
{
    lemma_application_applies_values(fuel, f1, a1, env1, c, v);
    lemma_application_applies_values(fuel, f2, a2, env2, c, v);
}

/// A reference to a name the environment does not bind yields the
/// undefined-variable error naming it — an error value, never a crash:
/// the evaluator is verified free of panics.
pub proof fn lemma_unbound_name_is_reported(
    fuel: nat,
    name: Seq<char>,
    env: Map<Seq<char>, SpecValue>,
)
    requires
        !env.contains_key(name),
    ensures
        eval_spec(fuel, SpecExpr::Name { value: name }, env) == Err::<
            SpecValue,
            SpecRunnerError,
        >(SpecRunnerError::UndefinedVariable { name }),
{
}

/// Applying anything that evaluates to a number yields the
/// apply-non-function error, whatever the argument expression is.
pub proof fn lemma_apply_number_is_reported(
    fuel: nat,
    f: SpecExpr,
    a: SpecExpr,
    env: Map<Seq<char>, SpecValue>,
    bits: u32,
)
    requires
        eval_spec(fuel, f, env) == Ok::<SpecValue, SpecRunnerError>(
            SpecValue::Number { value: bits },
        ),
    ensures
        eval_spec(fuel, SpecExpr::Application { lhs: Box::new(f), rhs: Box::new(a) }, env)
            == Err::<SpecValue, SpecRunnerError>(SpecRunnerError::ApplyNonFunction),
{
}

/// Whether an operator is relational, so that its result is one of the
/// boolean closures the bootstrap installs.
pub open spec fn spec_is_relational(op: BinaryOperator) -> bool {
    match op {
        BinaryOperator::Equal => true,
        BinaryOperator::NotEqual => true,
        BinaryOperator::LessThan => true,
        BinaryOperator::LessThanOrEqual => true,
        BinaryOperator::GreaterThan => true,
        BinaryOperator::GreaterThanOrEqual => true,
        _ => false,
    }
}

/// A relational operator evaluated before the bootstrap bound `true`
/// yields the missing-builtin configuration error naming `true` — never
/// an undefined-variable error, which would mask the real cause.
pub proof fn lemma_relational_needs_builtins(
    fuel: nat,
    lhs: SpecExpr,
    rhs: SpecExpr,
    op: BinaryOperator,
    env: Map<Seq<char>, SpecValue>,
    a: u32,
    b: u32,
)
    requires
        spec_is_relational(op),
        !env.contains_key("true"@),
        eval_spec(fuel, lhs, env) == Ok::<SpecValue, SpecRunnerError>(
            SpecValue::Number { value: a },
        ),
        eval_spec(fuel, rhs, env) == Ok::<SpecValue, SpecRunnerError>(
            SpecValue::Number { value: b },
        ),
    ensures
        eval_spec(
            fuel,
            SpecExpr::BinaryOperation { lhs: Box::new(lhs), operator: op, rhs: Box::new(rhs) },
            env,
        ) == Err::<SpecValue, SpecRunnerError>(
            SpecRunnerError::MissingBuiltin { name: "true"@ },
        ),
{
    assert(church_bool_spec(true, env) == Err::<SpecValue, SpecRunnerError>(
        SpecRunnerError::MissingBuiltin { name: "true"@ },
    ));
    assert(church_bool_spec(false, env) == Err::<SpecValue, SpecRunnerError>(
        SpecRunnerError::MissingBuiltin { name: "true"@ },
    ));
}

} // verus!
