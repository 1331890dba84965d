use lambent::builtins::load_builtins;
use lambent::lexer::Lexer;
use lambent::parser::{Expression, Parser, Program};
use lambent::pipeline::{run_lambent_code, LanguageError};
use lambent::runner::{
    evaluate_expression, Env, Runner, RunnerError, Value, DEFAULT_EVAL_FUEL,
};

const BOOLEAN_PRELUDE: &str = "true = L a. L b. a; false = L a. L b. b;";

fn parse(source: &str) -> Program {
    let tokens = Lexer::new(source.to_string()).scan_all_tokens().expect("source should lex");
    Parser::new(tokens).parse_program().expect("source should parse")
}

fn run(source: &str) -> Runner {
    let mut runner = Runner::new(parse(source));
    runner.run().expect("program should run");
    runner
}

fn run_with_prelude(source: &str) -> Runner {
    let mut runner = Runner::new(parse(source));
    load_builtins(&mut runner.globals, BOOLEAN_PRELUDE).expect("prelude should load");
    runner.run().expect("program should run");
    runner
}

fn run_error(source: &str) -> RunnerError {
    let mut runner = Runner::new(parse(source));
    runner.run().expect_err("program should fail")
}

fn global_number(runner: &Runner, name: &str) -> f32 {
    match runner.globals.get(name) {
        Some(Value::Number(bits)) => f32::from_bits(*bits),
        Some(_) => panic!("binding {} is not a number", name),
        None => panic!("binding {} is missing", name),
    }
}

#[test]
fn eval_number_is_exact_and_repeatable() {
    let expr = Expression::Number { value: 5.0f32.to_bits() };
    let env = Env::new();
    let first = evaluate_expression(&expr, &env, DEFAULT_EVAL_FUEL);
    let second = evaluate_expression(&expr, &env, DEFAULT_EVAL_FUEL);
    assert_eq!(first, Ok(Value::Number(5.0f32.to_bits())));
    assert_eq!(second, Ok(Value::Number(5.0f32.to_bits())));
}

#[test]
fn eval_arithmetic() {
    let runner = run("a = 1 + 2; s = 10 - 3; m = 6 * 7; d = 7 / 2; e = 2 ^ 10;");
    assert_eq!(global_number(&runner, "a"), 3.0);
    assert_eq!(global_number(&runner, "s"), 7.0);
    assert_eq!(global_number(&runner, "m"), 42.0);
    assert_eq!(global_number(&runner, "d"), 3.5);
    assert_eq!(global_number(&runner, "e"), 1024.0);
}

#[test]
fn eval_fractional_exponent() {
    let runner = run("r = 2 ^ 0.5;");
    assert_eq!(global_number(&runner, "r"), 2.0f32.sqrt());
}

#[test]
fn eval_unary_negation() {
    let runner = run("r = -5; s = --5;");
    assert_eq!(global_number(&runner, "r"), -5.0);
    assert_eq!(global_number(&runner, "s"), 5.0);
}

#[test]
fn eval_decimal_literal() {
    let runner = run("r = 2.5;");
    assert_eq!(global_number(&runner, "r"), 2.5);
}

#[test]
fn closure_purity_across_calls() {
    let runner = run("f = L x.x+1; y = f 5; z = f 10; w = f 5;");
    assert_eq!(global_number(&runner, "y"), 6.0);
    assert_eq!(global_number(&runner, "z"), 11.0);
    assert_eq!(global_number(&runner, "w"), 6.0);
}

#[test]
fn closure_captures_a_snapshot() {
    let runner = run("x = 1; f = L a.a+x; x = 2; y = f 0; x2 = x;");
    assert_eq!(global_number(&runner, "y"), 1.0);
    assert_eq!(global_number(&runner, "x2"), 2.0);
}

#[test]
fn curried_application() {
    let runner = run("add2 = L a. L b. a+b; r = add2 3 4;");
    assert_eq!(global_number(&runner, "r"), 7.0);
}

#[test]
fn later_statements_see_earlier_bindings() {
    let runner = run("a = 2; b = a * 3; c = a + b;");
    assert_eq!(global_number(&runner, "c"), 8.0);
}

#[test]
fn undefined_variable_is_an_error() {
    assert_eq!(
        run_error("r = nope;"),
        RunnerError::UndefinedVariable { name: "nope".to_string() }
    );
}

#[test]
fn failure_keeps_earlier_bindings() {
    let mut runner = Runner::new(parse("a = 1; r = nope; b = 2;"));
    let err = runner.run().expect_err("program should fail");
    assert_eq!(err, RunnerError::UndefinedVariable { name: "nope".to_string() });
    assert_eq!(global_number(&runner, "a"), 1.0);
    assert!(runner.globals.get("b").is_none());
}

#[test]
fn applying_a_number_is_an_error() {
    assert_eq!(run_error("r = 5 3;"), RunnerError::ApplyNonFunction);
}

#[test]
fn negating_a_function_is_an_error() {
    assert_eq!(run_error("r = -(L x.x);"), RunnerError::InvalidUnaryOperation);
}

#[test]
fn binary_operation_on_function_is_an_error() {
    assert_eq!(
        run_error("f = L x.x; r = f + 1;"),
        RunnerError::BinaryOperationOnNonNumbers
    );
}

#[test]
fn relational_before_bootstrap_is_a_distinct_error() {
    assert_eq!(
        run_error("r = 1 < 2;"),
        RunnerError::MissingBuiltin { name: "true".to_string() }
    );
}

#[test]
fn arithmetic_needs_no_bootstrap() {
    let runner = run("r = 1 + 2;");
    assert_eq!(global_number(&runner, "r"), 3.0);
}

#[test]
fn relational_true_selects_first_branch() {
    let runner = run_with_prelude("r = (1 < 2) 10 20;");
    assert_eq!(global_number(&runner, "r"), 10.0);
}

#[test]
fn relational_false_selects_second_branch() {
    let runner = run_with_prelude("r = (2 < 1) 10 20;");
    assert_eq!(global_number(&runner, "r"), 20.0);
}

#[test]
fn all_relational_operators_select() {
    let runner = run_with_prelude(
        "a = (1 == 1) 1 0; b = (1 != 1) 1 0; c = (1 <= 1) 1 0; d = (2 > 1) 1 0; e = (1 >= 2) 1 0; f = (1 < 1) 1 0;",
    );
    assert_eq!(global_number(&runner, "a"), 1.0);
    assert_eq!(global_number(&runner, "b"), 0.0);
    assert_eq!(global_number(&runner, "c"), 1.0);
    assert_eq!(global_number(&runner, "d"), 1.0);
    assert_eq!(global_number(&runner, "e"), 0.0);
    assert_eq!(global_number(&runner, "f"), 0.0);
}

#[test]
fn self_application_reaches_the_recursion_limit() {
    let mut runner = Runner::new(parse("w = L x. x x; r = w w;"));
    let err = runner.run_with_fuel(1000).expect_err("program should fail");
    assert_eq!(err, RunnerError::RecursionLimitReached);
}

#[test]
fn zero_fuel_refuses_any_application() {
    let program = parse("r = (L x.x) 5;");
    let expr = &program.statements[0].value;
    let env = Env::new();
    assert_eq!(
        evaluate_expression(expr, &env, 0),
        Err(RunnerError::RecursionLimitReached)
    );
    assert_eq!(
        evaluate_expression(expr, &env, 1),
        Ok(Value::Number(5.0f32.to_bits()))
    );
}

#[test]
fn load_builtins_binds_booleans() {
    let mut env = Env::new();
    load_builtins(&mut env, BOOLEAN_PRELUDE).expect("prelude should load");
    assert!(env.get("true").is_some());
    assert!(env.get("false").is_some());
}

#[test]
fn load_builtins_reports_bad_source() {
    let mut env = Env::new();
    let result = load_builtins(&mut env, "true = ;");
    assert!(matches!(result, Err(LanguageError::Parse(_))));
    assert!(env.get("true").is_none());
}

#[test]
fn pipeline_returns_the_result_binding() {
    assert_eq!(
        run_lambent_code("x = 20; result = x * 2 + 2;"),
        Ok(Value::Number(42.0f32.to_bits()))
    );
}

#[test]
fn pipeline_without_result_binding_is_an_error() {
    assert_eq!(run_lambent_code("x = 1;"), Err(LanguageError::NoResultBinding));
}

#[test]
fn pipeline_reports_lex_errors() {
    assert!(matches!(run_lambent_code("x = $;"), Err(LanguageError::Lex(_))));
}

#[test]
fn pipeline_reports_parse_errors() {
    assert!(matches!(run_lambent_code("x = ;"), Err(LanguageError::Parse(_))));
}

#[test]
fn pipeline_reports_runtime_errors() {
    assert_eq!(
        run_lambent_code("result = missing;"),
        Err(LanguageError::Run(RunnerError::UndefinedVariable { name: "missing".to_string() }))
    );
}
