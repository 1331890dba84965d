use lambent::lexer::Lexer;
use lambent::parser::{
    BinaryOperator, Expression, Parser, ParserError, Program, UnaryOperator,
};
use lambent::token::TokenKind;

fn parse(source: &str) -> Program {
    let tokens = Lexer::new(source.to_string()).scan_all_tokens().expect("source should lex");
    Parser::new(tokens).parse_program().expect("source should parse")
}

fn parse_error(source: &str) -> ParserError {
    let tokens = Lexer::new(source.to_string()).scan_all_tokens().expect("source should lex");
    Parser::new(tokens).parse_program().expect_err("source should not parse")
}

fn num(value: f32) -> Expression {
    Expression::Number { value: value.to_bits() }
}

fn name(value: &str) -> Expression {
    Expression::Name { value: value.to_string() }
}

fn binary(lhs: Expression, operator: BinaryOperator, rhs: Expression) -> Expression {
    Expression::BinaryOperation { lhs: Box::new(lhs), operator, rhs: Box::new(rhs) }
}

fn apply(lhs: Expression, rhs: Expression) -> Expression {
    Expression::Application { lhs: Box::new(lhs), rhs: Box::new(rhs) }
}

fn only_value(program: Program) -> Expression {
    assert_eq!(program.statements.len(), 1);
    program.statements.into_iter().next().unwrap().value
}

#[test]
fn parse_precedence_add_mul() {
    let value = only_value(parse("r = 1+2*3;"));
    assert_eq!(
        value,
        binary(num(1.0), BinaryOperator::Add, binary(num(2.0), BinaryOperator::Mul, num(3.0)))
    );
}

#[test]
fn parse_exponent_right_associative() {
    let value = only_value(parse("r = 2^3^2;"));
    assert_eq!(
        value,
        binary(num(2.0), BinaryOperator::Expo, binary(num(3.0), BinaryOperator::Expo, num(2.0)))
    );
}

#[test]
fn parse_add_left_associative() {
    let value = only_value(parse("r = 1-2-3;"));
    assert_eq!(
        value,
        binary(binary(num(1.0), BinaryOperator::Sub, num(2.0)), BinaryOperator::Sub, num(3.0))
    );
}

#[test]
fn parse_application_left_associative() {
    let value = only_value(parse("r = f x y;"));
    assert_eq!(value, apply(apply(name("f"), name("x")), name("y")));
}

#[test]
fn parse_application_binds_tighter_than_add() {
    let value = only_value(parse("r = f x + 1;"));
    assert_eq!(value, binary(apply(name("f"), name("x")), BinaryOperator::Add, num(1.0)));
}

#[test]
fn parse_lambda_body_extends_past_operator() {
    let value = only_value(parse("r = L a.a+1;"));
    assert_eq!(
        value,
        Expression::Function {
            name: "a".to_string(),
            body: Box::new(binary(name("a"), BinaryOperator::Add, num(1.0))),
        }
    );
}

#[test]
fn parse_parentheses_override_precedence() {
    let value = only_value(parse("r = (1+2)*3;"));
    assert_eq!(
        value,
        binary(binary(num(1.0), BinaryOperator::Add, num(2.0)), BinaryOperator::Mul, num(3.0))
    );
}

#[test]
fn parse_unary_negation() {
    let value = only_value(parse("r = -5;"));
    assert_eq!(
        value,
        Expression::UnaryOperation { operator: UnaryOperator::Sub, operand: Box::new(num(5.0)) }
    );
}

#[test]
fn parse_relational_below_add() {
    let value = only_value(parse("r = 1+1 == 2;"));
    assert_eq!(
        value,
        binary(binary(num(1.0), BinaryOperator::Add, num(1.0)), BinaryOperator::Equal, num(2.0))
    );
}

#[test]
fn parse_program_in_order() {
    let program = parse("a = 1; b = 2;");
    assert_eq!(program.statements.len(), 2);
    assert_eq!(program.statements[0].name, "a");
    assert_eq!(program.statements[1].name, "b");
}

#[test]
fn parse_empty_program() {
    let program = parse("");
    assert_eq!(program.statements.len(), 0);
}

#[test]
fn parse_missing_semicolon_is_an_error() {
    assert_eq!(
        parse_error("r = 1"),
        ParserError::UnexpectedToken {
            expected: ";".to_string(),
            found: TokenKind::EOF,
            line: 1,
        }
    );
}

#[test]
fn parse_missing_name_is_an_error() {
    assert_eq!(
        parse_error("= 5;"),
        ParserError::UnexpectedToken {
            expected: "Identifier".to_string(),
            found: TokenKind::Assign,
            line: 1,
        }
    );
}

#[test]
fn parse_missing_assign_is_an_error() {
    assert_eq!(
        parse_error("r 5;"),
        ParserError::UnexpectedToken {
            expected: "=".to_string(),
            found: TokenKind::Number(5.0f32.to_bits()),
            line: 1,
        }
    );
}

#[test]
fn parse_empty_expression_is_an_error() {
    assert_eq!(
        parse_error("r = ;"),
        ParserError::UnexpectedPrefix { kind: TokenKind::Semicolon, line: 1 }
    );
}

#[test]
fn parse_unbalanced_parenthesis_is_an_error() {
    assert_eq!(
        parse_error("r = (1;"),
        ParserError::UnexpectedToken {
            expected: ")".to_string(),
            found: TokenKind::Semicolon,
            line: 1,
        }
    );
}

#[test]
fn parse_lambda_without_parameter_is_an_error() {
    assert_eq!(
        parse_error("r = L 5.x;"),
        ParserError::UnexpectedToken {
            expected: "Identifier".to_string(),
            found: TokenKind::Number(5.0f32.to_bits()),
            line: 1,
        }
    );
}

#[test]
fn parse_lambda_without_dot_is_an_error() {
    assert_eq!(
        parse_error("r = L x x;"),
        ParserError::UnexpectedToken {
            expected: ".".to_string(),
            found: TokenKind::Identifier("x".to_string()),
            line: 1,
        }
    );
}

#[test]
fn parse_statement_on_empty_stream_is_an_error() {
    let mut parser = Parser::new(Vec::new());
    assert_eq!(
        parser.parse_statement(),
        Err(ParserError::NoTokenFound { expected: "Identifier".to_string() })
    );
}

#[test]
fn parse_expression_on_empty_stream_is_an_error() {
    let mut parser = Parser::new(Vec::new());
    assert_eq!(
        parser.parse_expression(),
        Err(ParserError::UnexpectedEOF { expected: "Expression".to_string() })
    );
}

#[test]
fn parse_error_reports_the_line() {
    assert_eq!(
        parse_error("a = 1;\nb = ;"),
        ParserError::UnexpectedPrefix { kind: TokenKind::Semicolon, line: 2 }
    );
}

#[test]
fn visualize_shows_the_tree() {
    let program = parse("r = 1+2*3;");
    assert_eq!(
        lambent::parser::visualize_program(&program),
        "Statement: r\n  BinaryOperation: Add\n    Number: 1\n    BinaryOperation: Mul\n      Number: 2\n      Number: 3\n"
    );
}

#[test]
fn visualize_lambda_and_application() {
    let program = parse("f = L a. g a;");
    assert_eq!(
        lambent::parser::visualize_program(&program),
        "Statement: f\n  Function (param: a)\n    Application:\n      Name: g\n      Name: a\n"
    );
}

#[test]
fn visualize_negated_decimal() {
    let program = parse("r = -2.5;");
    assert_eq!(
        lambent::parser::visualize_program(&program),
        "Statement: r\n  UnaryOperation: Sub\n    Number: 2.5\n"
    );
}

#[test]
fn visualize_two_statements() {
    let program = parse("a = x; b = 1;");
    assert_eq!(
        lambent::parser::visualize_program(&program),
        "Statement: a\n  Name: x\nStatement: b\n  Number: 1\n"
    );
}
