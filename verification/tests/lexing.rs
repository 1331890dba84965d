use lambent::lexer::{Lexer, LexerError};
use lambent::token::{Token, TokenKind};

fn lex(source: &str) -> Vec<Token> {
    Lexer::new(source.to_string()).scan_all_tokens().expect("source should lex")
}

fn kinds(source: &str) -> Vec<TokenKind> {
    lex(source).into_iter().map(|t| t.kind).collect()
}

#[test]
fn scan_simple_statement() {
    let tokens = lex("x = 5;");
    assert_eq!(
        tokens,
        vec![
            Token { kind: TokenKind::Identifier("x".to_string()), line: 1 },
            Token { kind: TokenKind::Assign, line: 1 },
            Token { kind: TokenKind::Number(5.0f32.to_bits()), line: 1 },
            Token { kind: TokenKind::Semicolon, line: 1 },
            Token { kind: TokenKind::EOF, line: 1 },
        ]
    );
}

#[test]
fn scan_decimal_number() {
    assert_eq!(
        kinds("2.5"),
        vec![TokenKind::Number(2.5f32.to_bits()), TokenKind::EOF]
    );
}

#[test]
fn scan_number_with_trailing_dot() {
    assert_eq!(
        kinds("5."),
        vec![TokenKind::Number(5.0f32.to_bits()), TokenKind::EOF]
    );
}

#[test]
fn scan_number_stops_at_second_dot() {
    assert_eq!(
        kinds("1.2.3"),
        vec![
            TokenKind::Number(1.2f32.to_bits()),
            TokenKind::Dot,
            TokenKind::Number(3.0f32.to_bits()),
            TokenKind::EOF,
        ]
    );
}

#[test]
fn scan_operators() {
    assert_eq!(
        kinds("( ) . + - * / ^ ; = == != < <= > >="),
        vec![
            TokenKind::LeftParen,
            TokenKind::RightParen,
            TokenKind::Dot,
            TokenKind::Add,
            TokenKind::Sub,
            TokenKind::Mul,
            TokenKind::Div,
            TokenKind::Expo,
            TokenKind::Semicolon,
            TokenKind::Assign,
            TokenKind::Equal,
            TokenKind::NotEqual,
            TokenKind::LessThan,
            TokenKind::LessThanOrEqual,
            TokenKind::GreaterThan,
            TokenKind::GreaterThanOrEqual,
            TokenKind::EOF,
        ]
    );
}

#[test]
fn scan_lambda_keyword() {
    assert_eq!(
        kinds("L x. x"),
        vec![
            TokenKind::Lambda,
            TokenKind::Identifier("x".to_string()),
            TokenKind::Dot,
            TokenKind::Identifier("x".to_string()),
            TokenKind::EOF,
        ]
    );
}

#[test]
fn scan_word_starting_with_l_is_identifier() {
    assert_eq!(
        kinds("Long L1"),
        vec![
            TokenKind::Identifier("Long".to_string()),
            TokenKind::Identifier("L1".to_string()),
            TokenKind::EOF,
        ]
    );
}

#[test]
fn scan_identifier_with_underscore_and_digits() {
    assert_eq!(
        kinds("foo_bar2"),
        vec![TokenKind::Identifier("foo_bar2".to_string()), TokenKind::EOF]
    );
}

#[test]
fn scan_comment_runs_to_end_of_line() {
    let tokens = lex("a = 1; # a comment = * L\nb = 2;");
    let b_tokens: Vec<&Token> = tokens
        .iter()
        .filter(|t| t.kind == TokenKind::Identifier("b".to_string()))
        .collect();
    assert_eq!(b_tokens.len(), 1);
    assert_eq!(b_tokens[0].line, 2);
}

#[test]
fn scan_counts_lines() {
    let tokens = lex("a = 1;\n\nb = 2;");
    assert_eq!(tokens[0].line, 1);
    assert_eq!(tokens[4].line, 3);
    assert_eq!(tokens.last().unwrap().kind, TokenKind::EOF);
}

#[test]
fn scan_trailing_whitespace_terminates() {
    let tokens = lex("x = 1;\n");
    assert_eq!(tokens.last().unwrap().kind, TokenKind::EOF);
    assert_eq!(tokens.last().unwrap().line, 2);
}

#[test]
fn scan_unexpected_character_is_an_error() {
    let result = Lexer::new("a = $;".to_string()).scan_all_tokens();
    assert_eq!(
        result,
        Err(LexerError::UnexpectedCharacter { character: '$', line: 1 })
    );
}

#[test]
fn scan_lone_bang_is_an_error() {
    let result = Lexer::new("a = !b;".to_string()).scan_all_tokens();
    assert_eq!(
        result,
        Err(LexerError::UnexpectedCharacter { character: '!', line: 1 })
    );
}

#[test]
fn scan_error_reports_the_line() {
    let result = Lexer::new("a = 1;\nb = %;".to_string()).scan_all_tokens();
    assert_eq!(
        result,
        Err(LexerError::UnexpectedCharacter { character: '%', line: 2 })
    );
}

#[test]
fn scan_single_token_steps() {
    let mut lexer = Lexer::new("x =".to_string());
    let t1 = lexer.scan_token().unwrap();
    assert_eq!(t1.kind, TokenKind::Identifier("x".to_string()));
    let t2 = lexer.scan_token().unwrap();
    assert_eq!(t2.kind, TokenKind::Assign);
    let t3 = lexer.scan_token().unwrap();
    assert_eq!(t3.kind, TokenKind::EOF);
}
