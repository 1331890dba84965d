//! Tokens handed from the lexer to the parser: a kind plus the 1-based source
//! line the token was found on.

use vstd::prelude::*;

verus! {

/// The kind of a token. A `Number` carries the bit pattern of the IEEE 754
/// single-precision value of the literal, not the digits themselves.
#[derive(Debug, PartialEq)]
pub enum TokenKind {
    EOF,
    LeftParen,
    RightParen,
    Dot,
    Assign,
    Semicolon,
    Identifier(String),
    Number(u32),
    Add,
    Sub,
    Mul,
    Div,
    Expo,
    Lambda,
    Equal,
    NotEqual,
    GreaterThan,
    LessThan,
    GreaterThanOrEqual,
    LessThanOrEqual,
}

/// Mathematical image of a `TokenKind`: identifiers become character
/// sequences.
pub enum SpecTokenKind {
    EOF,
    LeftParen,
    RightParen,
    Dot,
    Assign,
    Semicolon,
    Identifier(Seq<char>),
    Number(u32),
    Add,
    Sub,
    Mul,
    Div,
    Expo,
    Lambda,
    Equal,
    NotEqual,
    GreaterThan,
    LessThan,
    GreaterThanOrEqual,
    LessThanOrEqual,
}

impl View for TokenKind {
    type V = SpecTokenKind;

    open spec fn view(&self) -> SpecTokenKind {
        match self {
            TokenKind::EOF => SpecTokenKind::EOF,
            TokenKind::LeftParen => SpecTokenKind::LeftParen,
            TokenKind::RightParen => SpecTokenKind::RightParen,
            TokenKind::Dot => SpecTokenKind::Dot,
            TokenKind::Assign => SpecTokenKind::Assign,
            TokenKind::Semicolon => SpecTokenKind::Semicolon,
            TokenKind::Identifier(s) => SpecTokenKind::Identifier(s@),
            TokenKind::Number(bits) => SpecTokenKind::Number(*bits),
            TokenKind::Add => SpecTokenKind::Add,
            TokenKind::Sub => SpecTokenKind::Sub,
            TokenKind::Mul => SpecTokenKind::Mul,
            TokenKind::Div => SpecTokenKind::Div,
            TokenKind::Expo => SpecTokenKind::Expo,
            TokenKind::Lambda => SpecTokenKind::Lambda,
            TokenKind::Equal => SpecTokenKind::Equal,
            TokenKind::NotEqual => SpecTokenKind::NotEqual,
            TokenKind::GreaterThan => SpecTokenKind::GreaterThan,
            TokenKind::LessThan => SpecTokenKind::LessThan,
            TokenKind::GreaterThanOrEqual => SpecTokenKind::GreaterThanOrEqual,
            TokenKind::LessThanOrEqual => SpecTokenKind::LessThanOrEqual,
        }
    }
}

impl DeepView for TokenKind {
    type V = SpecTokenKind;

    open spec fn deep_view(&self) -> SpecTokenKind {
        self.view()
    }
}

/// A token together with the source line it came from.
#[derive(Debug, PartialEq)]
pub struct Token {
    pub kind: TokenKind,
    pub line: usize,
}

/// Mathematical image of a `Token`.
pub struct SpecToken {
    pub kind: SpecTokenKind,
    pub line: nat,
}

impl View for Token {
    type V = SpecToken;

    open spec fn view(&self) -> SpecToken {
        SpecToken { kind: self.kind@, line: self.line as nat }
    }
}

impl DeepView for Token {
    type V = SpecToken;

    open spec fn deep_view(&self) -> SpecToken {
        self.view()
    }
}

impl TokenKind {
    /// An owned copy of this kind with the same mathematical image.
    pub fn duplicate(&self) -> (r: TokenKind)
        ensures
            r@ == self@,
    {
        match self {
            TokenKind::EOF => TokenKind::EOF,
            TokenKind::LeftParen => TokenKind::LeftParen,
            TokenKind::RightParen => TokenKind::RightParen,
            TokenKind::Dot => TokenKind::Dot,
            TokenKind::Assign => TokenKind::Assign,
            TokenKind::Semicolon => TokenKind::Semicolon,
            TokenKind::Identifier(s) => TokenKind::Identifier(s.clone()),
            TokenKind::Number(bits) => TokenKind::Number(*bits),
            TokenKind::Add => TokenKind::Add,
            TokenKind::Sub => TokenKind::Sub,
            TokenKind::Mul => TokenKind::Mul,
            TokenKind::Div => TokenKind::Div,
            TokenKind::Expo => TokenKind::Expo,
            TokenKind::Lambda => TokenKind::Lambda,
            TokenKind::Equal => TokenKind::Equal,
            TokenKind::NotEqual => TokenKind::NotEqual,
            TokenKind::GreaterThan => TokenKind::GreaterThan,
            TokenKind::LessThan => TokenKind::LessThan,
            TokenKind::GreaterThanOrEqual => TokenKind::GreaterThanOrEqual,
            TokenKind::LessThanOrEqual => TokenKind::LessThanOrEqual,
        }
    }
}

impl Token {
    /// An owned copy of this token with the same mathematical image.
    pub fn duplicate(&self) -> (r: Token)
        ensures
            r@ == self@,
    {
        Token { kind: self.kind.duplicate(), line: self.line }
    }
}

} // verus!
