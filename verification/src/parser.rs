//! The parser: a precedence-climbing (Pratt) expression parser and a thin
//! statement grammar over it.
//!
//! Grammar decisions, fixed here and tested explicitly:
//! - every statement is `name = expression ;` — the semicolon terminator is
//!   part of the grammar;
//! - relational operators are part of the expression grammar;
//! - application by juxtaposition binds tighter than every explicit
//!   operator and associates to the left; exponentiation associates to the
//!   right; the other binary operators associate to the left;
//! - a lambda body greedily absorbs everything to its right, up to the
//!   enclosing boundary: the body of `L a.a+1` is the whole `a+1`.

use vstd::prelude::*;
use vstd::string::StringExecFns;
use crate::numeric::{decimal_of_bits, format_number};
use crate::token::{SpecToken, SpecTokenKind, Token, TokenKind};

verus! {

/// An error from the parser. Each variant names what was expected and, when
/// a token was in hand, what was found and on which line.
#[derive(Debug, PartialEq)]
pub enum ParserError {
    NoTokenFound { expected: String },
    UnexpectedToken { expected: String, found: TokenKind, line: usize },
    UnexpectedPrefix { kind: TokenKind, line: usize },
    UnexpectedEOF { expected: String },
}

/// Mathematical image of a `ParserError`.
pub enum SpecParserError {
    NoTokenFound { expected: Seq<char> },
    UnexpectedToken { expected: Seq<char>, found: SpecTokenKind, line: nat },
    UnexpectedPrefix { kind: SpecTokenKind, line: nat },
    UnexpectedEOF { expected: Seq<char> },
}

impl View for ParserError {
    type V = SpecParserError;

    open spec fn view(&self) -> SpecParserError {
        match self {
            ParserError::NoTokenFound { expected } => SpecParserError::NoTokenFound {
                expected: expected@,
            },
            ParserError::UnexpectedToken { expected, found, line } => SpecParserError::UnexpectedToken {
                expected: expected@,
                found: found@,
                line: *line as nat,
            },
            ParserError::UnexpectedPrefix { kind, line } => SpecParserError::UnexpectedPrefix {
                kind: kind@,
                line: *line as nat,
            },
            ParserError::UnexpectedEOF { expected } => SpecParserError::UnexpectedEOF {
                expected: expected@,
            },
        }
    }
}

/// The one unary operator: numeric negation.
#[derive(Clone, Copy, Debug, PartialEq)]
pub enum UnaryOperator {
    Sub,
}

/// The binary operators: arithmetic and relational.
#[derive(Clone, Copy, Debug, PartialEq)]
pub enum BinaryOperator {
    Add,
    Sub,
    Mul,
    Div,
    Expo,
    Equal,
    NotEqual,
    LessThan,
    LessThanOrEqual,
    GreaterThan,
    GreaterThanOrEqual,
}

/// An expression tree. A `Number` carries the bit pattern of its IEEE 754
/// single-precision value; a `Function` is a single-parameter lambda
/// abstraction; an `Application` applies by juxtaposition.
#[derive(Debug, PartialEq)]
pub enum Expression {
    Name { value: String },
    Number { value: u32 },
    Function { name: String, body: Box<Expression> },
    Application { lhs: Box<Expression>, rhs: Box<Expression> },
    BinaryOperation { lhs: Box<Expression>, operator: BinaryOperator, rhs: Box<Expression> },
    UnaryOperation { operator: UnaryOperator, operand: Box<Expression> },
}

/// Mathematical image of an `Expression`: identifiers become character
/// sequences.
pub enum SpecExpr {
    Name { value: Seq<char> },
    Number { value: u32 },
    Function { name: Seq<char>, body: Box<SpecExpr> },
    Application { lhs: Box<SpecExpr>, rhs: Box<SpecExpr> },
    BinaryOperation { lhs: Box<SpecExpr>, operator: BinaryOperator, rhs: Box<SpecExpr> },
    UnaryOperation { operator: UnaryOperator, operand: Box<SpecExpr> },
}

impl Expression {
    /// The mathematical image of this expression.
    pub open spec fn spec_view(self) -> SpecExpr
        decreases self,
    {
        match self {
            Expression::Name { value } => SpecExpr::Name { value: value@ },
            Expression::Number { value } => SpecExpr::Number { value },
            Expression::Function { name, body } => SpecExpr::Function {
                name: name@,
                body: Box::new(body.spec_view()),
            },
            Expression::Application { lhs, rhs } => SpecExpr::Application {
                lhs: Box::new(lhs.spec_view()),
                rhs: Box::new(rhs.spec_view()),
            },
            Expression::BinaryOperation { lhs, operator, rhs } => SpecExpr::BinaryOperation {
                lhs: Box::new(lhs.spec_view()),
                operator,
                rhs: Box::new(rhs.spec_view()),
            },
            Expression::UnaryOperation { operator, operand } => SpecExpr::UnaryOperation {
                operator,
                operand: Box::new(operand.spec_view()),
            },
        }
    }
}

impl View for Expression {
    type V = SpecExpr;

    open spec fn view(&self) -> SpecExpr {
        self.spec_view()
    }
}

impl Expression {
    /// An owned copy of this expression with the same mathematical image.
    pub fn duplicate(&self) -> (r: Expression)
        ensures
            r@ == self@,
        decreases self,
    {
        match self {
            Expression::Name { value } => Expression::Name { value: value.clone() },
            Expression::Number { value } => Expression::Number { value: *value },
            Expression::Function { name, body } => Expression::Function {
                name: name.clone(),
                body: Box::new(body.duplicate()),
            },
            Expression::Application { lhs, rhs } => Expression::Application {
                lhs: Box::new(lhs.duplicate()),
                rhs: Box::new(rhs.duplicate()),
            },
            Expression::BinaryOperation { lhs, operator, rhs } => Expression::BinaryOperation {
                lhs: Box::new(lhs.duplicate()),
                operator: *operator,
                rhs: Box::new(rhs.duplicate()),
            },
            Expression::UnaryOperation { operator, operand } => Expression::UnaryOperation {
                operator: *operator,
                operand: Box::new(operand.duplicate()),
            },
        }
    }
}

/// A top-level binding of a name to an expression, evaluated once, in
/// declaration order.
#[derive(Debug, PartialEq)]
pub struct Statement {
    pub name: String,
    pub value: Expression,
}

/// Mathematical image of a `Statement`.
pub struct SpecStatement {
    pub name: Seq<char>,
    pub value: SpecExpr,
}

impl View for Statement {
    type V = SpecStatement;

    open spec fn view(&self) -> SpecStatement {
        SpecStatement { name: self.name@, value: self.value@ }
    }
}

impl DeepView for Statement {
    type V = SpecStatement;

    open spec fn deep_view(&self) -> SpecStatement {
        self.view()
    }
}

/// An ordered sequence of statements; the order is semantically
/// significant.
#[derive(Debug, PartialEq)]
pub struct Program {
    pub statements: Vec<Statement>,
}

impl View for Program {
    type V = Seq<SpecStatement>;

    open spec fn view(&self) -> Seq<SpecStatement> {
        self.statements.deep_view()
    }
}

/// The binding powers of the infix continuations. An operator token maps to
/// its operator together with its left and right binding powers; a pair
/// with a larger right than left power associates to the left, the reverse
/// associates to the right.
pub open spec fn spec_binary_power(kind: SpecTokenKind) -> Option<(BinaryOperator, int, int)> {
    match kind {
        SpecTokenKind::Equal => Some((BinaryOperator::Equal, 5int, 6int)),
        SpecTokenKind::NotEqual => Some((BinaryOperator::NotEqual, 5int, 6int)),
        SpecTokenKind::LessThan => Some((BinaryOperator::LessThan, 5int, 6int)),
        SpecTokenKind::LessThanOrEqual => Some((BinaryOperator::LessThanOrEqual, 5int, 6int)),
        SpecTokenKind::GreaterThan => Some((BinaryOperator::GreaterThan, 5int, 6int)),
        SpecTokenKind::GreaterThanOrEqual => Some((BinaryOperator::GreaterThanOrEqual, 5int, 6int)),
        SpecTokenKind::Add => Some((BinaryOperator::Add, 10int, 11int)),
        SpecTokenKind::Sub => Some((BinaryOperator::Sub, 10int, 11int)),
        SpecTokenKind::Mul => Some((BinaryOperator::Mul, 20int, 21int)),
        SpecTokenKind::Div => Some((BinaryOperator::Div, 20int, 21int)),
        SpecTokenKind::Expo => Some((BinaryOperator::Expo, 30int, 29int)),
        _ => None,
    }
}

/// Whether a token of this kind can begin a prefix term, so that reading it
/// after a complete term means application by juxtaposition.
pub open spec fn spec_starts_prefix(kind: SpecTokenKind) -> bool {
    match kind {
        SpecTokenKind::Number(_) => true,
        SpecTokenKind::Identifier(_) => true,
        SpecTokenKind::LeftParen => true,
        SpecTokenKind::Lambda => true,
        _ => false,
    }
}

/// The left and right binding powers of application by juxtaposition: it
/// binds tighter than every explicit operator and associates to the left.
pub open spec fn spec_application_power() -> (int, int) {
    (50int, 51int)
}

/// The outcome of parsing one expression: the expression read and the
/// position of the first token after it, or the error met first.
pub enum PResult {
    Parsed { expr: SpecExpr, next: int },
    Failed { error: SpecParserError },
}

/// The outcome of parsing one statement.
pub enum SResult {
    Parsed { stmt: SpecStatement, next: int },
    Failed { error: SpecParserError },
}

/// The outcome of parsing a whole program.
pub enum PrResult {
    Parsed { stmts: Seq<SpecStatement> },
    Failed { error: SpecParserError },
}

/// One prefix term, starting at `pos`: a number or name, a parenthesized
/// expression, a lambda abstraction whose body greedily absorbs everything
/// up to the enclosing boundary (it is read with no minimum binding
/// power), or a unary negation whose operand is read at binding power 50.
pub open spec fn spec_parse_prefix(toks: Seq<SpecToken>, pos: int) -> PResult
    decreases toks.len() - pos, 0int,
{
    if pos < 0 || pos >= toks.len() {
        PResult::Failed { error: SpecParserError::UnexpectedEOF { expected: "Expression"@ } }
    } else {
        let t = toks[pos];
        match t.kind {
            SpecTokenKind::Number(bits) => PResult::Parsed {
                expr: SpecExpr::Number { value: bits },
                next: pos + 1,
            },
            SpecTokenKind::Identifier(name) => PResult::Parsed {
                expr: SpecExpr::Name { value: name },
                next: pos + 1,
            },
            SpecTokenKind::LeftParen => match spec_parse_expression(toks, pos + 1, 0) {
                PResult::Failed { error } => PResult::Failed { error },
                PResult::Parsed { expr, next } => {
                    if next >= toks.len() {
                        PResult::Failed {
                            error: SpecParserError::NoTokenFound { expected: ")"@ },
                        }
                    } else if toks[next].kind is RightParen {
                        PResult::Parsed { expr, next: next + 1 }
                    } else {
                        PResult::Failed {
                            error: SpecParserError::UnexpectedToken {
                                expected: ")"@,
                                found: toks[next].kind,
                                line: toks[next].line,
                            },
                        }
                    }
                },
            },
            SpecTokenKind::Lambda => {
                if pos + 1 >= toks.len() {
                    PResult::Failed {
                        error: SpecParserError::NoTokenFound { expected: "Identifier"@ },
                    }
                } else {
                    match toks[pos + 1].kind {
                        SpecTokenKind::Identifier(param) => {
                            if pos + 2 >= toks.len() {
                                PResult::Failed {
                                    error: SpecParserError::NoTokenFound { expected: "."@ },
                                }
                            } else if !(toks[pos + 2].kind is Dot) {
                                PResult::Failed {
                                    error: SpecParserError::UnexpectedToken {
                                        expected: "."@,
                                        found: toks[pos + 2].kind,
                                        line: toks[pos + 2].line,
                                    },
                                }
                            } else {
                                match spec_parse_expression(toks, pos + 3, 0) {
                                    PResult::Failed { error } => PResult::Failed { error },
                                    PResult::Parsed { expr, next } => PResult::Parsed {
                                        expr: SpecExpr::Function {
                                            name: param,
                                            body: Box::new(expr),
                                        },
                                        next,
                                    },
                                }
                            }
                        },
                        k => PResult::Failed {
                            error: SpecParserError::UnexpectedToken {
                                expected: "Identifier"@,
                                found: k,
                                line: toks[pos + 1].line,
                            },
                        },
                    }
                }
            },
            SpecTokenKind::Sub => match spec_parse_expression(toks, pos + 1, 50) {
                PResult::Failed { error } => PResult::Failed { error },
                PResult::Parsed { expr, next } => PResult::Parsed {
                    expr: SpecExpr::UnaryOperation {
                        operator: UnaryOperator::Sub,
                        operand: Box::new(expr),
                    },
                    next,
                },
            },
            k => PResult::Failed {
                error: SpecParserError::UnexpectedPrefix { kind: k, line: t.line },
            },
        }
    }
}

/// One expression, starting at `pos`: a prefix term extended by every
/// infix or juxtaposition continuation whose left binding power is at
/// least `min_bp`.
pub open spec fn spec_parse_expression(toks: Seq<SpecToken>, pos: int, min_bp: int) -> PResult
    decreases toks.len() - pos, 1int,
{
    match spec_parse_prefix(toks, pos) {
        PResult::Failed { error } => PResult::Failed { error },
        PResult::Parsed { expr, next } => {
            if next <= pos || next > toks.len() {
                // a prefix term always consumes at least one token, so this
                // branch is never the value; it only bounds the recursion
                PResult::Parsed { expr, next }
            } else {
                spec_parse_infix(toks, expr, next, min_bp)
            }
        },
    }
}

/// The continuation loop: starting from a finished term `lhs` at `pos`,
/// repeatedly absorb a binary operator or a juxtaposed argument whose left
/// binding power is at least `min_bp`, reading each right operand at the
/// operator's right binding power.
pub open spec fn spec_parse_infix(
    toks: Seq<SpecToken>,
    lhs: SpecExpr,
    pos: int,
    min_bp: int,
) -> PResult
    decreases toks.len() - pos, 2int,
{
    if pos < 0 || pos >= toks.len() {
        PResult::Parsed { expr: lhs, next: pos }
    } else {
        let t = toks[pos];
        match spec_binary_power(t.kind) {
            Some((op, lbp, rbp)) => {
                if lbp < min_bp {
                    PResult::Parsed { expr: lhs, next: pos }
                } else {
                    match spec_parse_expression(toks, pos + 1, rbp) {
                        PResult::Failed { error } => PResult::Failed { error },
                        PResult::Parsed { expr: rhs, next } => {
                            if next <= pos || next > toks.len() {
                                // never the value; bounds the recursion
                                PResult::Parsed { expr: lhs, next }
                            } else {
                                spec_parse_infix(
                                    toks,
                                    SpecExpr::BinaryOperation {
                                        lhs: Box::new(lhs),
                                        operator: op,
                                        rhs: Box::new(rhs),
                                    },
                                    next,
                                    min_bp,
                                )
                            }
                        },
                    }
                }
            },
            None => {
                if spec_starts_prefix(t.kind) {
                    if spec_application_power().0 < min_bp {
                        PResult::Parsed { expr: lhs, next: pos }
                    } else {
                        match spec_parse_expression(toks, pos, spec_application_power().1) {
                            PResult::Failed { error } => PResult::Failed { error },
                            PResult::Parsed { expr: rhs, next } => {
                                if next <= pos || next > toks.len() {
                                    // never the value; bounds the recursion
                                    PResult::Parsed { expr: lhs, next }
                                } else {
                                    spec_parse_infix(
                                        toks,
                                        SpecExpr::Application {
                                            lhs: Box::new(lhs),
                                            rhs: Box::new(rhs),
                                        },
                                        next,
                                        min_bp,
                                    )
                                }
                            },
                        }
                    }
                } else {
                    PResult::Parsed { expr: lhs, next: pos }
                }
            },
        }
    }
}

/// One statement, starting at `pos`: an identifier, `=`, an expression,
/// and the `;` terminator.
pub open spec fn spec_parse_statement(toks: Seq<SpecToken>, pos: int) -> SResult {
    if pos < 0 || pos >= toks.len() {
        SResult::Failed { error: SpecParserError::NoTokenFound { expected: "Identifier"@ } }
    } else {
        match toks[pos].kind {
            SpecTokenKind::Identifier(name) => {
                if pos + 1 >= toks.len() {
                    SResult::Failed { error: SpecParserError::NoTokenFound { expected: "="@ } }
                } else if !(toks[pos + 1].kind is Assign) {
                    SResult::Failed {
                        error: SpecParserError::UnexpectedToken {
                            expected: "="@,
                            found: toks[pos + 1].kind,
                            line: toks[pos + 1].line,
                        },
                    }
                } else {
                    match spec_parse_expression(toks, pos + 2, 0) {
                        PResult::Failed { error } => SResult::Failed { error },
                        PResult::Parsed { expr, next } => {
                            if next >= toks.len() {
                                SResult::Failed {
                                    error: SpecParserError::NoTokenFound { expected: ";"@ },
                                }
                            } else if toks[next].kind is Semicolon {
                                SResult::Parsed {
                                    stmt: SpecStatement { name, value: expr },
                                    next: next + 1,
                                }
                            } else {
                                SResult::Failed {
                                    error: SpecParserError::UnexpectedToken {
                                        expected: ";"@,
                                        found: toks[next].kind,
                                        line: toks[next].line,
                                    },
                                }
                            }
                        },
                    }
                }
            },
            k => SResult::Failed {
                error: SpecParserError::UnexpectedToken {
                    expected: "Identifier"@,
                    found: k,
                    line: toks[pos].line,
                },
            },
        }
    }
}

/// A whole program: statements in order until the end marker or the end of
/// the stream.
pub open spec fn spec_parse_program(toks: Seq<SpecToken>, pos: int) -> PrResult
    decreases toks.len() - pos,
{
    if pos < 0 || pos >= toks.len() || toks[pos].kind is EOF {
        PrResult::Parsed { stmts: Seq::empty() }
    } else {
        match spec_parse_statement(toks, pos) {
            SResult::Failed { error } => PrResult::Failed { error },
            SResult::Parsed { stmt, next } => {
                if next <= pos || next > toks.len() {
                    // never the value; bounds the recursion
                    PrResult::Parsed { stmts: Seq::empty() }
                } else {
                    match spec_parse_program(toks, next) {
                        PrResult::Failed { error } => PrResult::Failed { error },
                        PrResult::Parsed { stmts } => PrResult::Parsed {
                            stmts: seq![stmt] + stmts,
                        },
                    }
                }
            },
        }
    }
}

/// The parser: a position into a token stream, consumed once, left to
/// right.
pub struct Parser {
    pos: usize,
    tokens: Vec<Token>,
}

impl Parser {
    /// The mathematical image of the token stream.
    pub closed spec fn spec_tokens(&self) -> Seq<SpecToken> {
        self.tokens.deep_view()
    }

    /// The current position in the token stream.
    pub closed spec fn spec_pos(&self) -> int {
        self.pos as int
    }

    /// The position never runs past the end of the stream.
    pub open spec fn wf(&self) -> bool {
        self.spec_pos() <= self.spec_tokens().len()
    }

    pub fn new(tokens: Vec<Token>) -> (p: Parser)
        ensures
            p.spec_tokens() == tokens.deep_view(),
            p.spec_pos() == 0,
            p.wf(),
    {
        Parser { tokens, pos: 0 }
    }

    /// The token at the current position, if any, without consuming it.
    pub fn peek_token(&self) -> (r: Option<&Token>)
        ensures
            match r {
                Some(t) => self.spec_pos() < self.spec_tokens().len() && t@
                    == self.spec_tokens()[self.spec_pos()],
                None => self.spec_pos() >= self.spec_tokens().len(),
            },
    {
        if self.pos < self.tokens.len() {
            Some(&self.tokens[self.pos])
        } else {
            None
        }
    }

    /// The token at the current position, if any, consuming it.
    pub fn advance_token(&mut self) -> (r: Option<Token>)
        requires
            old(self).wf(),
        ensures
            final(self).spec_tokens() == old(self).spec_tokens(),
            final(self).wf(),
            match r {
                Some(t) => {
                    &&& old(self).spec_pos() < old(self).spec_tokens().len()
                    &&& t@ == old(self).spec_tokens()[old(self).spec_pos()]
                    &&& final(self).spec_pos() == old(self).spec_pos() + 1
                },
                None => {
                    &&& old(self).spec_pos() >= old(self).spec_tokens().len()
                    &&& final(self).spec_pos() == old(self).spec_pos()
                },
            },
    {
        if self.pos < self.tokens.len() {
            let tok = self.tokens[self.pos].duplicate();
            self.pos = self.pos + 1;
            Some(tok)
        } else {
            None
        }
    }

    /// Parse the whole stream into a program: statements in order until the
    /// end marker or the end of the stream. Never partially returns: the
    /// first error aborts the parse.
    #[verifier::loop_isolation(false)]
    pub fn parse_program(&mut self) -> (r: Result<Program, ParserError>)
        requires
            old(self).wf(),
        ensures
            final(self).spec_tokens() == old(self).spec_tokens(),
            final(self).wf(),
            match r {
                Ok(program) => spec_parse_program(old(self).spec_tokens(), old(self).spec_pos())
                    == (PrResult::Parsed { stmts: program@ }),
                Err(e) => spec_parse_program(old(self).spec_tokens(), old(self).spec_pos())
                    == (PrResult::Failed { error: e@ }),
            },
    {
        let ghost toks = self.spec_tokens();
        let ghost pos0 = self.spec_pos();
        let mut statements: Vec<Statement> = Vec::new();
        loop
            invariant
                self.wf(),
                self.spec_tokens() == toks,
                pos0 <= self.spec_pos(),
                spec_parse_program(toks, pos0) == (match spec_parse_program(
                    toks,
                    self.spec_pos(),
                ) {
                    PrResult::Parsed { stmts } => PrResult::Parsed {
                        stmts: statements.deep_view() + stmts,
                    },
                    PrResult::Failed { error } => PrResult::Failed { error },
                }),
            decreases toks.len() - self.spec_pos(),
        {
            let done = match self.peek_token() {
                None => true,
                Some(token) => match token.kind {
                    TokenKind::EOF => true,
                    _ => false,
                },
            };
            if done {
                proof {
                    assert(statements.deep_view() + Seq::<SpecStatement>::empty()
                        =~= statements.deep_view());
                }
                return Ok(Program { statements });
            }
            let ghost pos_before = self.spec_pos();
            match self.parse_statement() {
                Err(e) => {
                    return Err(e);
                },
                Ok(stmt) => {
                    let ghost old_stmts = statements.deep_view();
                    statements.push(stmt);
                    proof {
                        assert(statements.deep_view() =~= old_stmts + seq![stmt@]);
                        if spec_parse_program(toks, self.spec_pos()) is Parsed {
                            let rest = spec_parse_program(toks, self.spec_pos())->Parsed_stmts;
                            assert(old_stmts + (seq![stmt@] + rest) =~= (old_stmts + seq![stmt@])
                                + rest);
                        }
                    }
                },
            }
        }
    }

    /// Parse one statement: an identifier, `=`, an expression, and the `;`
    /// terminator, each absence or mismatch a distinct error.
    pub fn parse_statement(&mut self) -> (r: Result<Statement, ParserError>)
        requires
            old(self).wf(),
        ensures
            final(self).spec_tokens() == old(self).spec_tokens(),
            final(self).wf(),
            match r {
                Ok(stmt) => {
                    &&& spec_parse_statement(old(self).spec_tokens(), old(self).spec_pos())
                        == (SResult::Parsed { stmt: stmt@, next: final(self).spec_pos() })
                    &&& final(self).spec_pos() > old(self).spec_pos()
                },
                Err(e) => spec_parse_statement(old(self).spec_tokens(), old(self).spec_pos())
                    == (SResult::Failed { error: e@ }),
            },
    {
        let token = match self.advance_token() {
            Some(t) => t,
            None => {
                return Err(ParserError::NoTokenFound { expected: "Identifier".to_owned() });
            },
        };
        let name = match token.kind {
            TokenKind::Identifier(ident) => ident,
            kind => {
                return Err(ParserError::UnexpectedToken {
                    expected: "Identifier".to_owned(),
                    found: kind,
                    line: token.line,
                });
            },
        };

        let token = match self.advance_token() {
            Some(t) => t,
            None => {
                return Err(ParserError::NoTokenFound { expected: "=".to_owned() });
            },
        };
        match token.kind {
            TokenKind::Assign => {},
            kind => {
                return Err(ParserError::UnexpectedToken {
                    expected: "=".to_owned(),
                    found: kind,
                    line: token.line,
                });
            },
        }

        let value = match self.parse_expression() {
            Ok(value) => value,
            Err(e) => {
                return Err(e);
            },
        };

        let token = match self.advance_token() {
            Some(t) => t,
            None => {
                return Err(ParserError::NoTokenFound { expected: ";".to_owned() });
            },
        };
        match token.kind {
            TokenKind::Semicolon => {},
            kind => {
                return Err(ParserError::UnexpectedToken {
                    expected: ";".to_owned(),
                    found: kind,
                    line: token.line,
                });
            },
        }

        Ok(Statement { name, value })
    }

    /// Parse one expression, with no minimum binding power.
    pub fn parse_expression(&mut self) -> (r: Result<Expression, ParserError>)
        requires
            old(self).wf(),
        ensures
            final(self).spec_tokens() == old(self).spec_tokens(),
            final(self).wf(),
            match r {
                Ok(expr) => {
                    &&& spec_parse_expression(old(self).spec_tokens(), old(self).spec_pos(), 0)
                        == (PResult::Parsed { expr: expr@, next: final(self).spec_pos() })
                    &&& final(self).spec_pos() > old(self).spec_pos()
                },
                Err(e) => spec_parse_expression(old(self).spec_tokens(), old(self).spec_pos(), 0)
                    == (PResult::Failed { error: e@ }),
            },
    {
        self.parse_expression_bp(0)
    }

    /// The precedence-climbing core: parse a prefix term, then extend it
    /// with every continuation whose left binding power is at least
    /// `min_bp`.
    #[verifier::loop_isolation(false)]
    fn parse_expression_bp(&mut self, min_bp: u8) -> (r: Result<Expression, ParserError>)
        requires
            old(self).wf(),
        ensures
            final(self).spec_tokens() == old(self).spec_tokens(),
            final(self).wf(),
            match r {
                Ok(expr) => {
                    &&& spec_parse_expression(
                        old(self).spec_tokens(),
                        old(self).spec_pos(),
                        min_bp as int,
                    ) == (PResult::Parsed { expr: expr@, next: final(self).spec_pos() })
                    &&& final(self).spec_pos() > old(self).spec_pos()
                },
                Err(e) => spec_parse_expression(
                    old(self).spec_tokens(),
                    old(self).spec_pos(),
                    min_bp as int,
                ) == (PResult::Failed { error: e@ }),
            },
        decreases old(self).spec_tokens().len() - old(self).spec_pos(),
    {
        let ghost toks = self.spec_tokens();
        let ghost pos0 = self.spec_pos();

        let mut lhs: Expression;
        if self.pos >= self.tokens.len() {
            return Err(ParserError::UnexpectedEOF { expected: "Expression".to_owned() });
        }
        let token = self.tokens[self.pos].duplicate();
        match token.kind {
            TokenKind::Number(value) => {
                lhs = Expression::Number { value };
                self.pos = self.pos + 1;
            },
            TokenKind::Identifier(value) => {
                lhs = Expression::Name { value };
                self.pos = self.pos + 1;
            },
            TokenKind::LeftParen => {
                self.pos = self.pos + 1;
                let expr = match self.parse_expression_bp(0) {
                    Ok(expr) => expr,
                    Err(e) => {
                        return Err(e);
                    },
                };
                let next = match self.advance_token() {
                    Some(t) => t,
                    None => {
                        return Err(ParserError::NoTokenFound { expected: ")".to_owned() });
                    },
                };
                match next.kind {
                    TokenKind::RightParen => {
                        lhs = expr;
                    },
                    kind => {
                        return Err(ParserError::UnexpectedToken {
                            expected: ")".to_owned(),
                            found: kind,
                            line: next.line,
                        });
                    },
                }
            },
            TokenKind::Lambda => {
                self.pos = self.pos + 1;
                let param_token = match self.advance_token() {
                    Some(t) => t,
                    None => {
                        return Err(ParserError::NoTokenFound { expected: "Identifier".to_owned() });
                    },
                };
                let param = match param_token.kind {
                    TokenKind::Identifier(value) => value,
                    kind => {
                        return Err(ParserError::UnexpectedToken {
                            expected: "Identifier".to_owned(),
                            found: kind,
                            line: param_token.line,
                        });
                    },
                };
                let dot_token = match self.advance_token() {
                    Some(t) => t,
                    None => {
                        return Err(ParserError::NoTokenFound { expected: ".".to_owned() });
                    },
                };
                match dot_token.kind {
                    TokenKind::Dot => {},
                    kind => {
                        return Err(ParserError::UnexpectedToken {
                            expected: ".".to_owned(),
                            found: kind,
                            line: dot_token.line,
                        });
                    },
                }
                let body = match self.parse_expression_bp(0) {
                    Ok(body) => body,
                    Err(e) => {
                        return Err(e);
                    },
                };
                lhs = Expression::Function { name: param, body: Box::new(body) };
            },
            TokenKind::Sub => {
                self.pos = self.pos + 1;
                let rhs = match self.parse_expression_bp(50) {
                    Ok(rhs) => rhs,
                    Err(e) => {
                        return Err(e);
                    },
                };
                lhs = Expression::UnaryOperation {
                    operator: UnaryOperator::Sub,
                    operand: Box::new(rhs),
                };
            },
            kind => {
                return Err(ParserError::UnexpectedPrefix { kind, line: token.line });
            },
        }

        proof {
            assert(spec_parse_expression(toks, pos0, min_bp as int) == spec_parse_infix(
                toks,
                lhs@,
                self.spec_pos(),
                min_bp as int,
            ));
        }

        loop
            invariant
                self.wf(),
                self.spec_tokens() == toks,
                pos0 < self.spec_pos(),
                spec_parse_expression(toks, pos0, min_bp as int) == spec_parse_infix(
                    toks,
                    lhs@,
                    self.spec_pos(),
                    min_bp as int,
                ),
            decreases toks.len() - self.spec_pos(),
        {
            if self.pos >= self.tokens.len() {
                return Ok(lhs);
            }
            let op_token = self.tokens[self.pos].duplicate();

            match binary_power(&op_token.kind) {
                Some((operator, lbp, rbp)) => {
                    if lbp < min_bp {
                        return Ok(lhs);
                    }
                    self.pos = self.pos + 1;
                    let rhs = match self.parse_expression_bp(rbp) {
                        Ok(rhs) => rhs,
                        Err(e) => {
                            return Err(e);
                        },
                    };
                    lhs = Expression::BinaryOperation {
                        lhs: Box::new(lhs),
                        operator,
                        rhs: Box::new(rhs),
                    };
                },
                None => {
                    if !starts_prefix(&op_token.kind) {
                        return Ok(lhs);
                    }
                    if 50 < min_bp {
                        return Ok(lhs);
                    }
                    let rhs = match self.parse_expression_bp(51) {
                        Ok(rhs) => rhs,
                        Err(e) => {
                            return Err(e);
                        },
                    };
                    lhs = Expression::Application { lhs: Box::new(lhs), rhs: Box::new(rhs) };
                },
            }
        }
    }
}

/// The binding powers of the binary operator tokens, as the spec table
/// gives them.
fn binary_power(kind: &TokenKind) -> (r: Option<(BinaryOperator, u8, u8)>)
    ensures
        match r {
            Some((op, lbp, rbp)) => spec_binary_power(kind@) == Some((op, lbp as int, rbp as int)),
            None => spec_binary_power(kind@) is None,
        },
{
    match kind {
        TokenKind::Equal => Some((BinaryOperator::Equal, 5, 6)),
        TokenKind::NotEqual => Some((BinaryOperator::NotEqual, 5, 6)),
        TokenKind::LessThan => Some((BinaryOperator::LessThan, 5, 6)),
        TokenKind::LessThanOrEqual => Some((BinaryOperator::LessThanOrEqual, 5, 6)),
        TokenKind::GreaterThan => Some((BinaryOperator::GreaterThan, 5, 6)),
        TokenKind::GreaterThanOrEqual => Some((BinaryOperator::GreaterThanOrEqual, 5, 6)),
        TokenKind::Add => Some((BinaryOperator::Add, 10, 11)),
        TokenKind::Sub => Some((BinaryOperator::Sub, 10, 11)),
        TokenKind::Mul => Some((BinaryOperator::Mul, 20, 21)),
        TokenKind::Div => Some((BinaryOperator::Div, 20, 21)),
        TokenKind::Expo => Some((BinaryOperator::Expo, 30, 29)),
        _ => None,
    }
}

/// Whether a token of this kind can begin a prefix term.
fn starts_prefix(kind: &TokenKind) -> (r: bool)
    ensures
        r == spec_starts_prefix(kind@),
{
    match kind {
        TokenKind::Number(_) => true,
        TokenKind::Identifier(_) => true,
        TokenKind::LeftParen => true,
        TokenKind::Lambda => true,
        _ => false,
    }
}

/// One more level of indentation, held at the largest machine integer.
pub open spec fn spec_deeper(indent: int) -> int {
    if indent < usize::MAX {
        indent + 1
    } else {
        indent
    }
}

/// Two spaces per level of indentation.
pub open spec fn spec_indentation(indent: int) -> Seq<char>
    decreases indent,
{
    if indent <= 0 {
        Seq::empty()
    } else {
        spec_indentation(indent - 1) + "  "@
    }
}

/// The name a binary operator is shown under.
pub open spec fn spec_operator_name(op: BinaryOperator) -> Seq<char> {
    match op {
        BinaryOperator::Add => "Add"@,
        BinaryOperator::Sub => "Sub"@,
        BinaryOperator::Mul => "Mul"@,
        BinaryOperator::Div => "Div"@,
        BinaryOperator::Expo => "Expo"@,
        BinaryOperator::Equal => "Equal"@,
        BinaryOperator::NotEqual => "NotEqual"@,
        BinaryOperator::LessThan => "LessThan"@,
        BinaryOperator::LessThanOrEqual => "LessThanOrEqual"@,
        BinaryOperator::GreaterThan => "GreaterThan"@,
        BinaryOperator::GreaterThanOrEqual => "GreaterThanOrEqual"@,
    }
}

/// The name the unary operator is shown under.
pub open spec fn spec_unary_operator_name(op: UnaryOperator) -> Seq<char> {
    "Sub"@
}

/// The text that shows an expression tree: one line per node, children
/// indented one level deeper than their parent, numbers written in their
/// shortest decimal form.
pub open spec fn spec_visualize_expression(e: SpecExpr, indent: int) -> Seq<char>
    decreases e,
{
    match e {
        SpecExpr::Name { value } => spec_indentation(indent) + "Name: "@ + value + "\n"@,
        SpecExpr::Number { value } => spec_indentation(indent) + "Number: "@ + decimal_of_bits(
            value,
        ) + "\n"@,
        SpecExpr::Function { name, body } => spec_indentation(indent) + "Function (param: "@
            + name + ")\n"@ + spec_visualize_expression(*body, spec_deeper(indent)),
        SpecExpr::Application { lhs, rhs } => spec_indentation(indent) + "Application:\n"@
            + spec_visualize_expression(*lhs, spec_deeper(indent)) + spec_visualize_expression(
            *rhs,
            spec_deeper(indent),
        ),
        SpecExpr::BinaryOperation { lhs, operator, rhs } => spec_indentation(indent)
            + "BinaryOperation: "@ + spec_operator_name(operator) + "\n"@
            + spec_visualize_expression(*lhs, spec_deeper(indent)) + spec_visualize_expression(
            *rhs,
            spec_deeper(indent),
        ),
        SpecExpr::UnaryOperation { operator, operand } => spec_indentation(indent)
            + "UnaryOperation: "@ + spec_unary_operator_name(operator) + "\n"@
            + spec_visualize_expression(*operand, spec_deeper(indent)),
    }
}

/// The text that shows a whole program: each statement's name, then its
/// expression tree indented one level.
pub open spec fn spec_visualize_program(stmts: Seq<SpecStatement>, i: int) -> Seq<char>
    decreases stmts.len() - i,
{
    if i < 0 || i >= stmts.len() {
        Seq::empty()
    } else {
        "Statement: "@ + stmts[i].name + "\n"@ + spec_visualize_expression(stmts[i].value, 1)
            + spec_visualize_program(stmts, i + 1)
    }
}

/// Two spaces per level of indentation.
fn indentation(indent: usize) -> (r: String)
    ensures
        r@ == spec_indentation(indent as int),
{
    let mut output = String::new();
    let mut i: usize = 0;
    while i < indent
        invariant
            i <= indent,
            output@ == spec_indentation(i as int),
        decreases indent - i,
    {
        output.append("  ");
        i = i + 1;
    }
    output
}

/// The name a binary operator is shown under.
fn operator_name(op: &BinaryOperator) -> (r: &'static str)
    ensures
        r@ == spec_operator_name(*op),
{
    match op {
        BinaryOperator::Add => "Add",
        BinaryOperator::Sub => "Sub",
        BinaryOperator::Mul => "Mul",
        BinaryOperator::Div => "Div",
        BinaryOperator::Expo => "Expo",
        BinaryOperator::Equal => "Equal",
        BinaryOperator::NotEqual => "NotEqual",
        BinaryOperator::LessThan => "LessThan",
        BinaryOperator::LessThanOrEqual => "LessThanOrEqual",
        BinaryOperator::GreaterThan => "GreaterThan",
        BinaryOperator::GreaterThanOrEqual => "GreaterThanOrEqual",
    }
}

/// The text that shows a whole program, as `spec_visualize_program` gives
/// it.
pub fn visualize_program(program: &Program) -> (r: String)
    ensures
        r@ == spec_visualize_program(program@, 0),
{
    let ghost stmts = program@;
    let mut output = String::new();
    let mut i: usize = 0;
    while i < program.statements.len()
        invariant
            i <= program.statements.len(),
            stmts == program@,
            spec_visualize_program(stmts, 0) == output@ + spec_visualize_program(stmts, i as int),
        decreases program.statements.len() - i,
    {
        let stmt = &program.statements[i];
        output.append("Statement: ");
        output.append(stmt.name.as_str());
        output.append("\n");
        let tree = visualize_expression(&stmt.value, 1);
        output.append(tree.as_str());
        i = i + 1;
        proof {
            lemma_seq_concat_assoc();
        }
    }
    output
}

/// The text that shows one expression tree, as
/// `spec_visualize_expression` gives it.
pub fn visualize_expression(expr: &Expression, indent: usize) -> (r: String)
    ensures
        r@ == spec_visualize_expression(expr@, indent as int),
    decreases expr,
{
    let mut output = String::new();
    let indent_str = indentation(indent);
    let deeper = if indent < usize::MAX {
        indent + 1
    } else {
        indent
    };

    match expr {
        Expression::Name { value } => {
            output.append(indent_str.as_str());
            output.append("Name: ");
            output.append(value.as_str());
            output.append("\n");
        },
        Expression::Number { value } => {
            let shown = format_number(*value);
            output.append(indent_str.as_str());
            output.append("Number: ");
            output.append(shown.as_str());
            output.append("\n");
        },
        Expression::Function { name, body } => {
            output.append(indent_str.as_str());
            output.append("Function (param: ");
            output.append(name.as_str());
            output.append(")\n");
            let sub = visualize_expression(body, deeper);
            output.append(sub.as_str());
        },
        Expression::Application { lhs, rhs } => {
            output.append(indent_str.as_str());
            output.append("Application:\n");
            let left = visualize_expression(lhs, deeper);
            output.append(left.as_str());
            let right = visualize_expression(rhs, deeper);
            output.append(right.as_str());
        },
        Expression::BinaryOperation { lhs, operator, rhs } => {
            output.append(indent_str.as_str());
            output.append("BinaryOperation: ");
            output.append(operator_name(operator));
            output.append("\n");
            let left = visualize_expression(lhs, deeper);
            output.append(left.as_str());
            let right = visualize_expression(rhs, deeper);
            output.append(right.as_str());
        },
        Expression::UnaryOperation { operator: _, operand } => {
            output.append(indent_str.as_str());
            output.append("UnaryOperation: ");
            output.append("Sub");
            output.append("\n");
            let sub = visualize_expression(operand, deeper);
            output.append(sub.as_str());
        },
    }
    proof {
        lemma_seq_concat_assoc();
    }
    output
}

/// Concatenation of character sequences can be regrouped freely.
proof fn lemma_seq_concat_assoc_one(a: Seq<char>, b: Seq<char>, c: Seq<char>)
    ensures
        (a + b) + c == a + (b + c),
{
    assert((a + b) + c =~= a + (b + c));
}

proof fn lemma_seq_concat_assoc()
    ensures
        forall|a: Seq<char>, b: Seq<char>, c: Seq<char>| #[trigger]
            ((a + b) + c) == a + (b + c),
        forall|a: Seq<char>| #[trigger] (Seq::<char>::empty() + a) == a,
{
    assert forall|a: Seq<char>, b: Seq<char>, c: Seq<char>| #[trigger]
        ((a + b) + c) == a + (b + c) by {
        lemma_seq_concat_assoc_one(a, b, c);
    }
    assert forall|a: Seq<char>| #[trigger] (Seq::<char>::empty() + a) == a by {
        assert(Seq::<char>::empty() + a =~= a);
    }
}

} // verus!
