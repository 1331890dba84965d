//! The lexer: turns source text into the token stream the parser consumes.
//!
//! Scanning is character by character: whitespace and `#`-to-end-of-line
//! comments are skipped, identifiers and keywords start with an alphabetic
//! character, numerals start with a digit and may hold one dot, and the
//! remaining tokens are one or two symbol characters. Line numbers are
//! 1-based and grow at each newline consumed.

use vstd::prelude::*;
use vstd::string::StrSliceExecFns;
use crate::numeric::{bits_of_decimal, float_from_decimal, is_decimal_numeral};
use crate::token::{SpecToken, SpecTokenKind, Token, TokenKind};

verus! {

/// An error from the lexer: a character no token can start with.
#[derive(Clone, Debug, PartialEq)]
pub enum LexerError {
    UnexpectedCharacter { character: char, line: usize },
}

/// Mathematical image of a `LexerError`.
pub enum SpecLexerError {
    UnexpectedCharacter { character: char, line: nat },
}

impl View for LexerError {
    type V = SpecLexerError;

    open spec fn view(&self) -> SpecLexerError {
        match self {
            LexerError::UnexpectedCharacter { character, line } => SpecLexerError::UnexpectedCharacter {
                character: *character,
                line: *line as nat,
            },
        }
    }
}

/// Whether `c` is one of the whitespace characters the lexer skips.
pub open spec fn spec_is_whitespace(c: char) -> bool {
    c == ' ' || c == '\r' || c == '\t' || c == '\n'
}

/// Whether `c` opens a comment, which runs to the end of the line.
pub open spec fn spec_is_comment(c: char) -> bool {
    c == '#'
}

/// Whether `c` is an ASCII decimal digit.
pub open spec fn spec_is_digit(c: char) -> bool {
    '0' <= c && c <= '9'
}

/// Whether `c` is a Unicode letter, as the Unicode tables class it.
pub uninterp spec fn char_is_alphabetic(c: char) -> bool;

/// Whether `c` is a Unicode letter or number, as the Unicode tables class
/// it.
pub uninterp spec fn char_is_alphanumeric(c: char) -> bool;

/// Relies on `char::is_alphabetic`: Unicode letter classification, a
/// function of the character alone. The second clause carries what the
/// documentation of `char::is_alphanumeric` plainly states: it holds of
/// every alphabetic character.
#[verifier::external_body]
fn is_alphabetic_char(c: char) -> (r: bool)
    ensures
        r == char_is_alphabetic(c),
        r ==> char_is_alphanumeric(c),
{
    c.is_alphabetic()
}

/// Relies on `char::is_alphanumeric`: Unicode letter-or-number
/// classification, a function of the character alone. Its documentation
/// states that it holds of every character `char::is_alphabetic` holds of.
#[verifier::external_body]
fn is_alphanumeric_char(c: char) -> (r: bool)
    ensures
        r == char_is_alphanumeric(c) && (char_is_alphabetic(c) ==> r),
{
    c.is_alphanumeric()
}

/// The next line number: one more, held at the largest machine integer.
pub open spec fn spec_next_line(line: int) -> int {
    if line < usize::MAX {
        line + 1
    } else {
        line
    }
}

fn next_line(line: usize) -> (r: usize)
    ensures
        r == spec_next_line(line as int),
{
    if line < usize::MAX {
        line + 1
    } else {
        line
    }
}

/// The position and line after a comment at `pos`: every character up to
/// and including the next newline is consumed.
pub open spec fn spec_skip_comment(s: Seq<char>, pos: int, line: int) -> (int, int)
    decreases s.len() - pos,
{
    if pos < 0 || pos >= s.len() {
        (pos, line)
    } else if s[pos] == '\n' {
        (pos + 1, spec_next_line(line))
    } else {
        spec_skip_comment(s, pos + 1, line)
    }
}

/// The position and line after every run of whitespace and comments from
/// `pos` on has been consumed.
pub open spec fn spec_skip(s: Seq<char>, pos: int, line: int) -> (int, int)
    decreases s.len() - pos,
{
    if pos < 0 || pos >= s.len() {
        (pos, line)
    } else if spec_is_whitespace(s[pos]) {
        spec_skip(
            s,
            pos + 1,
            if s[pos] == '\n' {
                spec_next_line(line)
            } else {
                line
            },
        )
    } else if spec_is_comment(s[pos]) {
        let (p2, l2) = spec_skip_comment(s, pos, line);
        if p2 <= pos || p2 > s.len() {
            // never the value: a comment consumes at least its opening
            // character and stays in the source; this only bounds the
            // recursion
            (p2, l2)
        } else {
            spec_skip(s, p2, l2)
        }
    } else {
        (pos, line)
    }
}

/// The first position at or after `pos` that cannot continue an
/// identifier (a Unicode letter or number, or an underscore).
pub open spec fn spec_ident_end(s: Seq<char>, pos: int) -> int
    decreases s.len() - pos,
{
    if pos < 0 || pos >= s.len() {
        pos
    } else if char_is_alphanumeric(s[pos]) || s[pos] == '_' {
        spec_ident_end(s, pos + 1)
    } else {
        pos
    }
}

/// The first position at or after `pos` that cannot continue a numeral:
/// digits, with at most one dot in all (`has_decimal` tells whether one
/// was already read).
pub open spec fn spec_number_end(s: Seq<char>, pos: int, has_decimal: bool) -> int
    decreases s.len() - pos,
{
    if pos < 0 || pos >= s.len() {
        pos
    } else if spec_is_digit(s[pos]) {
        spec_number_end(s, pos + 1, has_decimal)
    } else if s[pos] == '.' && !has_decimal {
        spec_number_end(s, pos + 1, true)
    } else {
        pos
    }
}

/// The outcome of scanning one token: the token with the state after it,
/// or the lexing error.
pub enum ScanOutcome {
    Token { token: SpecToken, pos: int, line: int },
    Failed { error: SpecLexerError },
}

/// The kind of the token made of the identifier characters `word`: the
/// lambda marker for the single letter `L`, an identifier otherwise.
pub open spec fn spec_word_kind(word: Seq<char>) -> SpecTokenKind {
    if word.len() == 1 && word[0] == 'L' {
        SpecTokenKind::Lambda
    } else {
        SpecTokenKind::Identifier(word)
    }
}

/// Scan one token at `pos`: skip whitespace and comments, then read an
/// identifier or keyword, a numeral, a one- or two-character symbol, or
/// the end marker; any other character is the lexing error.
pub open spec fn spec_scan_token(s: Seq<char>, pos: int, line: int) -> ScanOutcome {
    let (p, l) = spec_skip(s, pos, line);
    if p >= s.len() {
        ScanOutcome::Token {
            token: SpecToken { kind: SpecTokenKind::EOF, line: l as nat },
            pos: p,
            line: l,
        }
    } else {
        let c = s[p];
        if char_is_alphabetic(c) {
            let end = spec_ident_end(s, p);
            ScanOutcome::Token {
                token: SpecToken { kind: spec_word_kind(s.subrange(p, end)), line: l as nat },
                pos: end,
                line: l,
            }
        } else if spec_is_digit(c) {
            let end = spec_number_end(s, p, false);
            ScanOutcome::Token {
                token: SpecToken {
                    kind: SpecTokenKind::Number(bits_of_decimal(s.subrange(p, end))),
                    line: l as nat,
                },
                pos: end,
                line: l,
            }
        } else if c == '(' {
            spec_symbol_token(SpecTokenKind::LeftParen, p, l)
        } else if c == ')' {
            spec_symbol_token(SpecTokenKind::RightParen, p, l)
        } else if c == '.' {
            spec_symbol_token(SpecTokenKind::Dot, p, l)
        } else if c == '+' {
            spec_symbol_token(SpecTokenKind::Add, p, l)
        } else if c == '-' {
            spec_symbol_token(SpecTokenKind::Sub, p, l)
        } else if c == '*' {
            spec_symbol_token(SpecTokenKind::Mul, p, l)
        } else if c == '/' {
            spec_symbol_token(SpecTokenKind::Div, p, l)
        } else if c == '^' {
            spec_symbol_token(SpecTokenKind::Expo, p, l)
        } else if c == ';' {
            spec_symbol_token(SpecTokenKind::Semicolon, p, l)
        } else if c == '!' {
            if p + 1 < s.len() && s[p + 1] == '=' {
                ScanOutcome::Token {
                    token: SpecToken { kind: SpecTokenKind::NotEqual, line: l as nat },
                    pos: p + 2,
                    line: l,
                }
            } else {
                ScanOutcome::Failed {
                    error: SpecLexerError::UnexpectedCharacter { character: '!', line: l as nat },
                }
            }
        } else if c == '=' {
            if p + 1 < s.len() && s[p + 1] == '=' {
                ScanOutcome::Token {
                    token: SpecToken { kind: SpecTokenKind::Equal, line: l as nat },
                    pos: p + 2,
                    line: l,
                }
            } else {
                spec_symbol_token(SpecTokenKind::Assign, p, l)
            }
        } else if c == '<' {
            if p + 1 < s.len() && s[p + 1] == '=' {
                ScanOutcome::Token {
                    token: SpecToken { kind: SpecTokenKind::LessThanOrEqual, line: l as nat },
                    pos: p + 2,
                    line: l,
                }
            } else {
                spec_symbol_token(SpecTokenKind::LessThan, p, l)
            }
        } else if c == '>' {
            if p + 1 < s.len() && s[p + 1] == '=' {
                ScanOutcome::Token {
                    token: SpecToken { kind: SpecTokenKind::GreaterThanOrEqual, line: l as nat },
                    pos: p + 2,
                    line: l,
                }
            } else {
                spec_symbol_token(SpecTokenKind::GreaterThan, p, l)
            }
        } else {
            ScanOutcome::Failed {
                error: SpecLexerError::UnexpectedCharacter { character: c, line: l as nat },
            }
        }
    }
}

/// A one-character symbol token at `p`.
pub open spec fn spec_symbol_token(kind: SpecTokenKind, p: int, l: int) -> ScanOutcome {
    ScanOutcome::Token { token: SpecToken { kind, line: l as nat }, pos: p + 1, line: l }
}

/// Scan the whole source from `pos`: tokens in order, the end marker
/// last, or the first lexing error.
pub open spec fn spec_scan_all(s: Seq<char>, pos: int, line: int) -> Result<
    Seq<SpecToken>,
    SpecLexerError,
>
    decreases s.len() - pos,
{
    match spec_scan_token(s, pos, line) {
        ScanOutcome::Failed { error } => Err(error),
        ScanOutcome::Token { token, pos: p2, line: l2 } => {
            if token.kind is EOF {
                Ok(seq![token])
            } else if p2 <= pos || p2 > s.len() {
                // never the value: a token other than the end marker
                // consumes at least one character and stays in the source;
                // this only bounds the recursion
                Ok(seq![token])
            } else {
                match spec_scan_all(s, p2, l2) {
                    Err(error) => Err(error),
                    Ok(rest) => Ok(seq![token] + rest),
                }
            }
        },
    }
}

/// The lexer: a position and a 1-based line number into a source text.
pub struct Lexer {
    pos: usize,
    source: String,
    line: usize,
    len: usize,
}

impl Lexer {
    /// The characters of the source text.
    pub closed spec fn spec_source(&self) -> Seq<char> {
        self.source@
    }

    /// The current position in the source text.
    pub closed spec fn spec_pos(&self) -> int {
        self.pos as int
    }

    /// The current 1-based line number.
    pub closed spec fn spec_line(&self) -> int {
        self.line as int
    }

    /// The position never runs past the end of the source.
    pub closed spec fn wf(&self) -> bool {
        self.len == self.spec_source().len() && self.spec_pos() <= self.spec_source().len()
    }

    pub fn new(source: String) -> (r: Lexer)
        ensures
            r.spec_source() == source@,
            r.spec_pos() == 0,
            r.spec_line() == 1,
            r.wf(),
    {
        let len = source.as_str().unicode_len();
        Lexer { source, line: 1, pos: 0, len }
    }

    /// The character at the current position, if any, without consuming
    /// it.
    pub fn peek(&self) -> (r: Option<char>)
        requires
            self.wf(),
        ensures
            match r {
                Some(c) => self.spec_pos() < self.spec_source().len() && c
                    == self.spec_source()[self.spec_pos()],
                None => self.spec_pos() >= self.spec_source().len(),
            },
    {
        if self.pos < self.len {
            Some(self.source.as_str().get_char(self.pos))
        } else {
            None
        }
    }

    /// The character at the current position, if any, consuming it.
    pub fn advance(&mut self) -> (r: Option<char>)
        requires
            old(self).wf(),
        ensures
            final(self).wf(),
            final(self).spec_source() == old(self).spec_source(),
            final(self).spec_line() == old(self).spec_line(),
            match r {
                Some(c) => {
                    &&& old(self).spec_pos() < old(self).spec_source().len()
                    &&& c == old(self).spec_source()[old(self).spec_pos()]
                    &&& final(self).spec_pos() == old(self).spec_pos() + 1
                },
                None => {
                    &&& old(self).spec_pos() >= old(self).spec_source().len()
                    &&& final(self).spec_pos() == old(self).spec_pos()
                },
            },
    {
        if self.pos < self.len {
            let c = self.source.as_str().get_char(self.pos);
            self.pos = self.pos + 1;
            Some(c)
        } else {
            None
        }
    }

    /// Whether `c` is one of the whitespace characters the lexer skips.
    pub fn is_whitespace(c: char) -> (r: bool)
        ensures
            r == spec_is_whitespace(c),
    {
        c == ' ' || c == '\r' || c == '\t' || c == '\n'
    }

    /// Whether `c` opens a comment.
    pub fn is_comment(c: char) -> (r: bool)
        ensures
            r == spec_is_comment(c),
    {
        c == '#'
    }

    /// Consume the run of whitespace at the current position, counting
    /// newlines.
    pub fn skip_whitespace(&mut self)
        requires
            old(self).wf(),
        ensures
            final(self).wf(),
            final(self).spec_source() == old(self).spec_source(),
            final(self).spec_pos() >= old(self).spec_pos(),
            spec_skip(old(self).spec_source(), old(self).spec_pos(), old(self).spec_line())
                == spec_skip(
                old(self).spec_source(),
                final(self).spec_pos(),
                final(self).spec_line(),
            ),
            final(self).spec_pos() >= final(self).spec_source().len() || !spec_is_whitespace(
                final(self).spec_source()[final(self).spec_pos()],
            ),
    {
        let ghost s0 = self.spec_source();
        let ghost pos0 = self.spec_pos();
        let ghost line0 = self.spec_line();
        loop
            invariant
                self.wf(),
                self.spec_source() == s0,
                self.spec_pos() >= pos0,
                spec_skip(s0, pos0, line0) == spec_skip(s0, self.spec_pos(), self.spec_line()),
            ensures
                self.wf(),
                self.spec_source() == s0,
                self.spec_pos() >= pos0,
                spec_skip(s0, pos0, line0) == spec_skip(s0, self.spec_pos(), self.spec_line()),
                self.spec_pos() >= s0.len() || !spec_is_whitespace(s0[self.spec_pos()]),
            decreases s0.len() - self.spec_pos(),
        {
            match self.peek() {
                Some(c) => {
                    if Lexer::is_whitespace(c) {
                        self.advance();
                        if c == '\n' {
                            self.line = next_line(self.line);
                        }
                    } else {
                        break;
                    }
                },
                None => {
                    break;
                },
            }
        }
    }

    /// Consume a comment at the current position: everything up to and
    /// including the next newline. Without a comment at the current
    /// position, consume nothing.
    pub fn skip_comment(&mut self)
        requires
            old(self).wf(),
        ensures
            final(self).wf(),
            final(self).spec_source() == old(self).spec_source(),
            final(self).spec_pos() >= old(self).spec_pos(),
            if old(self).spec_pos() < old(self).spec_source().len() && spec_is_comment(
                old(self).spec_source()[old(self).spec_pos()],
            ) {
                (final(self).spec_pos(), final(self).spec_line()) == spec_skip_comment(
                    old(self).spec_source(),
                    old(self).spec_pos(),
                    old(self).spec_line(),
                ) && final(self).spec_pos() > old(self).spec_pos()
            } else {
                final(self).spec_pos() == old(self).spec_pos() && final(self).spec_line() == old(
                    self,
                ).spec_line()
            },
    {
        let ghost s0 = self.spec_source();
        let ghost pos0 = self.spec_pos();
        let ghost line0 = self.spec_line();
        let start_is_comment = match self.peek() {
            Some(c) => Lexer::is_comment(c),
            None => false,
        };
        if !start_is_comment {
            return ;
        }
        loop
            invariant_except_break
                self.wf(),
                self.spec_source() == s0,
                self.spec_pos() >= pos0,
                spec_skip_comment(s0, pos0, line0) == spec_skip_comment(
                    s0,
                    self.spec_pos(),
                    self.spec_line(),
                ),
            ensures
                self.wf(),
                self.spec_source() == s0,
                self.spec_pos() >= pos0,
                (self.spec_pos(), self.spec_line()) == spec_skip_comment(s0, pos0, line0),
            decreases s0.len() - self.spec_pos(),
        {
            match self.peek() {
                None => {
                    break;
                },
                Some(c) => {
                    self.advance();
                    if c == '\n' {
                        self.line = next_line(self.line);
                        break;
                    }
                },
            }
        }
        proof {
            lemma_spec_skip_comment_progress(s0, pos0, line0);
        }
    }

    /// Consume every run of whitespace and comments at the current
    /// position.
    pub fn skip_comments_and_whitespace(&mut self)
        requires
            old(self).wf(),
        ensures
            final(self).wf(),
            final(self).spec_source() == old(self).spec_source(),
            final(self).spec_pos() >= old(self).spec_pos(),
            (final(self).spec_pos(), final(self).spec_line()) == spec_skip(
                old(self).spec_source(),
                old(self).spec_pos(),
                old(self).spec_line(),
            ),
    {
        let ghost s0 = self.spec_source();
        let ghost pos0 = self.spec_pos();
        let ghost line0 = self.spec_line();
        loop
            invariant_except_break
                self.wf(),
                self.spec_source() == s0,
                self.spec_pos() >= pos0,
                spec_skip(s0, pos0, line0) == spec_skip(s0, self.spec_pos(), self.spec_line()),
            ensures
                self.wf(),
                self.spec_source() == s0,
                self.spec_pos() >= pos0,
                (self.spec_pos(), self.spec_line()) == spec_skip(s0, pos0, line0),
            decreases s0.len() - self.spec_pos(),
        {
            match self.peek() {
                None => {
                    break;
                },
                Some(c) => {
                    if Lexer::is_whitespace(c) {
                        self.skip_whitespace();
                    } else if Lexer::is_comment(c) {
                        self.skip_comment();
                    } else {
                        break;
                    }
                },
            }
        }
    }
    /// A token of the given kind at the current line.
    fn make_token(&self, kind: TokenKind) -> (t: Token)
        ensures
            t@.kind == kind@,
            t@.line == self.spec_line() as nat,
    {
        Token { kind, line: self.line }
    }

    /// Read an identifier or keyword at the current position: the longest
    /// run of Unicode letters, numbers and underscores. The single letter
    /// `L` is the lambda marker; every other word is an identifier.
    fn read_identifier_or_keyword(&mut self) -> (t: Token)
        requires
            old(self).wf(),
            old(self).spec_pos() < old(self).spec_source().len(),
            char_is_alphabetic(old(self).spec_source()[old(self).spec_pos()]),
            char_is_alphanumeric(old(self).spec_source()[old(self).spec_pos()]),
        ensures
            final(self).wf(),
            final(self).spec_source() == old(self).spec_source(),
            final(self).spec_line() == old(self).spec_line(),
            final(self).spec_pos() == spec_ident_end(
                old(self).spec_source(),
                old(self).spec_pos(),
            ),
            final(self).spec_pos() > old(self).spec_pos(),
            t@.kind == spec_word_kind(
                old(self).spec_source().subrange(old(self).spec_pos(), final(self).spec_pos()),
            ),
            t@.line == old(self).spec_line() as nat,
    {
        let ghost s0 = self.spec_source();
        let ghost pos0 = self.spec_pos();
        let start = self.pos;
        loop
            invariant_except_break
                self.wf(),
                self.spec_source() == s0,
                self.spec_line() == old(self).spec_line(),
                start == pos0,
                pos0 <= self.spec_pos(),
                spec_ident_end(s0, pos0) == spec_ident_end(s0, self.spec_pos()),
            ensures
                self.wf(),
                self.spec_source() == s0,
                self.spec_line() == old(self).spec_line(),
                pos0 <= self.spec_pos(),
                self.spec_pos() == spec_ident_end(s0, pos0),
            decreases s0.len() - self.spec_pos(),
        {
            match self.peek() {
                None => {
                    break;
                },
                Some(c) => {
                    if is_alphanumeric_char(c) || c == '_' {
                        self.advance();
                    } else {
                        break;
                    }
                },
            }
        }
        proof {
            // the first character is alphanumeric: the word is not empty
            lemma_spec_ident_end_bounds(s0, pos0 + 1);
            assert(spec_ident_end(s0, pos0) == spec_ident_end(s0, pos0 + 1));
            assert(self.spec_pos() > pos0);
        }
        let word = self.source.as_str().substring_char(start, self.pos);
        let is_lambda = word.unicode_len() == 1 && word.get_char(0) == 'L';
        if is_lambda {
            self.make_token(TokenKind::Lambda)
        } else {
            self.make_token(TokenKind::Identifier(word.to_owned()))
        }
    }

    /// Read a numeral at the current position: the longest run of digits
    /// holding at most one dot, turned into the bit pattern of its IEEE
    /// 754 single-precision value.
    fn read_number(&mut self) -> (t: Token)
        requires
            old(self).wf(),
            old(self).spec_pos() < old(self).spec_source().len(),
            spec_is_digit(old(self).spec_source()[old(self).spec_pos()]),
        ensures
            final(self).wf(),
            final(self).spec_source() == old(self).spec_source(),
            final(self).spec_line() == old(self).spec_line(),
            final(self).spec_pos() == spec_number_end(
                old(self).spec_source(),
                old(self).spec_pos(),
                false,
            ),
            final(self).spec_pos() > old(self).spec_pos(),
            t@.kind == SpecTokenKind::Number(
                bits_of_decimal(
                    old(self).spec_source().subrange(old(self).spec_pos(), final(self).spec_pos()),
                ),
            ),
            t@.line == old(self).spec_line() as nat,
    {
        let ghost s0 = self.spec_source();
        let ghost pos0 = self.spec_pos();
        let start = self.pos;
        let mut has_decimal = false;
        loop
            invariant_except_break
                self.wf(),
                self.spec_source() == s0,
                self.spec_line() == old(self).spec_line(),
                start == pos0,
                pos0 <= self.spec_pos(),
                spec_number_end(s0, pos0, false) == spec_number_end(
                    s0,
                    self.spec_pos(),
                    has_decimal,
                ),
                forall|i: int|
                    pos0 <= i < self.spec_pos() ==> (spec_is_digit(#[trigger] s0[i]) || s0[i]
                        == '.'),
                !has_decimal ==> forall|i: int| pos0 <= i < self.spec_pos() ==> s0[i] != '.',
                forall|i: int, j: int|
                    pos0 <= i < j < self.spec_pos() && #[trigger] s0[i] == '.' && #[trigger] s0[j]
                        == '.' ==> false,
            ensures
                self.wf(),
                self.spec_source() == s0,
                self.spec_line() == old(self).spec_line(),
                pos0 <= self.spec_pos(),
                self.spec_pos() == spec_number_end(s0, pos0, false),
                forall|i: int|
                    pos0 <= i < self.spec_pos() ==> (spec_is_digit(#[trigger] s0[i]) || s0[i]
                        == '.'),
                forall|i: int, j: int|
                    pos0 <= i < j < self.spec_pos() && #[trigger] s0[i] == '.' && #[trigger] s0[j]
                        == '.' ==> false,
            decreases s0.len() - self.spec_pos(),
        {
            match self.peek() {
                None => {
                    break;
                },
                Some(c) => {
                    if '0' <= c && c <= '9' {
                        self.advance();
                    } else if c == '.' && !has_decimal {
                        self.advance();
                        has_decimal = true;
                    } else {
                        break;
                    }
                },
            }
        }
        proof {
            // the first character is a digit: the numeral is not empty
            lemma_spec_number_end_bounds(s0, pos0 + 1, false);
            assert(spec_number_end(s0, pos0, false) == spec_number_end(s0, pos0 + 1, false));
            assert(self.spec_pos() > pos0);
        }
        let lexeme = self.source.as_str().substring_char(start, self.pos);
        proof {
            let word = s0.subrange(pos0, self.spec_pos());
            assert(word[0] == s0[pos0]);
            assert forall|i: int| 0 <= i < word.len() implies ('0' <= #[trigger] word[i] <= '9'
                || word[i] == '.') by {
                assert(word[i] == s0[pos0 + i]);
            }
            assert forall|i: int, j: int|
                0 <= i < j < word.len() && #[trigger] word[i] == '.' && #[trigger] word[j]
                    == '.' implies false by {
                assert(word[i] == s0[pos0 + i]);
                assert(word[j] == s0[pos0 + j]);
            }
            assert(is_decimal_numeral(word));
        }
        let bits = float_from_decimal(lexeme);
        self.make_token(TokenKind::Number(bits))
    }

    /// Scan one token: skip whitespace and comments, then read an
    /// identifier or keyword, a numeral, a one- or two-character symbol,
    /// or the end marker; any other character is the lexing error.
    pub fn scan_token(&mut self) -> (r: Result<Token, LexerError>)
        requires
            old(self).wf(),
        ensures
            final(self).wf(),
            final(self).spec_source() == old(self).spec_source(),
            final(self).spec_pos() >= old(self).spec_pos(),
            match r {
                Ok(t) => {
                    &&& spec_scan_token(
                        old(self).spec_source(),
                        old(self).spec_pos(),
                        old(self).spec_line(),
                    ) == (ScanOutcome::Token {
                        token: t@,
                        pos: final(self).spec_pos(),
                        line: final(self).spec_line(),
                    })
                    &&& (!(t@.kind is EOF) ==> final(self).spec_pos() > old(self).spec_pos())
                },
                Err(e) => spec_scan_token(
                    old(self).spec_source(),
                    old(self).spec_pos(),
                    old(self).spec_line(),
                ) == (ScanOutcome::Failed { error: e@ }),
            },
    {
        self.skip_comments_and_whitespace();

        match self.peek() {
            Some(c) => {
                if is_alphabetic_char(c) {
                    return Ok(self.read_identifier_or_keyword());
                } else if '0' <= c && c <= '9' {
                    return Ok(self.read_number());
                }
            },
            None => {},
        }

        let c = self.advance();
        let kind = match c {
            None => TokenKind::EOF,
            Some('(') => TokenKind::LeftParen,
            Some(')') => TokenKind::RightParen,
            Some('.') => TokenKind::Dot,
            Some('+') => TokenKind::Add,
            Some('-') => TokenKind::Sub,
            Some('*') => TokenKind::Mul,
            Some('/') => TokenKind::Div,
            Some('^') => TokenKind::Expo,
            Some(';') => TokenKind::Semicolon,
            Some('!') => {
                match self.peek() {
                    Some('=') => {
                        self.advance();
                        TokenKind::NotEqual
                    },
                    _ => {
                        return Err(
                            LexerError::UnexpectedCharacter { character: '!', line: self.line },
                        );
                    },
                }
            },
            Some('=') => {
                match self.peek() {
                    Some('=') => {
                        self.advance();
                        TokenKind::Equal
                    },
                    _ => TokenKind::Assign,
                }
            },
            Some('<') => {
                match self.peek() {
                    Some('=') => {
                        self.advance();
                        TokenKind::LessThanOrEqual
                    },
                    _ => TokenKind::LessThan,
                }
            },
            Some('>') => {
                match self.peek() {
                    Some('=') => {
                        self.advance();
                        TokenKind::GreaterThanOrEqual
                    },
                    _ => TokenKind::GreaterThan,
                }
            },
            Some(other) => {
                return Err(LexerError::UnexpectedCharacter { character: other, line: self.line });
            },
        };
        Ok(self.make_token(kind))
    }

    /// Scan the whole source: tokens in order, the end marker last, or the
    /// first lexing error.
    #[verifier::loop_isolation(false)]
    pub fn scan_all_tokens(&mut self) -> (r: Result<Vec<Token>, LexerError>)
        requires
            old(self).wf(),
        ensures
            final(self).wf(),
            final(self).spec_source() == old(self).spec_source(),
            match r {
                Ok(tokens) => spec_scan_all(
                    old(self).spec_source(),
                    old(self).spec_pos(),
                    old(self).spec_line(),
                ) == Ok::<Seq<SpecToken>, SpecLexerError>(tokens.deep_view()),
                Err(e) => spec_scan_all(
                    old(self).spec_source(),
                    old(self).spec_pos(),
                    old(self).spec_line(),
                ) == Err::<Seq<SpecToken>, SpecLexerError>(e@),
            },
    {
        let ghost s0 = self.spec_source();
        let ghost pos0 = self.spec_pos();
        let ghost line0 = self.spec_line();
        let mut tokens: Vec<Token> = Vec::new();
        loop
            invariant
                self.wf(),
                self.spec_source() == s0,
                pos0 <= self.spec_pos(),
                spec_scan_all(s0, pos0, line0) == (match spec_scan_all(
                    s0,
                    self.spec_pos(),
                    self.spec_line(),
                ) {
                    Ok(rest) => Ok::<Seq<SpecToken>, SpecLexerError>(tokens.deep_view() + rest),
                    Err(error) => Err::<Seq<SpecToken>, SpecLexerError>(error),
                }),
            decreases s0.len() - self.spec_pos(),
        {
            let tok = match self.scan_token() {
                Ok(t) => t,
                Err(e) => {
                    return Err(e);
                },
            };
            let is_eof = matches!(tok.kind, TokenKind::EOF);
            let ghost tv = tok@;
            let ghost prev = tokens.deep_view();
            tokens.push(tok);
            proof {
                assert(tokens.deep_view() =~= prev + seq![tv]);
            }
            if is_eof {
                proof {
                    assert(prev + seq![tv] =~= prev + seq![tv] + Seq::<SpecToken>::empty());
                }
                return Ok(tokens);
            }
            proof {
                if spec_scan_all(s0, self.spec_pos(), self.spec_line()) is Ok {
                    let rest = spec_scan_all(s0, self.spec_pos(), self.spec_line())->Ok_0;
                    assert(prev + (seq![tv] + rest) =~= (prev + seq![tv]) + rest);
                }
            }
        }
    }
}

/// An identifier never ends before the position it starts at.
proof fn lemma_spec_ident_end_bounds(s: Seq<char>, pos: int)
    requires
        0 <= pos,
    ensures
        spec_ident_end(s, pos) >= pos,
    decreases s.len() - pos,
{
    if pos < s.len() && (char_is_alphanumeric(s[pos]) || s[pos] == '_') {
        lemma_spec_ident_end_bounds(s, pos + 1);
    }
}

/// A numeral never ends before the position it starts at.
proof fn lemma_spec_number_end_bounds(s: Seq<char>, pos: int, has_decimal: bool)
    requires
        0 <= pos,
    ensures
        spec_number_end(s, pos, has_decimal) >= pos,
    decreases s.len() - pos,
{
    if pos < s.len() {
        if spec_is_digit(s[pos]) {
            lemma_spec_number_end_bounds(s, pos + 1, has_decimal);
        } else if s[pos] == '.' && !has_decimal {
            lemma_spec_number_end_bounds(s, pos + 1, true);
        }
    }
}

/// A comment consumes at least its opening character and stays within the
/// source.
proof fn lemma_spec_skip_comment_progress(s: Seq<char>, pos: int, line: int)
    requires
        0 <= pos,
    ensures
        pos < s.len() ==> pos < spec_skip_comment(s, pos, line).0 <= s.len(),
        pos >= s.len() ==> spec_skip_comment(s, pos, line) == (pos, line),
    decreases s.len() - pos,
{
    if pos < s.len() && s[pos] != '\n' {
        lemma_spec_skip_comment_progress(s, pos + 1, line);
    }
}

} // verus!
