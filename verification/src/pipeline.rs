//! The whole pipeline in one call: source text to tokens to program to a
//! grown global environment, and the distinguished `result` binding out.
//!
//! Rendering the outcome as text is the embedding layer's business, not
//! the core's: the pipeline hands back the bound `Value` itself.

use vstd::prelude::*;
use crate::lexer::{spec_scan_all, Lexer, LexerError, SpecLexerError};
use crate::parser::{Parser, ParserError, PrResult, SpecParserError, spec_parse_program};
use crate::runner::{
    run_statements_spec, Runner, RunnerError, SpecRunnerError, SpecValue, Value, DEFAULT_EVAL_FUEL,
};

verus! {

/// An error from any phase of the pipeline, or the absence of the
/// distinguished `result` binding after a successful run (reported as an
/// error rather than by aborting: the core never terminates the process).
#[derive(Debug, PartialEq)]
pub enum LanguageError {
    Lex(LexerError),
    Parse(ParserError),
    Run(RunnerError),
    NoResultBinding,
}

/// Mathematical image of a `LanguageError`.
pub enum SpecLanguageError {
    Lex(SpecLexerError),
    Parse(SpecParserError),
    Run(SpecRunnerError),
    NoResultBinding,
}

impl View for LanguageError {
    type V = SpecLanguageError;

    open spec fn view(&self) -> SpecLanguageError {
        match self {
            LanguageError::Lex(e) => SpecLanguageError::Lex(e@),
            LanguageError::Parse(e) => SpecLanguageError::Parse(e@),
            LanguageError::Run(e) => SpecLanguageError::Run(e@),
            LanguageError::NoResultBinding => SpecLanguageError::NoResultBinding,
        }
    }
}

/// The environment that lexing, parsing and running `source` against
/// `env` leaves behind, with the error that stopped the pipeline if one
/// did. A lexing or parsing error leaves the environment untouched.
pub open spec fn spec_run_source_into(
    source: Seq<char>,
    env: Map<Seq<char>, SpecValue>,
    fuel: nat,
) -> (Map<Seq<char>, SpecValue>, Option<SpecLanguageError>) {
    match spec_scan_all(source, 0, 1) {
        Err(e) => (env, Some(SpecLanguageError::Lex(e))),
        Ok(toks) => match spec_parse_program(toks, 0) {
            PrResult::Failed { error } => (env, Some(SpecLanguageError::Parse(error))),
            PrResult::Parsed { stmts } => {
                let outcome = run_statements_spec(stmts, 0, env, fuel);
                match outcome.1 {
                    None => (outcome.0, None),
                    Some(e) => (outcome.0, Some(SpecLanguageError::Run(e))),
                }
            },
        },
    }
}

/// The value of the `result` binding after `source` has run against an
/// empty environment, or the first error: the mathematical image of
/// `run_lambent_code`.
pub open spec fn spec_run_lambent_code(source: Seq<char>, fuel: nat) -> Result<
    SpecValue,
    SpecLanguageError,
> {
    let outcome = spec_run_source_into(source, Map::empty(), fuel);
    match outcome.1 {
        Some(e) => Err(e),
        None => {
            if outcome.0.contains_key("result"@) {
                Ok(outcome.0["result"@])
            } else {
                Err(SpecLanguageError::NoResultBinding)
            }
        },
    }
}

/// Lex, parse and run `code` from an empty global environment, and hand
/// back the value of the distinguished `result` binding.
pub fn run_lambent_code(code: &str) -> (r: Result<Value, LanguageError>)
    ensures
        match r {
            Ok(v) => spec_run_lambent_code(code@, DEFAULT_EVAL_FUEL as nat) == Ok::<
                SpecValue,
                SpecLanguageError,
            >(v@),
            Err(e) => spec_run_lambent_code(code@, DEFAULT_EVAL_FUEL as nat) == Err::<
                SpecValue,
                SpecLanguageError,
            >(e@),
        },
{
    let tokens = match Lexer::new(code.to_owned()).scan_all_tokens() {
        Ok(tokens) => tokens,
        Err(e) => {
            return Err(LanguageError::Lex(e));
        },
    };
    let program = match Parser::new(tokens).parse_program() {
        Ok(program) => program,
        Err(e) => {
            return Err(LanguageError::Parse(e));
        },
    };
    let mut runner = Runner::new(program);
    match runner.run() {
        Ok(_) => {},
        Err(e) => {
            return Err(LanguageError::Run(e));
        },
    }
    match runner.get_global("result") {
        Some(v) => Ok(v.duplicate()),
        None => Err(LanguageError::NoResultBinding),
    }
}

} // verus!
