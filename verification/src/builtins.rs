//! The builtin bootstrap: before any statement with a relational operator
//! runs, a secondary source text must be lexed, parsed and evaluated
//! against the same global environment, so that at least the names `true`
//! and `false` are bound to closures. The bootstrap source itself is an
//! external collaborator: the embedding layer supplies it.

use vstd::prelude::*;
use crate::lexer::Lexer;
use crate::parser::Parser;
use crate::pipeline::{spec_run_source_into, LanguageError, SpecLanguageError};
use crate::runner::{run_statements, Env, DEFAULT_EVAL_FUEL};

verus! {

/// Lex, parse and evaluate the bootstrap `source` against `globals`, so
/// that the bindings it makes (the boolean closures among them) are
/// visible to every later statement. A lexing or parsing error leaves
/// `globals` untouched; a runtime error keeps the bindings already made.
pub fn load_builtins(globals: &mut Env, source: &str) -> (r: Result<(), LanguageError>)
    ensures
        final(globals)@ == spec_run_source_into(
            source@,
            old(globals)@,
            DEFAULT_EVAL_FUEL as nat,
        ).0,
        match r {
            Ok(_) => spec_run_source_into(source@, old(globals)@, DEFAULT_EVAL_FUEL as nat).1
                is None,
            Err(e) => spec_run_source_into(source@, old(globals)@, DEFAULT_EVAL_FUEL as nat).1
                == Some(e@),
        },
{
    let tokens = match Lexer::new(source.to_owned()).scan_all_tokens() {
        Ok(tokens) => tokens,
        Err(e) => {
            return Err(LanguageError::Lex(e));
        },
    };
    let program = match Parser::new(tokens).parse_program() {
        Ok(program) => program,
        Err(e) => {
            return Err(LanguageError::Parse(e));
        },
    };
    match run_statements(&program, globals, DEFAULT_EVAL_FUEL) {
        Ok(_) => Ok(()),
        Err(e) => Err(LanguageError::Run(e)),
    }
}

} // verus!
