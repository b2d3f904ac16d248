//! A compiler for a deliberately small Java-like object language: a
//! backtracking parser turns a lexed token stream into a typed class AST,
//! and a two-pass resolve-and-emit stage registers method symbols, resolves
//! identifier chains against a built-in class catalog, allocates local
//! variable slots, and emits JVM instructions and constant-pool entries,
//! assembled into a loadable class file through the class-file library.

pub mod ast;
pub mod compiler;
pub mod laws;
pub mod java;
pub mod scanner;
pub mod spike;
pub mod test_support;

use vstd::prelude::*;

use crate::ast::class::AstClass;
use crate::ast::{spec_to_ast, to_ast, ParseError};
use crate::scanner::scanner::{scan, spec_scan};
use crate::scanner::token::tokens_view;

verus! {

/// Scans one source text and parses it into its class AST, or reports the
/// first structural failure.
pub fn build_ast(source: &str) -> (r: Result<AstClass, ParseError>)
    ensures
        match spec_to_ast(spec_scan(source@)) {
            Ok(cv) => r is Ok && r.unwrap()@ == cv,
            Err(e) => r == Err::<AstClass, ParseError>(e),
        },
{
    let tokens = scan(source);
    proof {
        assert(tokens_view(tokens@) == spec_scan(source@));
    }
    to_ast(tokens)
}

} // verus!
