//! One parse, from a file's text to its syntax tree.

use vstd::prelude::*;
use tree_sitter::{LanguageError, Parser, Tree};
use crate::engine::run_parser;
use crate::error::{Failure, ParseError};
use crate::overrides::ExtensionOverrides;
use crate::registry::Grammar;
use crate::resolve::{named, resolve, resolve_language, table_of};

verus! {

/// The failures that the engine can cause once `grammar` is chosen for the
/// file at `path`: it refuses the grammar, or it produces no tree.
pub open spec fn engine_failure(failure: Failure, grammar: Grammar, path: Seq<char>) -> bool {
    ||| failure matches Failure::GrammarBindingFailed { language, .. } && language == grammar.name()
    ||| failure == (Failure::ParseFailed { path })
}

/// Turns the engine's answer to binding `grammar` into the driver's: a
/// refusal becomes the failure that names the language and keeps the cause.
pub fn binding_result(grammar: Grammar, bound: Result<(), LanguageError>) -> (r: Result<
    (),
    ParseError,
>)
    ensures
        match bound {
            Ok(_) => r is Ok,
            Err(cause) => r matches Err(e) && e@ == (Failure::GrammarBindingFailed {
                language: grammar.name(),
                cause,
            }),
        },
{
    match bound {
        Ok(_) => Ok(()),
        Err(cause) => Err(ParseError::grammar_binding_failed(grammar.identifier(), cause)),
    }
}

/// Turns the engine's answer to a parse of the file at `path` into the
/// driver's: the tree as it came, or the failure that names the path. An
/// absent tree is never passed off as an empty one.
pub fn tree_result(path: &str, parsed: Option<Tree>) -> (r: Result<Tree, ParseError>)
    ensures
        match parsed {
            Some(tree) => r == Ok::<Tree, ParseError>(tree),
            None => r matches Err(e) && e@ == (Failure::ParseFailed { path: path@ }),
        },
{
    match parsed {
        Some(tree) => Ok(tree),
        None => Err(ParseError::parse_failed(path)),
    }
}

/// Parses `text`, the content of the file at `path`, with `grammar`.
///
/// The grammar's handle is constructed for this parse and bound to a parser
/// made for this parse; neither outlives the call, and a failed parse is
/// not tried again. Whether the engine accepts the grammar and whether it
/// produces a tree is the engine's to decide: what is promised is how each
/// outcome is reported.
pub fn parse_with(grammar: Grammar, path: &str, text: &str) -> (r: Result<Tree, ParseError>)
    ensures
        r matches Err(e) ==> engine_failure(e@, grammar, path@),
{
    let handle = grammar.load();
    let mut parser = Parser::new();
    let bound = parser.set_language(handle.language());
    match binding_result(grammar, bound) {
        Ok(_) => tree_result(path, run_parser(&mut parser, text)),
        Err(e) => Err(e),
    }
}

/// Parses `text`, the content of the file at `path`, into a syntax tree.
///
/// The language is the one that `language` names, if the caller named one;
/// else the extension of `path` decides, by the caller's `overrides` first
/// and the built-in table after them. Where no grammar can be resolved the
/// engine is not run, and the failure says why. The tree belongs to the
/// caller.
pub fn parse_file(
    path: &str,
    text: &str,
    language: Option<&str>,
    overrides: Option<&ExtensionOverrides>,
) -> (r: Result<Tree, ParseError>)
    ensures
        match resolve(path@, named(language), table_of(overrides)) {
            Ok(grammar) => r matches Err(e) ==> engine_failure(e@, grammar, path@),
            Err(failure) => r matches Err(e) && e@ == failure,
        },
{
    match resolve_language(path, language, overrides) {
        Ok(grammar) => parse_with(grammar, path, text),
        Err(e) => Err(e),
    }
}

} // verus!
