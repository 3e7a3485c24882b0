//! The parsing engine: its types, and the calls made into it.
//!
//! Nothing here is proved. The engine's types are opaque, and of its calls
//! only what is written here is assumed, which is nothing beyond their
//! types: the driver is proved for whatever the engine answers.

use vstd::prelude::*;
use tree_sitter::{Language, LanguageError, Parser, Tree};

verus! {

/// `tree_sitter::Language`: a grammar's handle, opaque here.
#[verifier::external_type_specification]
#[verifier::external_body]
pub struct ExLanguage(Language);

/// `tree_sitter::Parser`: a parser and the grammar bound to it, opaque here.
#[verifier::external_type_specification]
#[verifier::external_body]
pub struct ExParser(Parser);

/// `tree_sitter::Tree`: a syntax tree, opaque here.
#[verifier::external_type_specification]
#[verifier::external_body]
pub struct ExTree(Tree);

/// `tree_sitter::LanguageError`: why a parser refused a grammar, opaque here.
#[verifier::external_type_specification]
#[verifier::external_body]
pub struct ExLanguageError(LanguageError);

/// `tree_sitter::Parser::new` makes a parser with no grammar bound to it.
/// Nothing is claimed of the parser.
pub assume_specification[ Parser::new ]() -> (parser: Parser);

/// `tree_sitter::Parser::set_language` binds a grammar to a parser, or
/// refuses it. Nothing is claimed of which it does: that depends on the
/// version the grammar was generated for.
pub assume_specification[ Parser::set_language ](
    parser: &mut Parser,
    language: &Language,
) -> (bound: Result<(), LanguageError>);

/// `tree_sitter::Parser::parse` on the whole text, with no earlier tree to
/// start from. Nothing is claimed of the outcome: the engine may give up
/// without a tree.
#[verifier::external_body]
pub(crate) fn run_parser(parser: &mut Parser, text: &str) -> (tree: Option<Tree>) {
    parser.parse(text, None)
}

} // verus!
