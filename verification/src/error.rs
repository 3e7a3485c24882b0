//! The ways in which resolving a language or parsing a file fails.

use vstd::prelude::*;
use vstd::string::{to_string_from_display_ensures, StringExecFns};
use tree_sitter::LanguageError;

verus! {

/// Why no syntax tree was produced. Each failure carries what a message to
/// the user needs: the path, the extension or the language identifier.
#[derive(Debug, PartialEq, Eq)]
pub enum ParseError {
    /// No built-in grammar is registered under the identifier `name`.
    UnsupportedLanguage { name: String },
    /// Neither the overrides nor the built-in table map `extension`.
    UnsupportedExtension { extension: String },
    /// No language was named and `path` has no extension to go by.
    NoExtension { path: String },
    /// The parser did not accept the grammar registered under `language`.
    GrammarBindingFailed { language: String, cause: LanguageError },
    /// The parser ran on the file at `path` and produced no tree.
    ParseFailed { path: String },
}

/// A failure with its strings as sequences of characters.
pub enum Failure {
    UnsupportedLanguage { name: Seq<char> },
    UnsupportedExtension { extension: Seq<char> },
    NoExtension { path: Seq<char> },
    GrammarBindingFailed { language: Seq<char>, cause: LanguageError },
    ParseFailed { path: Seq<char> },
}

impl View for ParseError {
    type V = Failure;

    open spec fn view(&self) -> Failure {
        match self {
            ParseError::UnsupportedLanguage { name } => Failure::UnsupportedLanguage {
                name: name@,
            },
            ParseError::UnsupportedExtension { extension } => Failure::UnsupportedExtension {
                extension: extension@,
            },
            ParseError::NoExtension { path } => Failure::NoExtension { path: path@ },
            ParseError::GrammarBindingFailed { language, cause } => Failure::GrammarBindingFailed {
                language: language@,
                cause: *cause,
            },
            ParseError::ParseFailed { path } => Failure::ParseFailed { path: path@ },
        }
    }
}

impl ParseError {
    /// The failure for an identifier that names no built-in grammar.
    pub fn unsupported_language(name: &str) -> (e: ParseError)
        ensures
            e@ == (Failure::UnsupportedLanguage { name: name@ }),
    {
        ParseError::UnsupportedLanguage { name: name.to_owned() }
    }

    /// The failure for an extension that no table maps.
    pub fn unsupported_extension(extension: &str) -> (e: ParseError)
        ensures
            e@ == (Failure::UnsupportedExtension { extension: extension@ }),
    {
        ParseError::UnsupportedExtension { extension: extension.to_owned() }
    }

    /// The failure for a path without an extension.
    pub fn no_extension(path: &str) -> (e: ParseError)
        ensures
            e@ == (Failure::NoExtension { path: path@ }),
    {
        ParseError::NoExtension { path: path.to_owned() }
    }

    /// The failure for a grammar that the parser did not accept.
    pub fn grammar_binding_failed(language: &str, cause: LanguageError) -> (e: ParseError)
        ensures
            e@ == (Failure::GrammarBindingFailed { language: language@, cause }),
    {
        ParseError::GrammarBindingFailed { language: language.to_owned(), cause }
    }

    /// The failure for a parse that produced no tree.
    pub fn parse_failed(path: &str) -> (e: ParseError)
        ensures
            e@ == (Failure::ParseFailed { path: path@ }),
    {
        ParseError::ParseFailed { path: path.to_owned() }
    }
}

/// `text` is the message for `failure`: what went wrong, on which path,
/// extension or language, and for a refused grammar what the engine says
/// of the cause.
pub open spec fn is_message_of(failure: Failure, text: Seq<char>) -> bool {
    match failure {
        Failure::UnsupportedLanguage { name } => text =~= "Unsupported language "@ + name,
        Failure::UnsupportedExtension { extension } => text =~= "Unsupported filetype \""@
            + extension + "\""@,
        Failure::NoExtension { path } => text
            =~= "Could not deduce an extension for file name \""@ + path + "\""@,
        Failure::GrammarBindingFailed { language, cause } => has_binding_message(
            language,
            cause,
            text,
        ),
        Failure::ParseFailed { path } => text =~= "Failed to parse file: "@ + path,
    }
}

/// `text` is the message for a grammar that the engine refused.
pub open spec fn has_binding_message(
    language: Seq<char>,
    cause: LanguageError,
    text: Seq<char>,
) -> bool {
    exists|why: String| is_binding_message(language, cause, why, text)
}

/// `text` is the message for a grammar that the engine refused, where `why`
/// is what the engine's `Display` writes for the cause.
pub open spec fn is_binding_message(
    language: Seq<char>,
    cause: LanguageError,
    why: String,
    text: Seq<char>,
) -> bool {
    &&& to_string_from_display_ensures::<LanguageError>(&cause, why)
    &&& text =~= "Could not load the grammar for language "@ + language + ": "@ + why@
}

impl ParseError {
    /// The message for this failure.
    pub fn message(&self) -> (text: String)
        ensures
            is_message_of(self@, text@),
    {
        match self {
            ParseError::UnsupportedLanguage { name } => String::from_str(
                "Unsupported language ",
            ).concat(name.as_str()),
            ParseError::UnsupportedExtension { extension } => String::from_str(
                "Unsupported filetype \"",
            ).concat(extension.as_str()).concat("\""),
            ParseError::NoExtension { path } => String::from_str(
                "Could not deduce an extension for file name \"",
            ).concat(path.as_str()).concat("\""),
            ParseError::GrammarBindingFailed { language, cause } => {
                let why = cause.to_string();
                let text = String::from_str("Could not load the grammar for language ").concat(
                    language.as_str(),
                ).concat(": ").concat(why.as_str());
                assert(is_binding_message(language@, *cause, why, text@));
                text
            },
            ParseError::ParseFailed { path } => String::from_str("Failed to parse file: ").concat(
                path.as_str(),
            ),
        }
    }
}

} // verus!
