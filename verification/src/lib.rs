//! Picks the grammar for a source file and parses the file with it.
//!
//! A file's language is the one the caller names, or else the one its
//! extension maps to: first in the caller's overrides, then in the built-in
//! table. The language's grammar comes from a fixed registry, is bound to a
//! fresh parser, and the parser turns the text into a syntax tree.

pub mod text;
pub mod engine;
pub mod registry;
pub mod error;
pub mod extension;
pub mod overrides;
pub mod resolve;
pub mod driver;

pub use driver::parse_file;
pub use error::ParseError;
pub use overrides::ExtensionOverrides;
pub use registry::{lookup_provider, supported_languages, Grammar, GrammarHandle};
pub use resolve::language_from_ext;
