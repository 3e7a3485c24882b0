//! Which language a file is in: the one the caller names, or else the one
//! its extension stands for.

use vstd::prelude::*;
use crate::error::{Failure, ParseError};
use crate::extension::{default_extensions, default_grammar, extension_of, file_extension};
use crate::overrides::ExtensionOverrides;
use crate::registry::{
    lemma_provider_of_name, lookup_provider, provider, Grammar, GrammarHandle,
};

verus! {

/// The caller's table as a map, if the caller gave one.
pub open spec fn table_of(overrides: Option<&ExtensionOverrides>) -> Option<
    Map<Seq<char>, Seq<char>>,
> {
    match overrides {
        Some(table) => Some(table@),
        None => None,
    }
}

/// The characters of the identifier that the caller named, if any.
pub open spec fn named(language: Option<&str>) -> Option<Seq<char>> {
    match language {
        Some(name) => Some(name@),
        None => None,
    }
}

/// The grammar registered under `name`, or the failure that names it.
pub open spec fn registered(name: Seq<char>) -> Result<Grammar, Failure> {
    match provider(name) {
        Some(grammar) => Ok(grammar),
        None => Err(Failure::UnsupportedLanguage { name }),
    }
}

/// What an extension resolves to. An entry of the caller's table decides
/// alone, even where the language it names has no grammar; only without
/// such an entry is the built-in table consulted.
pub open spec fn resolve_extension(
    extension: Seq<char>,
    overrides: Option<Map<Seq<char>, Seq<char>>>,
) -> Result<Grammar, Failure> {
    if overrides is Some && overrides->0.contains_key(extension) {
        registered(overrides->0[extension])
    } else {
        match default_extensions().get(extension) {
            Some(grammar) => Ok(grammar),
            None => Err(Failure::UnsupportedExtension { extension }),
        }
    }
}

/// What a request resolves to: a named language goes before everything
/// else; without one the extension of the path decides, and a path without
/// an extension cannot be resolved.
pub open spec fn resolve(
    path: Seq<char>,
    language: Option<Seq<char>>,
    overrides: Option<Map<Seq<char>, Seq<char>>>,
) -> Result<Grammar, Failure> {
    match language {
        Some(name) => registered(name),
        None => match extension_of(path) {
            Some(extension) => resolve_extension(extension, overrides),
            None => Err(Failure::NoExtension { path }),
        },
    }
}

/// The identifier of the grammar that was resolved, or the failure.
pub open spec fn identifier_of(resolved: Result<Grammar, Failure>) -> Result<Seq<char>, Failure> {
    match resolved {
        Ok(grammar) => Ok(grammar.name()),
        Err(failure) => Err(failure),
    }
}

/// `found` is the grammar or the failure that `expected` says.
pub open spec fn agrees(
    found: Result<Grammar, ParseError>,
    expected: Result<Grammar, Failure>,
) -> bool {
    match expected {
        Ok(grammar) => found == Ok::<Grammar, ParseError>(grammar),
        Err(failure) => found matches Err(e) && e@ == failure,
    }
}

/// Finds the grammar registered under the identifier `name`.
pub fn find_grammar(name: &str) -> (r: Result<Grammar, ParseError>)
    ensures
        agrees(r, registered(name@)),
{
    match lookup_provider(name) {
        Some(grammar) => Ok(grammar),
        None => Err(ParseError::unsupported_language(name)),
    }
}

/// Constructs the handle of the grammar registered under the identifier
/// `lang`.
pub fn generate_language(lang: &str) -> (r: Result<GrammarHandle, ParseError>)
    ensures
        match registered(lang@) {
            Ok(grammar) => r matches Ok(handle) && handle@ == grammar,
            Err(failure) => r matches Err(e) && e@ == failure,
        },
{
    match find_grammar(lang) {
        Ok(grammar) => Ok(grammar.load()),
        Err(e) => Err(e),
    }
}

/// Finds the grammar for the extension `ext`.
pub fn grammar_from_ext(ext: &str, overrides: Option<&ExtensionOverrides>) -> (r: Result<
    Grammar,
    ParseError,
>)
    ensures
        agrees(r, resolve_extension(ext@, table_of(overrides))),
{
    if let Some(table) = overrides {
        if let Some(name) = table.get(ext) {
            return find_grammar(name);
        }
    }
    match default_grammar(ext) {
        Some(grammar) => Ok(grammar),
        None => Err(ParseError::unsupported_extension(ext)),
    }
}

/// Finds the identifier of the language that the extension `ext` stands
/// for. The identifier that comes back has a grammar in the registry.
pub fn language_from_ext(ext: &str, overrides: Option<&ExtensionOverrides>) -> (r: Result<
    String,
    ParseError,
>)
    ensures
        match identifier_of(resolve_extension(ext@, table_of(overrides))) {
            Ok(name) => r matches Ok(found) && found@ == name && provider(name) is Some,
            Err(failure) => r matches Err(e) && e@ == failure,
        },
{
    match grammar_from_ext(ext, overrides) {
        Ok(grammar) => {
            proof {
                lemma_provider_of_name(grammar);
            }
            Ok(grammar.identifier().to_owned())
        },
        Err(e) => Err(e),
    }
}

/// Finds the grammar for the file at `path`: the one that `language` names
/// if the caller named one, else the one for the extension of the path.
pub fn resolve_language(
    path: &str,
    language: Option<&str>,
    overrides: Option<&ExtensionOverrides>,
) -> (r: Result<Grammar, ParseError>)
    ensures
        agrees(r, resolve(path@, named(language), table_of(overrides))),
{
    match language {
        Some(name) => find_grammar(name),
        None => match file_extension(path) {
            Some(extension) => grammar_from_ext(extension.as_str(), overrides),
            None => Err(ParseError::no_extension(path)),
        },
    }
}

/// Without overrides, an extension of the built-in table resolves to the
/// identifier that the table gives it.
pub proof fn lemma_default_extension_resolves(extension: Seq<char>)
    requires
        default_extensions().contains_key(extension),
    ensures
        identifier_of(resolve_extension(extension, None)) == Ok::<Seq<char>, Failure>(
            default_extensions()[extension].name(),
        ),
{
}

/// An override wins: an extension that the caller's table maps to a
/// language with a grammar resolves to that language, whatever the built-in
/// table says of the extension.
pub proof fn lemma_override_wins(extension: Seq<char>, overrides: Map<Seq<char>, Seq<char>>)
    requires
        overrides.contains_key(extension),
        provider(overrides[extension]) is Some,
    ensures
        identifier_of(resolve_extension(extension, Some(overrides))) == Ok::<Seq<char>, Failure>(
            overrides[extension],
        ),
{
}

/// An override decides alone: an extension that the caller's table maps to
/// a language without a grammar fails on that language, and the built-in
/// table is not consulted.
pub proof fn lemma_override_without_grammar(
    extension: Seq<char>,
    overrides: Map<Seq<char>, Seq<char>>,
)
    requires
        overrides.contains_key(extension),
        provider(overrides[extension]) is None,
    ensures
        resolve_extension(extension, Some(overrides)) == Err::<Grammar, Failure>(
            Failure::UnsupportedLanguage { name: overrides[extension] },
        ),
{
}

/// Overrides that do not mention an extension leave it to the built-in
/// table.
pub proof fn lemma_override_elsewhere(extension: Seq<char>, overrides: Map<Seq<char>, Seq<char>>)
    requires
        !overrides.contains_key(extension),
    ensures
        resolve_extension(extension, Some(overrides)) == resolve_extension(extension, None),
{
}

/// An extension that neither table maps is unsupported.
pub proof fn lemma_unmapped_extension(
    extension: Seq<char>,
    overrides: Option<Map<Seq<char>, Seq<char>>>,
)
    requires
        !default_extensions().contains_key(extension),
        overrides is Some ==> !overrides->0.contains_key(extension),
    ensures
        resolve_extension(extension, overrides) == Err::<Grammar, Failure>(
            Failure::UnsupportedExtension { extension },
        ),
{
}

/// Without a named language, a path without an extension is not resolved,
/// whatever the overrides.
pub proof fn lemma_no_extension(path: Seq<char>, overrides: Option<Map<Seq<char>, Seq<char>>>)
    requires
        extension_of(path) is None,
    ensures
        resolve(path, None, overrides) == Err::<Grammar, Failure>(Failure::NoExtension { path }),
{
}

/// A named language that has no grammar fails as unsupported, whatever the
/// path and its extension, and whatever the overrides.
pub proof fn lemma_unknown_language(
    path: Seq<char>,
    name: Seq<char>,
    overrides: Option<Map<Seq<char>, Seq<char>>>,
)
    requires
        provider(name) is None,
    ensures
        resolve(path, Some(name), overrides) == Err::<Grammar, Failure>(
            Failure::UnsupportedLanguage { name },
        ),
{
}

/// A named language that has a grammar resolves to it, whatever the path
/// and the overrides: naming a language bypasses the extension.
pub proof fn lemma_named_language(
    path: Seq<char>,
    grammar: Grammar,
    overrides: Option<Map<Seq<char>, Seq<char>>>,
)
    ensures
        resolve(path, Some(grammar.name()), overrides) == Ok::<Grammar, Failure>(grammar),
{
    lemma_provider_of_name(grammar);
}

/// Whatever is resolved has a grammar under its identifier.
pub proof fn lemma_resolved_is_registered(
    path: Seq<char>,
    language: Option<Seq<char>>,
    overrides: Option<Map<Seq<char>, Seq<char>>>,
)
    ensures
        identifier_of(resolve(path, language, overrides)) matches Ok(name) ==> provider(name)
            is Some,
{
    match resolve(path, language, overrides) {
        Ok(grammar) => lemma_provider_of_name(grammar),
        Err(_) => {},
    }
}

} // verus!
