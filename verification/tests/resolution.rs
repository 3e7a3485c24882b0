use langparse::extension::default_grammar;
use langparse::registry::{lookup_provider, Grammar};
use langparse::resolve::{grammar_from_ext, language_from_ext, resolve_language};
use langparse::{ExtensionOverrides, ParseError};

const DEFAULTS: [(&str, &str); 21] = [
    ("hs", "haskell"),
    ("rs", "rust"),
    ("go", "go"),
    ("c", "c"),
    ("cc", "cpp"),
    ("cpp", "cpp"),
    ("cs", "c_sharp"),
    ("java", "java"),
    ("py", "python"),
    ("css", "css"),
    ("sh", "bash"),
    ("bash", "bash"),
    ("jl", "julia"),
    ("ml", "ocaml"),
    ("rb", "ruby"),
    ("scala", "scala"),
    ("sc", "scala"),
    ("swift", "swift"),
    ("php", "php"),
    ("json", "json"),
    ("hcl", "hcl"),
];

fn unsupported_language(name: &str) -> ParseError {
    ParseError::UnsupportedLanguage { name: name.to_string() }
}

fn unsupported_extension(extension: &str) -> ParseError {
    ParseError::UnsupportedExtension { extension: extension.to_string() }
}

#[test]
fn every_default_extension_resolves_to_its_language() {
    for (extension, language) in DEFAULTS {
        assert_eq!(language_from_ext(extension, None), Ok(language.to_string()), "{}", extension);
    }
}

#[test]
fn every_default_extension_has_a_grammar() {
    for (extension, language) in DEFAULTS {
        let grammar = default_grammar(extension);
        assert_eq!(grammar, lookup_provider(language), "{}", extension);
        assert!(grammar.is_some(), "{}", extension);
    }
}

#[test]
fn default_extensions_are_matched_exactly() {
    assert_eq!(default_grammar("RS"), None);
    assert_eq!(default_grammar("Py"), None);
    assert_eq!(default_grammar(".rs"), None);
    assert_eq!(default_grammar("rs "), None);
    assert_eq!(default_grammar(""), None);
    assert_eq!(default_grammar("rust"), None);
    assert_eq!(default_grammar("txt"), None);
    assert_eq!(language_from_ext("RS", None), Err(unsupported_extension("RS")));
}

#[test]
fn unknown_extension_is_unsupported() {
    assert_eq!(language_from_ext("xyz_unknown", None), Err(unsupported_extension("xyz_unknown")));
}

#[test]
fn unknown_extension_is_unsupported_with_unrelated_overrides() {
    let mut overrides = ExtensionOverrides::new();
    overrides.insert("txt", "python");
    assert_eq!(
        language_from_ext("xyz_unknown", Some(&overrides)),
        Err(unsupported_extension("xyz_unknown"))
    );
    let empty = ExtensionOverrides::new();
    assert_eq!(
        language_from_ext("xyz_unknown", Some(&empty)),
        Err(unsupported_extension("xyz_unknown"))
    );
}

#[test]
fn override_gives_an_extension_a_language() {
    let mut overrides = ExtensionOverrides::new();
    overrides.insert("txt", "python");
    assert_eq!(language_from_ext("txt", Some(&overrides)), Ok("python".to_string()));
    assert_eq!(language_from_ext("txt", None), Err(unsupported_extension("txt")));
}

#[test]
fn override_shadows_the_built_in_table() {
    let mut overrides = ExtensionOverrides::new();
    overrides.insert("rs", "python");
    assert_eq!(language_from_ext("rs", Some(&overrides)), Ok("python".to_string()));
    assert_eq!(language_from_ext("rs", None), Ok("rust".to_string()));
    assert_eq!(grammar_from_ext("rs", Some(&overrides)), Ok(Grammar::Python));
    assert_eq!(grammar_from_ext("rs", None), Ok(Grammar::Rust));
}

#[test]
fn override_leaves_other_extensions_to_the_built_in_table() {
    let mut overrides = ExtensionOverrides::new();
    overrides.insert("rs", "python");
    for (extension, language) in DEFAULTS {
        if extension != "rs" {
            assert_eq!(language_from_ext(extension, Some(&overrides)), Ok(language.to_string()));
        }
    }
}

#[test]
fn override_to_an_unknown_language_fails_on_that_language() {
    let mut overrides = ExtensionOverrides::new();
    overrides.insert("txt", "klingon");
    overrides.insert("rs", "klingon");
    assert_eq!(language_from_ext("txt", Some(&overrides)), Err(unsupported_language("klingon")));
    // The built-in entry for `rs` is not fallen back on.
    assert_eq!(language_from_ext("rs", Some(&overrides)), Err(unsupported_language("klingon")));
}

#[test]
fn resolved_identifiers_are_registered() {
    let mut overrides = ExtensionOverrides::new();
    overrides.insert("txt", "json");
    overrides.insert("weird", "nothing");
    for extension in ["txt", "weird", "rs", "py", "zzz", ""] {
        if let Ok(name) = language_from_ext(extension, Some(&overrides)) {
            assert!(lookup_provider(&name).is_some(), "{}", name);
        }
    }
}

#[test]
fn a_named_language_goes_before_the_extension() {
    let mut overrides = ExtensionOverrides::new();
    overrides.insert("rs", "python");
    assert_eq!(resolve_language("main.rs", Some("json"), Some(&overrides)), Ok(Grammar::Json));
    assert_eq!(resolve_language("main.rs", Some("json"), None), Ok(Grammar::Json));
    assert_eq!(resolve_language("Makefile", Some("bash"), None), Ok(Grammar::Bash));
    assert_eq!(resolve_language("", Some("c"), None), Ok(Grammar::C));
}

#[test]
fn an_unknown_named_language_fails_whatever_the_path() {
    let mut overrides = ExtensionOverrides::new();
    overrides.insert("rs", "python");
    for path in ["main.rs", "Makefile", "a.txt", "", "dir/x.py"] {
        assert_eq!(
            resolve_language(path, Some("not_a_real_language"), None),
            Err(unsupported_language("not_a_real_language"))
        );
        assert_eq!(
            resolve_language(path, Some("not_a_real_language"), Some(&overrides)),
            Err(unsupported_language("not_a_real_language"))
        );
    }
}

#[test]
fn without_a_named_language_the_extension_decides() {
    let mut overrides = ExtensionOverrides::new();
    overrides.insert("rs", "python");
    overrides.insert("txt", "json");
    assert_eq!(resolve_language("src/main.rs", None, None), Ok(Grammar::Rust));
    assert_eq!(resolve_language("src/main.rs", None, Some(&overrides)), Ok(Grammar::Python));
    assert_eq!(resolve_language("notes.txt", None, Some(&overrides)), Ok(Grammar::Json));
    assert_eq!(resolve_language("notes.txt", None, None), Err(unsupported_extension("txt")));
    assert_eq!(resolve_language("archive.tar.gz", None, None), Err(unsupported_extension("gz")));
}

#[test]
fn without_a_named_language_a_path_needs_an_extension() {
    let mut overrides = ExtensionOverrides::new();
    overrides.insert("", "python");
    for path in ["Makefile", "src/Makefile", ".bashrc", "dir.rs/README", "", "..", "a/"] {
        let expected = Err(ParseError::NoExtension { path: path.to_string() });
        assert_eq!(resolve_language(path, None, None), expected, "{}", path);
        assert_eq!(resolve_language(path, None, Some(&overrides)), expected, "{}", path);
    }
}
