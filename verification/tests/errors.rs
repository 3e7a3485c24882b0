use langparse::ParseError;
use tree_sitter::LanguageError;

#[test]
fn message_of_unsupported_language() {
    let e = ParseError::unsupported_language("klingon");
    assert_eq!(e, ParseError::UnsupportedLanguage { name: "klingon".to_string() });
    assert_eq!(e.message(), "Unsupported language klingon");
}

#[test]
fn message_of_unsupported_extension() {
    let e = ParseError::unsupported_extension("txt");
    assert_eq!(e, ParseError::UnsupportedExtension { extension: "txt".to_string() });
    assert_eq!(e.message(), "Unsupported filetype \"txt\"");
}

#[test]
fn message_of_no_extension() {
    let e = ParseError::no_extension("bin/run");
    assert_eq!(e, ParseError::NoExtension { path: "bin/run".to_string() });
    assert_eq!(e.message(), "Could not deduce an extension for file name \"bin/run\"");
}

#[test]
fn message_of_grammar_binding_failed() {
    let e = ParseError::grammar_binding_failed("rust", LanguageError::Version(99));
    assert_eq!(
        e,
        ParseError::GrammarBindingFailed {
            language: "rust".to_string(),
            cause: LanguageError::Version(99),
        }
    );
    assert_eq!(
        e.message(),
        format!(
            "Could not load the grammar for language rust: {}",
            LanguageError::Version(99)
        )
    );
    assert!(e.message().contains("99"));
    let e = ParseError::grammar_binding_failed("go", LanguageError::NotParseable);
    assert_eq!(
        e.message(),
        format!("Could not load the grammar for language go: {}", LanguageError::NotParseable)
    );
}

#[test]
fn message_of_parse_failed() {
    let e = ParseError::parse_failed("src/lib.rs");
    assert_eq!(e, ParseError::ParseFailed { path: "src/lib.rs".to_string() });
    assert_eq!(e.message(), "Failed to parse file: src/lib.rs");
}

#[test]
fn messages_keep_every_character() {
    assert_eq!(
        ParseError::unsupported_extension("tèxt\"").message(),
        "Unsupported filetype \"tèxt\"\""
    );
    assert_eq!(ParseError::unsupported_language("").message(), "Unsupported language ");
    assert_eq!(ParseError::parse_failed("名前.rs").message(), "Failed to parse file: 名前.rs");
}
