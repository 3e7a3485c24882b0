use langparse::registry::{lookup_provider, supported_languages, Grammar};
use langparse::resolve::{find_grammar, generate_language};
use langparse::ParseError;

const ALL: [(Grammar, &str); 18] = [
    (Grammar::Bash, "bash"),
    (Grammar::C, "c"),
    (Grammar::CSharp, "c_sharp"),
    (Grammar::Cpp, "cpp"),
    (Grammar::Css, "css"),
    (Grammar::Go, "go"),
    (Grammar::Haskell, "haskell"),
    (Grammar::Hcl, "hcl"),
    (Grammar::Java, "java"),
    (Grammar::Json, "json"),
    (Grammar::Julia, "julia"),
    (Grammar::Ocaml, "ocaml"),
    (Grammar::Php, "php"),
    (Grammar::Python, "python"),
    (Grammar::Ruby, "ruby"),
    (Grammar::Rust, "rust"),
    (Grammar::Scala, "scala"),
    (Grammar::Swift, "swift"),
];

/// Every grammar that is built in can be bound to a fresh parser.
#[test]
fn test_loading_languages() {
    // Collect all failures, to show every language that fails at once.
    let mut failures = Vec::new();

    for name in supported_languages() {
        let grammar = lookup_provider(name).unwrap();
        let mut parser = tree_sitter::Parser::new();
        let result = parser.set_language(grammar.load().language());

        if let Err(e) = result {
            failures.push((name, e));
        }
    }

    assert!(failures.is_empty(), "{:#?}", failures);
}

#[test]
fn supported_languages_are_the_registered_ones_in_order() {
    let expected: Vec<&str> = ALL.iter().map(|(_, name)| *name).collect();
    assert_eq!(supported_languages(), expected);
}

#[test]
fn supported_languages_ascend_strictly() {
    let names = supported_languages();
    assert_eq!(names.len(), 18);
    for pair in names.windows(2) {
        assert!(pair[0] < pair[1], "{} !< {}", pair[0], pair[1]);
    }
}

#[test]
fn supported_languages_are_the_same_on_every_call() {
    assert_eq!(supported_languages(), supported_languages());
}

#[test]
fn every_supported_language_has_a_provider() {
    for name in supported_languages() {
        let grammar = lookup_provider(name);
        assert!(grammar.is_some(), "{}", name);
        assert_eq!(grammar.unwrap().identifier(), name);
    }
}

#[test]
fn each_grammar_is_found_under_its_identifier() {
    for (grammar, name) in ALL {
        assert_eq!(grammar.identifier(), name);
        assert_eq!(lookup_provider(name), Some(grammar));
    }
}

#[test]
fn lookup_matches_exactly() {
    assert_eq!(lookup_provider("Rust"), None);
    assert_eq!(lookup_provider("RUST"), None);
    assert_eq!(lookup_provider("rust "), None);
    assert_eq!(lookup_provider(" rust"), None);
    assert_eq!(lookup_provider("rus"), None);
    assert_eq!(lookup_provider("c-sharp"), None);
    assert_eq!(lookup_provider("c++"), None);
    assert_eq!(lookup_provider(""), None);
    assert_eq!(lookup_provider("not_a_real_language"), None);
    assert_eq!(lookup_provider("typescript"), None);
}

#[test]
fn a_handle_remembers_its_grammar() {
    for (grammar, _) in ALL {
        assert_eq!(grammar.load().grammar(), grammar);
    }
}

#[test]
fn handles_are_constructed_anew() {
    let first = Grammar::Json.load();
    let second = Grammar::Json.load();
    let mut parser = tree_sitter::Parser::new();
    assert!(parser.set_language(first.language()).is_ok());
    drop(first);
    assert!(parser.set_language(second.language()).is_ok());
    assert!(parser.parse("{}", None).is_some());
}

#[test]
fn find_grammar_reports_the_unknown_identifier() {
    assert_eq!(find_grammar("python"), Ok(Grammar::Python));
    assert_eq!(
        find_grammar("klingon"),
        Err(ParseError::UnsupportedLanguage { name: "klingon".to_string() })
    );
}

#[test]
fn generate_language_constructs_the_named_grammar() {
    for (grammar, name) in ALL {
        let handle = generate_language(name).unwrap();
        assert_eq!(handle.grammar(), grammar);
    }
}

#[test]
fn generate_language_rejects_an_unknown_identifier() {
    match generate_language("cobol") {
        Err(ParseError::UnsupportedLanguage { name }) => assert_eq!(name, "cobol"),
        Err(other) => panic!("unexpected failure: {:?}", other),
        Ok(handle) => panic!("unexpected grammar: {:?}", handle.grammar()),
    }
}
