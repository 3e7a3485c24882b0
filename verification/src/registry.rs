//! The grammars that are built in, each under its language identifier.
//!
//! The registry is a closed set: a grammar is a variant of [`Grammar`], found
//! by its identifier and able to construct its handle. What is proved is the
//! bookkeeping: identifiers are unique, lookup is exact, the list of
//! identifiers is complete and sorted. That a handle parses the language it
//! is named after rests on the grammar crates and is not proved.

use vstd::prelude::*;
use tree_sitter::Language;
use crate::text::{
    lemma_ascending_distinct, lemma_precedes_transitive, precedes_at, precedes, same_text,
    strictly_ascending,
};

verus! {

/// A built-in grammar: the capability to construct that grammar's handle.
#[derive(Clone, Copy, Debug, PartialEq, Eq, Hash, Structural)]
pub enum Grammar {
    Bash,
    C,
    CSharp,
    Cpp,
    Css,
    Go,
    Haskell,
    Hcl,
    Java,
    Json,
    Julia,
    Ocaml,
    Php,
    Python,
    Ruby,
    Rust,
    Scala,
    Swift,
}

/// A grammar's handle, together with the grammar it was constructed from.
///
/// A handle serves one parse: it is constructed on demand, bound to one
/// parser, and never kept or shared.
#[derive(Debug)]
pub struct GrammarHandle {
    grammar: Grammar,
    language: Language,
}

impl View for GrammarHandle {
    type V = Grammar;

    /// The grammar this handle was constructed from.
    closed spec fn view(&self) -> Grammar {
        self.grammar
    }
}

impl GrammarHandle {
    /// The handle as the parsing engine takes it.
    pub closed spec fn engine_handle(&self) -> Language {
        self.language
    }

    /// The grammar this handle was constructed from.
    pub fn grammar(&self) -> (g: Grammar)
        ensures
            g == self@,
    {
        self.grammar
    }

    /// The handle as the parsing engine takes it.
    pub fn language(&self) -> (language: &Language)
        ensures
            *language == self.engine_handle(),
    {
        &self.language
    }
}

impl Grammar {
    /// The language identifier under which the grammar is registered.
    pub open spec fn name(self) -> Seq<char> {
        match self {
            Grammar::Bash => "bash"@,
            Grammar::C => "c"@,
            Grammar::CSharp => "c_sharp"@,
            Grammar::Cpp => "cpp"@,
            Grammar::Css => "css"@,
            Grammar::Go => "go"@,
            Grammar::Haskell => "haskell"@,
            Grammar::Hcl => "hcl"@,
            Grammar::Java => "java"@,
            Grammar::Json => "json"@,
            Grammar::Julia => "julia"@,
            Grammar::Ocaml => "ocaml"@,
            Grammar::Php => "php"@,
            Grammar::Python => "python"@,
            Grammar::Ruby => "ruby"@,
            Grammar::Rust => "rust"@,
            Grammar::Scala => "scala"@,
            Grammar::Swift => "swift"@,
        }
    }

    /// The language identifier under which the grammar is registered.
    pub fn identifier(self) -> (r: &'static str)
        ensures
            r@ == self.name(),
    {
        match self {
            Grammar::Bash => "bash",
            Grammar::C => "c",
            Grammar::CSharp => "c_sharp",
            Grammar::Cpp => "cpp",
            Grammar::Css => "css",
            Grammar::Go => "go",
            Grammar::Haskell => "haskell",
            Grammar::Hcl => "hcl",
            Grammar::Java => "java",
            Grammar::Json => "json",
            Grammar::Julia => "julia",
            Grammar::Ocaml => "ocaml",
            Grammar::Php => "php",
            Grammar::Python => "python",
            Grammar::Ruby => "ruby",
            Grammar::Rust => "rust",
            Grammar::Scala => "scala",
            Grammar::Swift => "swift",
        }
    }

    /// Constructs the grammar's handle.
    ///
    /// Each call runs the grammar's native construction routine and yields a
    /// handle of its own. The routines are not known to be reentrant: calls
    /// for different grammars may run at the same time, but nothing here
    /// serializes them, so a caller that constructs the same grammar from
    /// several threads relies on the native library's own thread safety.
    pub fn load(self) -> (handle: GrammarHandle)
        ensures
            handle@ == self,
    {
        let language = match self {
            Grammar::Bash => bash_language(),
            Grammar::C => c_language(),
            Grammar::CSharp => c_sharp_language(),
            Grammar::Cpp => cpp_language(),
            Grammar::Css => css_language(),
            Grammar::Go => go_language(),
            Grammar::Haskell => haskell_language(),
            Grammar::Hcl => hcl_language(),
            Grammar::Java => java_language(),
            Grammar::Json => json_language(),
            Grammar::Julia => julia_language(),
            Grammar::Ocaml => ocaml_language(),
            Grammar::Php => php_language(),
            Grammar::Python => python_language(),
            Grammar::Ruby => ruby_language(),
            Grammar::Rust => rust_language(),
            Grammar::Scala => scala_language(),
            Grammar::Swift => swift_language(),
        };
        GrammarHandle { grammar: self, language }
    }
}

/// The grammar registered under `name`, if there is one. Identifiers are
/// matched exactly: case matters.
pub open spec fn provider(name: Seq<char>) -> Option<Grammar> {
    if exists|g: Grammar| g.name() == name {
        Some(choose|g: Grammar| g.name() == name)
    } else {
        None
    }
}

/// The identifiers of all built-in grammars, in dictionary order.
pub open spec fn registry_names() -> Seq<Seq<char>> {
    seq![
        "bash"@,
        "c"@,
        "c_sharp"@,
        "cpp"@,
        "css"@,
        "go"@,
        "haskell"@,
        "hcl"@,
        "java"@,
        "json"@,
        "julia"@,
        "ocaml"@,
        "php"@,
        "python"@,
        "ruby"@,
        "rust"@,
        "scala"@,
        "swift"@,
    ]
}

/// The characters of each string of `names`.
pub open spec fn views_of(names: Seq<&'static str>) -> Seq<Seq<char>> {
    Seq::new(names.len(), |i: int| names[i]@)
}

/// What the identifiers are, character by character.
proof fn reveal_names()
    ensures
        "bash"@.len() == 4 && "bash"@[0] == 'b' && "bash"@[1] == 'a' && "bash"@[2] == 's'
            && "bash"@[3] == 'h',
        "c"@.len() == 1 && "c"@[0] == 'c',
        "c_sharp"@.len() == 7 && "c_sharp"@[0] == 'c' && "c_sharp"@[1] == '_'
            && "c_sharp"@[2] == 's' && "c_sharp"@[3] == 'h' && "c_sharp"@[4] == 'a'
            && "c_sharp"@[5] == 'r' && "c_sharp"@[6] == 'p',
        "cpp"@.len() == 3 && "cpp"@[0] == 'c' && "cpp"@[1] == 'p' && "cpp"@[2] == 'p',
        "css"@.len() == 3 && "css"@[0] == 'c' && "css"@[1] == 's' && "css"@[2] == 's',
        "go"@.len() == 2 && "go"@[0] == 'g' && "go"@[1] == 'o',
        "haskell"@.len() == 7 && "haskell"@[0] == 'h' && "haskell"@[1] == 'a'
            && "haskell"@[2] == 's' && "haskell"@[3] == 'k' && "haskell"@[4] == 'e'
            && "haskell"@[5] == 'l' && "haskell"@[6] == 'l',
        "hcl"@.len() == 3 && "hcl"@[0] == 'h' && "hcl"@[1] == 'c' && "hcl"@[2] == 'l',
        "java"@.len() == 4 && "java"@[0] == 'j' && "java"@[1] == 'a' && "java"@[2] == 'v'
            && "java"@[3] == 'a',
        "json"@.len() == 4 && "json"@[0] == 'j' && "json"@[1] == 's' && "json"@[2] == 'o'
            && "json"@[3] == 'n',
        "julia"@.len() == 5 && "julia"@[0] == 'j' && "julia"@[1] == 'u' && "julia"@[2] == 'l'
            && "julia"@[3] == 'i' && "julia"@[4] == 'a',
        "ocaml"@.len() == 5 && "ocaml"@[0] == 'o' && "ocaml"@[1] == 'c' && "ocaml"@[2] == 'a'
            && "ocaml"@[3] == 'm' && "ocaml"@[4] == 'l',
        "php"@.len() == 3 && "php"@[0] == 'p' && "php"@[1] == 'h' && "php"@[2] == 'p',
        "python"@.len() == 6 && "python"@[0] == 'p' && "python"@[1] == 'y'
            && "python"@[2] == 't' && "python"@[3] == 'h' && "python"@[4] == 'o'
            && "python"@[5] == 'n',
        "ruby"@.len() == 4 && "ruby"@[0] == 'r' && "ruby"@[1] == 'u' && "ruby"@[2] == 'b'
            && "ruby"@[3] == 'y',
        "rust"@.len() == 4 && "rust"@[0] == 'r' && "rust"@[1] == 'u' && "rust"@[2] == 's'
            && "rust"@[3] == 't',
        "scala"@.len() == 5 && "scala"@[0] == 's' && "scala"@[1] == 'c' && "scala"@[2] == 'a'
            && "scala"@[3] == 'l' && "scala"@[4] == 'a',
        "swift"@.len() == 5 && "swift"@[0] == 's' && "swift"@[1] == 'w' && "swift"@[2] == 'i'
            && "swift"@[3] == 'f' && "swift"@[4] == 't',
{
    reveal_strlit("bash");
    reveal_strlit("c");
    reveal_strlit("c_sharp");
    reveal_strlit("cpp");
    reveal_strlit("css");
    reveal_strlit("go");
    reveal_strlit("haskell");
    reveal_strlit("hcl");
    reveal_strlit("java");
    reveal_strlit("json");
    reveal_strlit("julia");
    reveal_strlit("ocaml");
    reveal_strlit("php");
    reveal_strlit("python");
    reveal_strlit("ruby");
    reveal_strlit("rust");
    reveal_strlit("scala");
    reveal_strlit("swift");
}

/// No two grammars share an identifier.
pub proof fn lemma_names_distinct()
    ensures
        forall|g: Grammar, h: Grammar| g.name() == h.name() ==> g == h,
{
    reveal_names();
}

/// Each grammar is the one registered under its own identifier.
pub proof fn lemma_provider_of_name(g: Grammar)
    ensures
        provider(g.name()) == Some(g),
{
    lemma_names_distinct();
}

/// Finds the grammar registered under `name`.
pub fn lookup_provider(name: &str) -> (r: Option<Grammar>)
    ensures
        r == provider(name@),
{
    let found = if same_text(name, "bash") {
        Some(Grammar::Bash)
    } else if same_text(name, "c") {
        Some(Grammar::C)
    } else if same_text(name, "c_sharp") {
        Some(Grammar::CSharp)
    } else if same_text(name, "cpp") {
        Some(Grammar::Cpp)
    } else if same_text(name, "css") {
        Some(Grammar::Css)
    } else if same_text(name, "go") {
        Some(Grammar::Go)
    } else if same_text(name, "haskell") {
        Some(Grammar::Haskell)
    } else if same_text(name, "hcl") {
        Some(Grammar::Hcl)
    } else if same_text(name, "java") {
        Some(Grammar::Java)
    } else if same_text(name, "json") {
        Some(Grammar::Json)
    } else if same_text(name, "julia") {
        Some(Grammar::Julia)
    } else if same_text(name, "ocaml") {
        Some(Grammar::Ocaml)
    } else if same_text(name, "php") {
        Some(Grammar::Php)
    } else if same_text(name, "python") {
        Some(Grammar::Python)
    } else if same_text(name, "ruby") {
        Some(Grammar::Ruby)
    } else if same_text(name, "rust") {
        Some(Grammar::Rust)
    } else if same_text(name, "scala") {
        Some(Grammar::Scala)
    } else if same_text(name, "swift") {
        Some(Grammar::Swift)
    } else {
        None
    };
    proof {
        match found {
            Some(g) => {
                assert(g.name() == name@);
                lemma_provider_of_name(g);
            },
            None => {
                assert forall|g: Grammar| g.name() != name@ by {}
            },
        }
    }
    found
}

/// The identifiers of all built-in grammars, in ascending dictionary order
/// and each once. Every call gives the same list.
pub fn supported_languages() -> (r: Vec<&'static str>)
    ensures
        r@.len() == 18,
        views_of(r@) == registry_names(),
        strictly_ascending(views_of(r@)),
        forall|name: Seq<char>| views_of(r@).contains(name) <==> provider(name) is Some,
{
    let mut names: Vec<&'static str> = Vec::new();
    names.push(Grammar::Bash.identifier());
    names.push(Grammar::C.identifier());
    names.push(Grammar::CSharp.identifier());
    names.push(Grammar::Cpp.identifier());
    names.push(Grammar::Css.identifier());
    names.push(Grammar::Go.identifier());
    names.push(Grammar::Haskell.identifier());
    names.push(Grammar::Hcl.identifier());
    names.push(Grammar::Java.identifier());
    names.push(Grammar::Json.identifier());
    names.push(Grammar::Julia.identifier());
    names.push(Grammar::Ocaml.identifier());
    names.push(Grammar::Php.identifier());
    names.push(Grammar::Python.identifier());
    names.push(Grammar::Ruby.identifier());
    names.push(Grammar::Rust.identifier());
    names.push(Grammar::Scala.identifier());
    names.push(Grammar::Swift.identifier());
    proof {
        assert(views_of(names@) =~= registry_names());
        lemma_registry_names_ascending();
        assert forall|name: Seq<char>| registry_names().contains(name) <==> provider(
            name,
        ) is Some by {
            lemma_registry_names_complete(name);
        }
    }
    names
}

/// Neighbours in ascending order put the whole sequence in ascending order.
proof fn lemma_neighbours_ascending(names: Seq<Seq<char>>)
    requires
        forall|i: int| 0 <= i < names.len() - 1 ==> precedes(#[trigger] names[i], names[i + 1]),
    ensures
        strictly_ascending(names),
{
    reveal(strictly_ascending);
    assert forall|i: int, j: int| 0 <= i < j < names.len() implies precedes(
        #[trigger] names[i],
        #[trigger] names[j],
    ) by {
        lemma_reaches(names, i, j);
    }
}

proof fn lemma_reaches(names: Seq<Seq<char>>, i: int, j: int)
    requires
        forall|i: int| 0 <= i < names.len() - 1 ==> precedes(#[trigger] names[i], names[i + 1]),
        0 <= i < j < names.len(),
    ensures
        precedes(names[i], names[j]),
    decreases j - i,
{
    if i + 1 < j {
        lemma_reaches(names, i, j - 1);
        assert(precedes(names[j - 1], names[j - 1 + 1]));
        lemma_precedes_transitive(names[i], names[j - 1], names[j]);
    }
}

/// The registry lists its identifiers in strictly ascending dictionary
/// order, so none occurs twice.
pub proof fn lemma_registry_names_ascending()
    ensures
        strictly_ascending(registry_names()),
        forall|i: int, j: int|
            0 <= i < j < registry_names().len() ==> registry_names()[i] != registry_names()[j],
{
    reveal_names();
    let names = registry_names();
    assert(precedes_at(names[0], names[1], 0));
    assert(precedes_at(names[1], names[2], 1));
    assert(precedes_at(names[2], names[3], 1));
    assert(precedes_at(names[3], names[4], 1));
    assert(precedes_at(names[4], names[5], 0));
    assert(precedes_at(names[5], names[6], 0));
    assert(precedes_at(names[6], names[7], 1));
    assert(precedes_at(names[7], names[8], 0));
    assert(precedes_at(names[8], names[9], 1));
    assert(precedes_at(names[9], names[10], 1));
    assert(precedes_at(names[10], names[11], 0));
    assert(precedes_at(names[11], names[12], 0));
    assert(precedes_at(names[12], names[13], 1));
    assert(precedes_at(names[13], names[14], 0));
    assert(precedes_at(names[14], names[15], 2));
    assert(precedes_at(names[15], names[16], 0));
    assert(precedes_at(names[16], names[17], 1));
    assert forall|i: int| 0 <= i < names.len() - 1 implies precedes(
        #[trigger] names[i],
        names[i + 1],
    ) by {
        assert(names.len() == 18);
    }
    lemma_neighbours_ascending(names);
    lemma_ascending_distinct(names);
}

/// The registry lists exactly the identifiers that have a grammar.
pub proof fn lemma_registry_names_complete(name: Seq<char>)
    ensures
        registry_names().contains(name) <==> provider(name) is Some,
{
    let names = registry_names();
    if provider(name) is Some {
        let g = choose|g: Grammar| g.name() == name;
        let i: int = match g {
            Grammar::Bash => 0,
            Grammar::C => 1,
            Grammar::CSharp => 2,
            Grammar::Cpp => 3,
            Grammar::Css => 4,
            Grammar::Go => 5,
            Grammar::Haskell => 6,
            Grammar::Hcl => 7,
            Grammar::Java => 8,
            Grammar::Json => 9,
            Grammar::Julia => 10,
            Grammar::Ocaml => 11,
            Grammar::Php => 12,
            Grammar::Python => 13,
            Grammar::Ruby => 14,
            Grammar::Rust => 15,
            Grammar::Scala => 16,
            Grammar::Swift => 17,
        };
        assert(names[i] == name);
    }
    if names.contains(name) {
        let i = choose|i: int| 0 <= i < names.len() && names[i] == name;
        let g = if i == 0 {
            Grammar::Bash
        } else if i == 1 {
            Grammar::C
        } else if i == 2 {
            Grammar::CSharp
        } else if i == 3 {
            Grammar::Cpp
        } else if i == 4 {
            Grammar::Css
        } else if i == 5 {
            Grammar::Go
        } else if i == 6 {
            Grammar::Haskell
        } else if i == 7 {
            Grammar::Hcl
        } else if i == 8 {
            Grammar::Java
        } else if i == 9 {
            Grammar::Json
        } else if i == 10 {
            Grammar::Julia
        } else if i == 11 {
            Grammar::Ocaml
        } else if i == 12 {
            Grammar::Php
        } else if i == 13 {
            Grammar::Python
        } else if i == 14 {
            Grammar::Ruby
        } else if i == 15 {
            Grammar::Rust
        } else if i == 16 {
            Grammar::Scala
        } else {
            Grammar::Swift
        };
        assert(g.name() == name);
    }
}

/// Constructs the Bash grammar's handle: `tree_sitter::Language::new` on
/// `tree_sitter_bash::LANGUAGE`. Nothing is claimed of the handle.
#[verifier::external_body]
fn bash_language() -> Language {
    Language::new(tree_sitter_bash::LANGUAGE)
}

/// Constructs the C grammar's handle: `tree_sitter::Language::new` on
/// `tree_sitter_c::LANGUAGE`. Nothing is claimed of the handle.
#[verifier::external_body]
fn c_language() -> Language {
    Language::new(tree_sitter_c::LANGUAGE)
}

/// Constructs the C# grammar's handle: `tree_sitter::Language::new` on
/// `tree_sitter_c_sharp::LANGUAGE`. Nothing is claimed of the handle.
#[verifier::external_body]
fn c_sharp_language() -> Language {
    Language::new(tree_sitter_c_sharp::LANGUAGE)
}

/// Constructs the C++ grammar's handle: `tree_sitter::Language::new` on
/// `tree_sitter_cpp::LANGUAGE`. Nothing is claimed of the handle.
#[verifier::external_body]
fn cpp_language() -> Language {
    Language::new(tree_sitter_cpp::LANGUAGE)
}

/// Constructs the CSS grammar's handle: `tree_sitter::Language::new` on
/// `tree_sitter_css::LANGUAGE`. Nothing is claimed of the handle.
#[verifier::external_body]
fn css_language() -> Language {
    Language::new(tree_sitter_css::LANGUAGE)
}

/// Constructs the Go grammar's handle: `tree_sitter::Language::new` on
/// `tree_sitter_go::LANGUAGE`. Nothing is claimed of the handle.
#[verifier::external_body]
fn go_language() -> Language {
    Language::new(tree_sitter_go::LANGUAGE)
}

/// Constructs the Haskell grammar's handle: `tree_sitter::Language::new` on
/// `tree_sitter_haskell::LANGUAGE`. Nothing is claimed of the handle.
#[verifier::external_body]
fn haskell_language() -> Language {
    Language::new(tree_sitter_haskell::LANGUAGE)
}

/// Constructs the HCL grammar's handle: `tree_sitter::Language::new` on
/// `tree_sitter_hcl::LANGUAGE`. Nothing is claimed of the handle.
#[verifier::external_body]
fn hcl_language() -> Language {
    Language::new(tree_sitter_hcl::LANGUAGE)
}

/// Constructs the Java grammar's handle: `tree_sitter::Language::new` on
/// `tree_sitter_java::LANGUAGE`. Nothing is claimed of the handle.
#[verifier::external_body]
fn java_language() -> Language {
    Language::new(tree_sitter_java::LANGUAGE)
}

/// Constructs the JSON grammar's handle: `tree_sitter::Language::new` on
/// `tree_sitter_json::LANGUAGE`. Nothing is claimed of the handle.
#[verifier::external_body]
fn json_language() -> Language {
    Language::new(tree_sitter_json::LANGUAGE)
}

/// Constructs the Julia grammar's handle: `tree_sitter::Language::new` on
/// `tree_sitter_julia::LANGUAGE`. Nothing is claimed of the handle.
#[verifier::external_body]
fn julia_language() -> Language {
    Language::new(tree_sitter_julia::LANGUAGE)
}

/// Constructs the OCaml grammar's handle: `tree_sitter::Language::new` on
/// `tree_sitter_ocaml::LANGUAGE_OCAML`, the grammar of implementation
/// files. Nothing is claimed of the handle.
#[verifier::external_body]
fn ocaml_language() -> Language {
    Language::new(tree_sitter_ocaml::LANGUAGE_OCAML)
}

/// Constructs the PHP grammar's handle: `tree_sitter::Language::new` on
/// `tree_sitter_php::LANGUAGE_PHP`, the grammar of PHP embedded in HTML.
/// Nothing is claimed of the handle.
#[verifier::external_body]
fn php_language() -> Language {
    Language::new(tree_sitter_php::LANGUAGE_PHP)
}

/// Constructs the Python grammar's handle: `tree_sitter::Language::new` on
/// `tree_sitter_python::LANGUAGE`. Nothing is claimed of the handle.
#[verifier::external_body]
fn python_language() -> Language {
    Language::new(tree_sitter_python::LANGUAGE)
}

/// Constructs the Ruby grammar's handle: `tree_sitter::Language::new` on
/// `tree_sitter_ruby::LANGUAGE`. Nothing is claimed of the handle.
#[verifier::external_body]
fn ruby_language() -> Language {
    Language::new(tree_sitter_ruby::LANGUAGE)
}

/// Constructs the Rust grammar's handle: `tree_sitter::Language::new` on
/// `tree_sitter_rust::LANGUAGE`. Nothing is claimed of the handle.
#[verifier::external_body]
fn rust_language() -> Language {
    Language::new(tree_sitter_rust::LANGUAGE)
}

/// Constructs the Scala grammar's handle: `tree_sitter::Language::new` on
/// `tree_sitter_scala::LANGUAGE`. Nothing is claimed of the handle.
#[verifier::external_body]
fn scala_language() -> Language {
    Language::new(tree_sitter_scala::LANGUAGE)
}

/// Constructs the Swift grammar's handle: `tree_sitter::Language::new` on
/// `tree_sitter_swift::LANGUAGE`. Nothing is claimed of the handle.
#[verifier::external_body]
fn swift_language() -> Language {
    Language::new(tree_sitter_swift::LANGUAGE)
}

} // verus!
