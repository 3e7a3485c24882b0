//! File extensions: how a path yields one, and which language each stands
//! for by default.

use vstd::prelude::*;
use vstd::string::StrSliceExecFns;
use crate::registry::Grammar;
use crate::text::{chars_of, same_text};

verus! {

/// The built-in table from file extensions to grammars. Extensions are
/// matched exactly, and the table spells them in lower case.
pub open spec fn default_extensions() -> Map<Seq<char>, Grammar> {
    map![
        "hs"@ => Grammar::Haskell,
        "rs"@ => Grammar::Rust,
        "go"@ => Grammar::Go,
        "c"@ => Grammar::C,
        "cc"@ => Grammar::Cpp,
        "cpp"@ => Grammar::Cpp,
        "cs"@ => Grammar::CSharp,
        "java"@ => Grammar::Java,
        "py"@ => Grammar::Python,
        "css"@ => Grammar::Css,
        "sh"@ => Grammar::Bash,
        "bash"@ => Grammar::Bash,
        "jl"@ => Grammar::Julia,
        "ml"@ => Grammar::Ocaml,
        "rb"@ => Grammar::Ruby,
        "scala"@ => Grammar::Scala,
        "sc"@ => Grammar::Scala,
        "swift"@ => Grammar::Swift,
        "php"@ => Grammar::Php,
        "json"@ => Grammar::Json,
        "hcl"@ => Grammar::Hcl,
    ]
}

/// What the extensions of the built-in table are, character by character.
proof fn reveal_extensions()
    ensures
        "hs"@.len() == 2 && "hs"@[0] == 'h' && "hs"@[1] == 's',
        "rs"@.len() == 2 && "rs"@[0] == 'r' && "rs"@[1] == 's',
        "go"@.len() == 2 && "go"@[0] == 'g' && "go"@[1] == 'o',
        "c"@.len() == 1 && "c"@[0] == 'c',
        "cc"@.len() == 2 && "cc"@[0] == 'c' && "cc"@[1] == 'c',
        "cpp"@.len() == 3 && "cpp"@[0] == 'c' && "cpp"@[1] == 'p' && "cpp"@[2] == 'p',
        "cs"@.len() == 2 && "cs"@[0] == 'c' && "cs"@[1] == 's',
        "java"@.len() == 4 && "java"@[0] == 'j' && "java"@[1] == 'a' && "java"@[2] == 'v'
            && "java"@[3] == 'a',
        "py"@.len() == 2 && "py"@[0] == 'p' && "py"@[1] == 'y',
        "css"@.len() == 3 && "css"@[0] == 'c' && "css"@[1] == 's' && "css"@[2] == 's',
        "sh"@.len() == 2 && "sh"@[0] == 's' && "sh"@[1] == 'h',
        "bash"@.len() == 4 && "bash"@[0] == 'b' && "bash"@[1] == 'a' && "bash"@[2] == 's'
            && "bash"@[3] == 'h',
        "jl"@.len() == 2 && "jl"@[0] == 'j' && "jl"@[1] == 'l',
        "ml"@.len() == 2 && "ml"@[0] == 'm' && "ml"@[1] == 'l',
        "rb"@.len() == 2 && "rb"@[0] == 'r' && "rb"@[1] == 'b',
        "scala"@.len() == 5 && "scala"@[0] == 's' && "scala"@[1] == 'c' && "scala"@[2] == 'a'
            && "scala"@[3] == 'l' && "scala"@[4] == 'a',
        "sc"@.len() == 2 && "sc"@[0] == 's' && "sc"@[1] == 'c',
        "swift"@.len() == 5 && "swift"@[0] == 's' && "swift"@[1] == 'w' && "swift"@[2] == 'i'
            && "swift"@[3] == 'f' && "swift"@[4] == 't',
        "php"@.len() == 3 && "php"@[0] == 'p' && "php"@[1] == 'h' && "php"@[2] == 'p',
        "json"@.len() == 4 && "json"@[0] == 'j' && "json"@[1] == 's' && "json"@[2] == 'o'
            && "json"@[3] == 'n',
        "hcl"@.len() == 3 && "hcl"@[0] == 'h' && "hcl"@[1] == 'c' && "hcl"@[2] == 'l',
{
    reveal_strlit("hs");
    reveal_strlit("rs");
    reveal_strlit("go");
    reveal_strlit("c");
    reveal_strlit("cc");
    reveal_strlit("cpp");
    reveal_strlit("cs");
    reveal_strlit("java");
    reveal_strlit("py");
    reveal_strlit("css");
    reveal_strlit("sh");
    reveal_strlit("bash");
    reveal_strlit("jl");
    reveal_strlit("ml");
    reveal_strlit("rb");
    reveal_strlit("scala");
    reveal_strlit("sc");
    reveal_strlit("swift");
    reveal_strlit("php");
    reveal_strlit("json");
    reveal_strlit("hcl");
}

/// The entries of the built-in table, one by one. They are 21, so none is
/// shadowed by another.
pub proof fn lemma_default_entries()
    ensures
        default_extensions().get("hs"@) == Some(Grammar::Haskell),
        default_extensions().get("rs"@) == Some(Grammar::Rust),
        default_extensions().get("go"@) == Some(Grammar::Go),
        default_extensions().get("c"@) == Some(Grammar::C),
        default_extensions().get("cc"@) == Some(Grammar::Cpp),
        default_extensions().get("cpp"@) == Some(Grammar::Cpp),
        default_extensions().get("cs"@) == Some(Grammar::CSharp),
        default_extensions().get("java"@) == Some(Grammar::Java),
        default_extensions().get("py"@) == Some(Grammar::Python),
        default_extensions().get("css"@) == Some(Grammar::Css),
        default_extensions().get("sh"@) == Some(Grammar::Bash),
        default_extensions().get("bash"@) == Some(Grammar::Bash),
        default_extensions().get("jl"@) == Some(Grammar::Julia),
        default_extensions().get("ml"@) == Some(Grammar::Ocaml),
        default_extensions().get("rb"@) == Some(Grammar::Ruby),
        default_extensions().get("scala"@) == Some(Grammar::Scala),
        default_extensions().get("sc"@) == Some(Grammar::Scala),
        default_extensions().get("swift"@) == Some(Grammar::Swift),
        default_extensions().get("php"@) == Some(Grammar::Php),
        default_extensions().get("json"@) == Some(Grammar::Json),
        default_extensions().get("hcl"@) == Some(Grammar::Hcl),
        default_extensions().dom().finite(),
        default_extensions().len() == 21,
{
    reveal_extensions();
}

/// Looks `extension` up in the built-in table.
pub fn default_grammar(extension: &str) -> (r: Option<Grammar>)
    ensures
        r == default_extensions().get(extension@),
{
    proof {
        reveal_extensions();
    }
    if same_text(extension, "hs") {
        Some(Grammar::Haskell)
    } else if same_text(extension, "rs") {
        Some(Grammar::Rust)
    } else if same_text(extension, "go") {
        Some(Grammar::Go)
    } else if same_text(extension, "c") {
        Some(Grammar::C)
    } else if same_text(extension, "cc") {
        Some(Grammar::Cpp)
    } else if same_text(extension, "cpp") {
        Some(Grammar::Cpp)
    } else if same_text(extension, "cs") {
        Some(Grammar::CSharp)
    } else if same_text(extension, "java") {
        Some(Grammar::Java)
    } else if same_text(extension, "py") {
        Some(Grammar::Python)
    } else if same_text(extension, "css") {
        Some(Grammar::Css)
    } else if same_text(extension, "sh") {
        Some(Grammar::Bash)
    } else if same_text(extension, "bash") {
        Some(Grammar::Bash)
    } else if same_text(extension, "jl") {
        Some(Grammar::Julia)
    } else if same_text(extension, "ml") {
        Some(Grammar::Ocaml)
    } else if same_text(extension, "rb") {
        Some(Grammar::Ruby)
    } else if same_text(extension, "scala") {
        Some(Grammar::Scala)
    } else if same_text(extension, "sc") {
        Some(Grammar::Scala)
    } else if same_text(extension, "swift") {
        Some(Grammar::Swift)
    } else if same_text(extension, "php") {
        Some(Grammar::Php)
    } else if same_text(extension, "json") {
        Some(Grammar::Json)
    } else if same_text(extension, "hcl") {
        Some(Grammar::Hcl)
    } else {
        None
    }
}

/// The index of the last `c` in `s`, or -1 if `s` holds none.
pub open spec fn last_index_of(s: Seq<char>, c: char) -> int
    decreases s.len(),
{
    if s.len() == 0 {
        -1
    } else if s.last() == c {
        s.len() - 1
    } else {
        last_index_of(s.drop_last(), c)
    }
}

/// The final component of a path: what follows its last `/`, or the whole
/// path if it holds none.
pub open spec fn file_name(path: Seq<char>) -> Seq<char> {
    path.subrange(last_index_of(path, '/') + 1, path.len() as int)
}

/// The extension of a path: what follows the last `.` of its final
/// component. There is none if the component holds no `.`, if its only `.`
/// comes first (a hidden file), or if the component is `..`.
pub open spec fn extension_of(path: Seq<char>) -> Option<Seq<char>> {
    let name = file_name(path);
    let dot = last_index_of(name, '.');
    if dot <= 0 || name == seq!['.', '.'] {
        None
    } else {
        Some(name.subrange(dot + 1, name.len() as int))
    }
}

/// What `last_index_of` finds is in range, holds `c`, and has no `c` after it.
pub proof fn lemma_last_index_of(s: Seq<char>, c: char)
    ensures
        -1 <= last_index_of(s, c) < s.len(),
        last_index_of(s, c) >= 0 ==> s[last_index_of(s, c)] == c,
        forall|i: int| last_index_of(s, c) < i < s.len() ==> s[i] != c,
    decreases s.len(),
{
    if s.len() > 0 && s.last() != c {
        let rest = s.drop_last();
        lemma_last_index_of(rest, c);
        assert forall|i: int| last_index_of(s, c) < i < s.len() implies s[i] != c by {
            if i < rest.len() {
                assert(rest[i] == s[i]);
            }
        }
    }
}

/// An index that holds `c` and has no `c` after it is the one that
/// `last_index_of` finds; where no index holds `c`, it finds -1.
pub proof fn lemma_last_index_is(s: Seq<char>, c: char, k: int)
    requires
        -1 <= k < s.len(),
        k >= 0 ==> s[k] == c,
        forall|i: int| k < i < s.len() ==> s[i] != c,
    ensures
        last_index_of(s, c) == k,
{
    lemma_last_index_of(s, c);
}

/// A path whose final component holds no `.` has no extension.
pub proof fn lemma_no_dot_no_extension(path: Seq<char>)
    requires
        !file_name(path).contains('.'),
    ensures
        extension_of(path) is None,
{
    let name = file_name(path);
    lemma_last_index_of(name, '.');
    if last_index_of(name, '.') >= 0 {
        assert(name.contains(name[last_index_of(name, '.')]));
    }
}

/// The extension of a path holds no `.` and no `/`, and the path ends in a
/// `.` followed by the extension.
pub proof fn lemma_extension_is_suffix(path: Seq<char>)
    requires
        extension_of(path) is Some,
    ensures
        !extension_of(path)->0.contains('.'),
        !extension_of(path)->0.contains('/'),
        path.len() > extension_of(path)->0.len(),
        path.subrange(path.len() - extension_of(path)->0.len() - 1, path.len() as int) == seq![
            '.',
        ] + extension_of(path)->0,
{
    let name = file_name(path);
    let start = last_index_of(path, '/') + 1;
    let dot = last_index_of(name, '.');
    let extension = extension_of(path)->0;
    lemma_last_index_of(path, '/');
    lemma_last_index_of(name, '.');
    assert forall|i: int| 0 <= i < extension.len() implies extension[i] != '.' && extension[i]
        != '/' by {
        assert(extension[i] == name[dot + 1 + i]);
        assert(name[dot + 1 + i] == path[start + dot + 1 + i]);
    }
    assert(name[dot] == path[start + dot]);
    assert(path.subrange(path.len() - extension.len() - 1, path.len() as int) =~= seq!['.']
        + extension);
}

/// Derives the extension of the file at `path`.
pub fn file_extension(path: &str) -> (r: Option<String>)
    ensures
        match extension_of(path@) {
            Some(extension) => r matches Some(found) && found@ == extension,
            None => r is None,
        },
{
    let chars = chars_of(path);
    let n = chars.len();
    // The final component starts after the last separator.
    let mut start: usize = 0;
    let mut i: usize = 0;
    while i < n
        invariant
            n == chars.len(),
            start <= i <= n,
            start == 0 || chars@[start - 1] == '/',
            forall|j: int| start <= j < i ==> chars@[j] != '/',
        decreases n - i,
    {
        if chars[i] == '/' {
            start = i + 1;
        }
        i += 1;
    }
    proof {
        lemma_last_index_is(chars@, '/', start as int - 1);
    }
    let ghost name = chars@.subrange(start as int, n as int);
    assert(name == file_name(path@));
    // Its last dot, if it has one.
    let mut found = false;
    let mut dot: usize = start;
    let mut j: usize = start;
    while j < n
        invariant
            n == chars.len(),
            start <= dot <= j <= n,
            name == chars@.subrange(start as int, n as int),
            found ==> dot < j && chars@[dot as int] == '.',
            forall|k: int|
                (if found { dot as int } else { start as int - 1 }) < k < j ==> chars@[k] != '.',
        decreases n - j,
    {
        if chars[j] == '.' {
            found = true;
            dot = j;
        }
        j += 1;
    }
    proof {
        let at = if found { dot as int - start as int } else { -1 };
        lemma_last_index_is(name, '.', at);
    }
    if !found || dot == start {
        return None;
    }
    if n - start == 2 && chars[start] == '.' {
        assert(name =~= seq!['.', '.']);
        return None;
    }
    assert(name != seq!['.', '.']) by {
        if name == seq!['.', '.'] {
            assert(name.len() == 2);
            assert(name[0] == '.');
        }
    }
    let extension = path.substring_char(dot + 1, n);
    assert(extension@ =~= name.subrange(dot as int - start as int + 1, name.len() as int));
    Some(extension.to_owned())
}

} // verus!
