use langparse::extension::file_extension;

fn some(extension: &str) -> Option<String> {
    Some(extension.to_string())
}

#[test]
fn extension_follows_the_last_dot() {
    assert_eq!(file_extension("a.txt"), some("txt"));
    assert_eq!(file_extension("main.rs"), some("rs"));
    assert_eq!(file_extension("archive.tar.gz"), some("gz"));
    assert_eq!(file_extension("a..b"), some("b"));
    assert_eq!(file_extension("x.Y"), some("Y"));
}

#[test]
fn extension_is_taken_from_the_final_component() {
    assert_eq!(file_extension("src/main.rs"), some("rs"));
    assert_eq!(file_extension("/abs/path/to/file.json"), some("json"));
    assert_eq!(file_extension("a.d/b.py"), some("py"));
    assert_eq!(file_extension("./x.c"), some("c"));
    assert_eq!(file_extension("../x.c"), some("c"));
}

#[test]
fn a_name_without_dot_has_no_extension() {
    assert_eq!(file_extension("Makefile"), None);
    assert_eq!(file_extension("src/Makefile"), None);
    assert_eq!(file_extension(""), None);
    assert_eq!(file_extension("/"), None);
}

#[test]
fn a_dot_in_a_directory_does_not_count() {
    assert_eq!(file_extension("dir.rs/README"), None);
    assert_eq!(file_extension("a.b/c.d/e"), None);
    assert_eq!(file_extension("dir.rs/"), None);
}

#[test]
fn a_hidden_file_has_no_extension_of_its_own() {
    assert_eq!(file_extension(".bashrc"), None);
    assert_eq!(file_extension("home/.profile"), None);
    assert_eq!(file_extension(".config.json"), some("json"));
    assert_eq!(file_extension("home/.hidden.txt"), some("txt"));
}

#[test]
fn dots_alone_are_no_extension() {
    assert_eq!(file_extension("."), None);
    assert_eq!(file_extension(".."), None);
    assert_eq!(file_extension("a/.."), None);
    assert_eq!(file_extension("a/."), None);
}

#[test]
fn a_trailing_dot_gives_the_empty_extension() {
    assert_eq!(file_extension("foo."), some(""));
    assert_eq!(file_extension("dir/foo."), some(""));
    assert_eq!(file_extension("..."), some(""));
}

#[test]
fn extension_may_hold_any_characters() {
    assert_eq!(file_extension("résumé.tèxt"), some("tèxt"));
    assert_eq!(file_extension("名前.日本語"), some("日本語"));
    assert_eq!(file_extension("a.b c"), some("b c"));
    assert_eq!(file_extension("dir\\file.rs"), some("rs"));
    assert_eq!(file_extension("a.b\\c"), some("b\\c"));
}
