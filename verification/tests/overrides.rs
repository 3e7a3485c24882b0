use langparse::ExtensionOverrides;

#[test]
fn a_new_table_is_empty() {
    let table = ExtensionOverrides::new();
    assert_eq!(table.len(), 0);
    assert_eq!(table.get("rs"), None);
    assert_eq!(table.get(""), None);
}

#[test]
fn insert_adds_an_entry() {
    let mut table = ExtensionOverrides::new();
    table.insert("txt", "python");
    assert_eq!(table.len(), 1);
    assert_eq!(table.get("txt"), Some("python"));
    assert_eq!(table.get("tx"), None);
    assert_eq!(table.get("TXT"), None);
}

#[test]
fn insert_replaces_the_entry_of_an_extension() {
    let mut table = ExtensionOverrides::new();
    table.insert("txt", "python");
    table.insert("md", "json");
    table.insert("txt", "rust");
    assert_eq!(table.len(), 2);
    assert_eq!(table.get("txt"), Some("rust"));
    assert_eq!(table.get("md"), Some("json"));
    table.insert("md", "json");
    assert_eq!(table.len(), 2);
    assert_eq!(table.get("md"), Some("json"));
}

#[test]
fn entries_do_not_disturb_one_another() {
    let mut table = ExtensionOverrides::new();
    let entries = [("a", "bash"), ("b", "c"), ("c", "cpp"), ("", "go"), ("ä", "hcl")];
    for (extension, language) in entries {
        table.insert(extension, language);
    }
    assert_eq!(table.len(), entries.len());
    for (extension, language) in entries {
        assert_eq!(table.get(extension), Some(language));
    }
    assert_eq!(table.get("d"), None);
}
