//! A caller's own table from file extensions to language identifiers.

use vstd::prelude::*;
use crate::text::same_text;

verus! {

/// Extensions that the caller maps to languages of their choice. An entry
/// here is consulted before the built-in table and shadows it; the
/// built-in table itself never changes.
///
/// No extension occurs in two entries.
#[derive(Debug)]
pub struct ExtensionOverrides {
    entries: Vec<(String, String)>,
}

/// Entry `i` of `entries` is the one for `extension`.
spec fn holds_at(entries: Seq<(String, String)>, extension: Seq<char>, i: int) -> bool {
    0 <= i < entries.len() && entries[i].0@ == extension
}

impl View for ExtensionOverrides {
    type V = Map<Seq<char>, Seq<char>>;

    /// The table as a map from extensions to language identifiers.
    closed spec fn view(&self) -> Map<Seq<char>, Seq<char>> {
        entries_map(self.entries@)
    }
}

/// The map that `entries` stand for: each extension that has an entry, to
/// the language of that entry.
spec fn entries_map(entries: Seq<(String, String)>) -> Map<Seq<char>, Seq<char>> {
    Map::new(
        |extension: Seq<char>| exists|i: int| holds_at(entries, extension, i),
        |extension: Seq<char>| entries[choose|i: int| holds_at(entries, extension, i)].1@,
    )
}

/// No extension has two entries.
spec fn unique(entries: Seq<(String, String)>) -> bool {
    forall|i: int, j: int|
        0 <= i < entries.len() && 0 <= j < entries.len() && #[trigger] entries[i].0@
            == #[trigger] entries[j].0@ ==> i == j
}

impl ExtensionOverrides {
    /// What holds of every table: no extension has two entries.
    #[verifier::type_invariant]
    spec fn well_formed(self) -> bool {
        unique(self.entries@)
    }

    /// A table without entries.
    pub fn new() -> (r: ExtensionOverrides)
        ensures
            r@ == Map::<Seq<char>, Seq<char>>::empty(),
    {
        let r = ExtensionOverrides { entries: Vec::new() };
        assert(r@ =~= Map::<Seq<char>, Seq<char>>::empty());
        r
    }

    /// The number of entries.
    pub fn len(&self) -> (n: usize)
        ensures
            n == self@.len(),
            self@.dom().finite(),
    {
        proof {
            use_type_invariant(self);
            lemma_table_len(self.entries@);
        }
        self.entries.len()
    }

    /// The language that the table maps `extension` to, if it maps it.
    pub fn get(&self, extension: &str) -> (r: Option<&str>)
        ensures
            match r {
                Some(language) => self@.contains_key(extension@) && self@[extension@] == language@,
                None => !self@.contains_key(extension@),
            },
    {
        proof {
            use_type_invariant(self);
        }
        match position(&self.entries, extension) {
            Some(i) => Some(self.entries[i].1.as_str()),
            None => None,
        }
    }

    /// Maps `extension` to `language`, in place of what the table mapped it
    /// to before.
    pub fn insert(&mut self, extension: &str, language: &str)
        ensures
            final(self)@ == old(self)@.insert(extension@, language@),
    {
        proof {
            use_type_invariant(&*self);
        }
        let ghost before = self.entries@;
        let entry = (extension.to_owned(), language.to_owned());
        // The entries are edited outside the table and put back complete.
        let mut entries: Vec<(String, String)> = Vec::new();
        core::mem::swap(&mut self.entries, &mut entries);
        match position(&entries, extension) {
            Some(i) => {
                entries.set(i, entry);
                proof {
                    lemma_replaced(before, i as int, entries@[i as int]);
                }
            },
            None => {
                entries.push(entry);
                proof {
                    lemma_appended(before, entries@[before.len() as int]);
                }
            },
        }
        core::mem::swap(&mut self.entries, &mut entries);
    }
}

/// Finds the entry for `extension`.
fn position(entries: &Vec<(String, String)>, extension: &str) -> (r: Option<usize>)
    ensures
        match r {
            Some(i) => holds_at(entries@, extension@, i as int),
            None => forall|i: int| !holds_at(entries@, extension@, i),
        },
{
    let mut i: usize = 0;
    while i < entries.len()
        invariant
            i <= entries.len(),
            forall|j: int| 0 <= j < i ==> !holds_at(entries@, extension@, j),
        decreases entries.len() - i,
    {
        if same_text(entries[i].0.as_str(), extension) {
            return Some(i);
        }
        i += 1;
    }
    None
}

/// Replacing the entry for an extension by another for the same extension
/// keeps the entries unique and changes the table at that extension alone.
proof fn lemma_replaced(entries: Seq<(String, String)>, at: int, entry: (String, String))
    requires
        unique(entries),
        0 <= at < entries.len(),
        entries[at].0@ == entry.0@,
    ensures
        unique(entries.update(at, entry)),
        entries_map(entries.update(at, entry)) == entries_map(entries).insert(entry.0@, entry.1@),
{
    let after = entries.update(at, entry);
    assert forall|i: int, j: int|
        0 <= i < after.len() && 0 <= j < after.len() && #[trigger] after[i].0@
            == #[trigger] after[j].0@ implies i == j by {
        assert(after[i].0@ == entries[i].0@);
        assert(after[j].0@ == entries[j].0@);
    }
    assert forall|extension: Seq<char>, i: int|
        holds_at(after, extension, i) == holds_at(entries, extension, i) by {
        if 0 <= i < entries.len() {
            assert(after[i].0@ == entries[i].0@);
        }
    }
    let expected = entries_map(entries).insert(entry.0@, entry.1@);
    assert forall|extension: Seq<char>| #[trigger]
        entries_map(after).contains_key(extension) implies entries_map(after)[extension]
        == expected[extension] by {
        let i = choose|i: int| holds_at(after, extension, i);
        assert(holds_at(entries, extension, i));
        let j = choose|j: int| holds_at(entries, extension, j);
        assert(i == j);
        if extension == entry.0@ {
            assert(holds_at(entries, extension, at));
            assert(i == at);
        }
    }
    assert(holds_at(entries, entry.0@, at));
    assert(entries_map(after) =~= expected);
}

/// Appending an entry for an extension that has none keeps the entries
/// unique and adds that entry to the table.
proof fn lemma_appended(entries: Seq<(String, String)>, entry: (String, String))
    requires
        unique(entries),
        forall|i: int| 0 <= i < entries.len() ==> !holds_at(entries, entry.0@, i),
    ensures
        unique(entries.push(entry)),
        entries_map(entries.push(entry)) == entries_map(entries).insert(entry.0@, entry.1@),
{
    let after = entries.push(entry);
    let last = entries.len() as int;
    assert forall|i: int, j: int|
        0 <= i < after.len() && 0 <= j < after.len() && #[trigger] after[i].0@
            == #[trigger] after[j].0@ implies i == j by {
        if i < last {
            assert(after[i] == entries[i]);
            assert(holds_at(entries, after[i].0@, i));
        }
        if j < last {
            assert(after[j] == entries[j]);
            assert(holds_at(entries, after[j].0@, j));
        }
    }
    let expected = entries_map(entries).insert(entry.0@, entry.1@);
    assert(holds_at(after, entry.0@, last));
    assert forall|extension: Seq<char>|
        entries_map(after).contains_key(extension) == expected.contains_key(extension) by {
        if entries_map(after).contains_key(extension) {
            let i = choose|i: int| holds_at(after, extension, i);
            if i < last {
                assert(holds_at(entries, extension, i));
            }
        }
        if entries_map(entries).contains_key(extension) {
            let i = choose|i: int| holds_at(entries, extension, i);
            assert(holds_at(after, extension, i));
        }
    }
    assert forall|extension: Seq<char>| #[trigger]
        entries_map(after).contains_key(extension) implies entries_map(after)[extension]
        == expected[extension] by {
        let i = choose|i: int| holds_at(after, extension, i);
        if extension == entry.0@ {
            assert(i == last);
        } else {
            assert(holds_at(entries, extension, i));
            let j = choose|j: int| holds_at(entries, extension, j);
            assert(i == j);
        }
    }
    assert(entries_map(after) =~= expected);
}

/// A table has as many extensions as it has entries.
proof fn lemma_table_len(entries: Seq<(String, String)>)
    requires
        unique(entries),
    ensures
        entries_map(entries).dom().finite(),
        entries_map(entries).len() == entries.len(),
    decreases entries.len(),
{
    if entries.len() == 0 {
        assert(entries_map(entries) =~= Map::<Seq<char>, Seq<char>>::empty());
    } else {
        let rest = entries.drop_last();
        let entry = entries.last();
        assert forall|i: int, j: int|
            0 <= i < rest.len() && 0 <= j < rest.len() && #[trigger] rest[i].0@
                == #[trigger] rest[j].0@ implies i == j by {
            assert(rest[i] == entries[i]);
            assert(rest[j] == entries[j]);
        }
        assert forall|i: int| 0 <= i < rest.len() implies !holds_at(rest, entry.0@, i) by {
            assert(rest[i] == entries[i]);
        }
        lemma_table_len(rest);
        lemma_appended(rest, entry);
        assert(rest.push(entry) =~= entries);
        assert(!entries_map(rest).contains_key(entry.0@)) by {
            if entries_map(rest).contains_key(entry.0@) {
                let i = choose|i: int| holds_at(rest, entry.0@, i);
                assert(!holds_at(rest, entry.0@, i));
            }
        }
    }
}

} // verus!
