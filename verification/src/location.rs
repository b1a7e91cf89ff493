//! In-game locations. A [`Location`] stores the narrative data of one place:
//! its identifier, its display name, and lists of text paragraphs keyed by a
//! section name. Loading a location from disk is the caller's concern; this
//! module owns the data and the keyed paragraph lookup.

use vstd::prelude::*;

use crate::text::str_eq;

verus! {

/// A given location within the game.
///
/// `text` maps a section key to the ordered paragraphs of that section. A key
/// is looked up by its first occurrence, so entries with distinct keys behave
/// exactly as a map.
#[derive(Debug, Clone, PartialEq, Eq)]
pub struct Location {
    pub id: String,
    pub name: String,
    pub text: Vec<(String, Vec<String>)>,
}

/// The paragraph list of the first entry of `entries` whose key reads `key`,
/// if any.
pub open spec fn find_section(entries: Seq<(String, Vec<String>)>, key: Seq<char>) -> Option<
    Vec<String>,
>
    decreases entries.len(),
{
    if entries.len() == 0 {
        None
    } else if entries[0].0@ == key {
        Some(entries[0].1)
    } else {
        find_section(entries.skip(1), key)
    }
}

/// Whether some entry of `entries` has a key reading `key`.
pub open spec fn has_section(entries: Seq<(String, Vec<String>)>, key: Seq<char>) -> bool {
    exists|i: int| 0 <= i < entries.len() && #[trigger] entries[i].0@ == key
}

/// `find_section` finds exactly the keys that occur: it returns the paragraph
/// list of the first entry carrying the key, and `None` only when no entry
/// carries it.
pub proof fn lemma_find_section_first(entries: Seq<(String, Vec<String>)>, key: Seq<char>, i: int)
    requires
        0 <= i < entries.len(),
        entries[i].0@ == key,
        forall|j: int| 0 <= j < i ==> #[trigger] entries[j].0@ != key,
    ensures
        find_section(entries, key) == Some(entries[i].1),
    decreases i,
{
    if i == 0 {
    } else {
        assert(entries.skip(1)[i - 1] == entries[i]);
        assert forall|j: int| 0 <= j < i - 1 implies #[trigger] entries.skip(1)[j].0@ != key by {
            assert(entries.skip(1)[j] == entries[j + 1]);
        }
        lemma_find_section_first(entries.skip(1), key, i - 1);
    }
}

/// `find_section` returns `None` when no entry carries the key.
pub proof fn lemma_find_section_none(entries: Seq<(String, Vec<String>)>, key: Seq<char>)
    requires
        !has_section(entries, key),
    ensures
        find_section(entries, key) is None,
    decreases entries.len(),
{
    if entries.len() > 0 {
        assert(entries[0].0@ != key);
        assert forall|j: int| 0 <= j < entries.skip(1).len() implies #[trigger] entries.skip(
            1,
        )[j].0@ != key by {
            assert(entries.skip(1)[j] == entries[j + 1]);
        }
        lemma_find_section_none(entries.skip(1), key);
    }
}

impl Location {
    /// Get a paragraph of text from the section with the given `key`: the
    /// paragraph at `paragraph_index` of the first entry whose key reads
    /// `key`, or `None` when no entry carries the key or the index is out of
    /// range.
    pub fn paragraph(&self, key: &str, paragraph_index: usize) -> (r: Option<String>)
        ensures
            match find_section(self.text@, key@) {
                Some(paragraphs) => {
                    if paragraph_index < paragraphs@.len() {
                        r matches Some(p) && p@ == paragraphs@[paragraph_index as int]@
                    } else {
                        r is None
                    }
                },
                None => r is None,
            },
    {
        let n = self.text.len();
        for i in 0..n
            invariant
                n == self.text@.len(),
                forall|j: int| 0 <= j < i ==> #[trigger] self.text@[j].0@ != key@,
        {
            let entry = &self.text[i];
            if str_eq(entry.0.as_str(), key) {
                proof {
                    lemma_find_section_first(self.text@, key@, i as int);
                }
                let paragraphs = &entry.1;
                if paragraph_index < paragraphs.len() {
                    return Some(paragraphs[paragraph_index].clone());
                } else {
                    return None;
                }
            }
        }
        proof {
            lemma_find_section_none(self.text@, key@);
        }
        None
    }
}

} // verus!
