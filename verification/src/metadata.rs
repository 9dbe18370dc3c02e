//! Key-value metadata of the remote server, as its `serverinfo` answer gives
//! it: every key stands alone or has one text value.

use vstd::prelude::*;

verus! {

/// What a [`Metadata`] holds: for each key that is present, its value, or
/// `None` where the key stood without one.
pub type MetadataView = Map<Seq<char>, Option<Seq<char>>>;

/// The view of a value that may be missing.
pub open spec fn value_view(value: Option<String>) -> Option<Seq<char>> {
    match value {
        Some(text) => Some(text@),
        None => None,
    }
}

/// The views of a list of lines, in order.
pub open spec fn line_views(lines: Seq<String>) -> Seq<Seq<char>> {
    lines.map_values(|line: String| line@)
}

/// A list of entries read as a map: an entry binds its key, and a later entry
/// replaces an earlier one with the same key.
pub open spec fn entries_map(entries: Seq<(String, Option<String>)>) -> MetadataView
    decreases entries.len(),
{
    if entries.len() == 0 {
        Map::empty()
    } else {
        entries_map(entries.drop_last()).insert(entries.last().0@, value_view(entries.last().1))
    }
}

/// The text that a key stands for: its value, or the empty text where the key
/// is present without a value.
pub open spec fn text_of(metadata: MetadataView, key: Seq<char>) -> Seq<char> {
    match metadata[key] {
        Some(text) => text,
        None => Seq::empty(),
    }
}

/// The map that the query library's line parser reads out of the lines of one
/// answer, with or without unescaping the values.
pub uninterp spec fn parsed_entries(lines: Seq<Seq<char>>, unescape: bool) -> MetadataView;

/// Calls `ts3_query::raw::parse_hashmap` and hands its entries out as a list.
///
/// Trusted: the entries, read as a map, are what the parser makes of these
/// lines and this flag. The parser returns a hash map, so no key occurs twice
/// in the list; the order of the list is left open.
#[verifier::external_body]
fn parse_hashmap(lines: Vec<String>, unescape: bool) -> (entries: Vec<(String, Option<String>)>)
    ensures
        entries_map(entries@) == parsed_entries(line_views(lines@), unescape),
{
    ts3_query::raw::parse_hashmap(lines, unescape).into_iter().collect()
}

/// Key-value metadata of the remote server.
pub struct Metadata {
    entries: Vec<(String, Option<String>)>,
}

impl View for Metadata {
    type V = MetadataView;

    closed spec fn view(&self) -> MetadataView {
        entries_map(self.entries@)
    }
}

impl Metadata {
    /// Metadata without any key.
    pub fn new() -> (metadata: Metadata)
        ensures
            metadata@ == Map::<Seq<char>, Option<Seq<char>>>::empty(),
    {
        Metadata { entries: Vec::new() }
    }

    /// Binds `key` to `value`, in place of what it was bound to before.
    pub fn insert(&mut self, key: String, value: Option<String>)
        ensures
            final(self)@ == old(self)@.insert(key@, value_view(value)),
    {
        self.entries.push((key, value));
        assert(self.entries@.drop_last() =~= old(self).entries@);
    }

    /// Reads the lines of a `serverinfo` answer, unescaping every value.
    pub fn parse(lines: Vec<String>) -> (metadata: Metadata)
        ensures
            metadata@ == parsed_entries(line_views(lines@), true),
    {
        Metadata { entries: parse_hashmap(lines, true) }
    }

    /// Looks a key up.
    pub fn get(&self, key: &str) -> (found: Option<&Option<String>>)
        ensures
            match found {
                Some(value) => self@.contains_key(key@) && self@[key@] == value_view(*value),
                None => !self@.contains_key(key@),
            },
    {
        let wanted: String = key.to_owned();
        let mut i: usize = self.entries.len();
        proof {
            assert(self.entries@.take(i as int) =~= self.entries@);
        }
        while i > 0
            invariant
                i <= self.entries.len(),
                wanted@ == key@,
                self@.contains_key(key@) <==> entries_map(
                    self.entries@.take(i as int),
                ).contains_key(key@),
                self@.contains_key(key@) ==> self@[key@] == entries_map(
                    self.entries@.take(i as int),
                )[key@],
            decreases i,
        {
            proof {
                assert(self.entries@.take(i as int).drop_last() =~= self.entries@.take(i - 1));
            }
            i -= 1;
            if self.entries[i].0 == wanted {
                return Some(&self.entries[i].1);
            }
        }
        None
    }

    /// Whether a key is present, with or without a value.
    pub fn contains_key(&self, key: &str) -> (present: bool)
        ensures
            present == self@.contains_key(key@),
    {
        self.get(key).is_some()
    }

    /// The text that a present key stands for: its value, or the empty text
    /// where it has none.
    pub fn text(&self, key: &str) -> (text: String)
        requires
            self@.contains_key(key@),
        ensures
            text@ == text_of(self@, key@),
    {
        match self.get(key) {
            Some(Some(value)) => value.clone(),
            _ => String::new(),
        }
    }
}

} // verus!
