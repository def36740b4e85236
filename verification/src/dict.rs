//! The immutable dictionary: a key-to-content mapping loaded once at
//! startup and read-only for the life of the process.

use vstd::prelude::*;
use crate::kv::find_key_index;
use crate::kv::has_key;
use crate::kv::keys_unique;
use crate::kv::lemma_pairs_map_domain;
use crate::kv::lemma_pairs_map_value;
use crate::kv::pairs_map;

verus! {

pub struct Dictionary {
    entries: Vec<(String, String)>,
}

impl View for Dictionary {
    type V = Map<Seq<char>, Seq<char>>;

    closed spec fn view(&self) -> Map<Seq<char>, Seq<char>> {
        pairs_map(self.entries@)
    }
}

impl Dictionary {
    pub closed spec fn wf(&self) -> bool {
        keys_unique(self.entries@)
    }

    /// Builds a dictionary from a list of entries; on a repeated key the
    /// earliest entry wins.
    pub fn from_entries(entries: Vec<(String, String)>) -> (d: Dictionary)
        ensures
            d.wf(),
            forall|k: Seq<char>| #[trigger] d@.contains_key(k) <==> has_key(entries@, k),
            keys_unique(entries@) ==> d@ == pairs_map(entries@),
    {
        let kept = crate::kv::dedup_first(entries);
        proof {
            assert forall|k: Seq<char>|
                #[trigger] pairs_map(kept@).contains_key(k) <==> has_key(entries@, k) by {
                lemma_pairs_map_domain(kept@, k);
            }
        }
        Dictionary { entries: kept }
    }

    /// The content stored under `key`, if any.
    pub fn lookup(&self, key: &str) -> (r: Option<String>)
        requires
            self.wf(),
        ensures
            match r {
                Some(v) => self@.contains_key(key@) && v@ == self@[key@],
                None => !self@.contains_key(key@),
            },
    {
        match find_key_index(&self.entries, key) {
            Some(i) => {
                proof {
                    lemma_pairs_map_value(self.entries@, i as int);
                }
                Some(self.entries[i].1.clone())
            },
            None => {
                proof {
                    lemma_pairs_map_domain(self.entries@, key@);
                }
                None
            },
        }
    }

    /// Whether `key` is a dictionary key.
    pub fn contains(&self, key: &str) -> (r: bool)
        requires
            self.wf(),
        ensures
            r == self@.contains_key(key@),
    {
        match self.lookup(key) {
            Some(_) => true,
            None => false,
        }
    }
}

/// What parsing a JSON object of string keys and string values yields.
pub uninterp spec fn json_string_map(text: Seq<char>) -> Option<Map<Seq<char>, Seq<char>>>;

/// Relies on `serde_json::from_str::<HashMap<String, String>>`: it succeeds
/// exactly on a JSON object whose values are all strings, and both success
/// and the resulting key-value pairs depend on the text alone.
#[verifier::external_body]
fn parse_json_entries(text: &str) -> (r: Option<Vec<(String, String)>>)
    ensures
        (r is Some) == (json_string_map(text@) is Some),
        r matches Some(v) ==> keys_unique(v@) && json_string_map(text@) == Some(pairs_map(v@)),
{
    match serde_json::from_str::<std::collections::HashMap<String, String>>(text) {
        Ok(m) => Some(m.into_iter().collect()),
        Err(_) => None,
    }
}

/// Loads the dictionary from its JSON source text; `None` means the source
/// is malformed and the process has no safe way to continue.
pub fn dictionary_from_json(text: &str) -> (r: Option<Dictionary>)
    ensures
        (r is Some) == (json_string_map(text@) is Some),
        r matches Some(d) ==> d.wf() && json_string_map(text@) == Some(d@),
{
    match parse_json_entries(text) {
        Some(entries) => Some(Dictionary::from_entries(entries)),
        None => None,
    }
}

} // verus!
