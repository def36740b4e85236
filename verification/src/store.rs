//! The mutable alias store: a unique-key mapping from alias names to
//! dictionary keys. The process shares one store across all concurrently
//! handled messages; the embedder must give each operation exclusive
//! access for its duration (a mutex held per call), which serializes
//! competing mutations.

use vstd::prelude::*;
use crate::kv::find_key_index;
use crate::kv::has_key;
use crate::kv::keys_unique;
use crate::kv::lemma_pairs_map_domain;
use crate::kv::lemma_pairs_map_push;
use crate::kv::lemma_pairs_map_remove;
use crate::kv::lemma_pairs_map_value;
use crate::kv::pairs_map;
use crate::kv::lemma_pairs_map_views;
use vstd::string::StringExecFns;

verus! {

/// The store an insertion leaves behind: an already-present alias is kept
/// as it is, a new one is added.
pub open spec fn insert_map(m: Map<Seq<char>, Seq<char>>, alias: Seq<char>, target: Seq<char>)
    -> Map<Seq<char>, Seq<char>> {
    if m.contains_key(alias) {
        m
    } else {
        m.insert(alias, target)
    }
}

/// How many rows an insertion affects: none on a duplicate, one otherwise.
pub open spec fn insert_count(m: Map<Seq<char>, Seq<char>>, alias: Seq<char>) -> int {
    if m.contains_key(alias) {
        0
    } else {
        1
    }
}

pub struct AliasStore {
    entries: Vec<(String, String)>,
}

impl View for AliasStore {
    type V = Map<Seq<char>, Seq<char>>;

    closed spec fn view(&self) -> Map<Seq<char>, Seq<char>> {
        pairs_map(self.entries@)
    }
}

impl AliasStore {
    pub closed spec fn wf(&self) -> bool {
        keys_unique(self.entries@)
    }

    /// An empty store.
    pub fn new() -> (s: AliasStore)
        ensures
            s.wf(),
            s@ == Map::<Seq<char>, Seq<char>>::empty(),
    {
        AliasStore { entries: Vec::new() }
    }

    /// Rebuilds a store from persisted rows; on a repeated alias the
    /// earliest row wins.
    pub fn from_entries(rows: Vec<(String, String)>) -> (s: AliasStore)
        ensures
            s.wf(),
            forall|k: Seq<char>| #[trigger] s@.contains_key(k) <==> has_key(rows@, k),
            keys_unique(rows@) ==> s@ == pairs_map(rows@),
    {
        let kept = crate::kv::dedup_first(rows);
        proof {
            assert forall|k: Seq<char>|
                #[trigger] pairs_map(kept@).contains_key(k) <==> has_key(rows@, k) by {
                lemma_pairs_map_domain(kept@, k);
            }
        }
        AliasStore { entries: kept }
    }

    /// The target `alias` maps to, if any.
    pub fn resolve(&self, alias: &str) -> (r: Option<String>)
        requires
            self.wf(),
        ensures
            match r {
                Some(t) => self@.contains_key(alias@) && t@ == self@[alias@],
                None => !self@.contains_key(alias@),
            },
    {
        match find_key_index(&self.entries, alias) {
            Some(i) => {
                proof {
                    lemma_pairs_map_value(self.entries@, i as int);
                }
                Some(self.entries[i].1.clone())
            },
            None => {
                proof {
                    lemma_pairs_map_domain(self.entries@, alias@);
                }
                None
            },
        }
    }

    /// Adds `alias -> target` unless `alias` is already present; returns
    /// the number of rows affected, so a caller tells success (1) from a
    /// duplicate (0).
    pub fn insert(&mut self, alias: &str, target: &str) -> (n: usize)
        requires
            old(self).wf(),
        ensures
            final(self).wf(),
            final(self)@ == insert_map(old(self)@, alias@, target@),
            n == insert_count(old(self)@, alias@),
    {
        proof {
            lemma_pairs_map_domain(self.entries@, alias@);
        }
        match find_key_index(&self.entries, alias) {
            Some(_) => 0,
            None => {
                let pair = (String::from_str(alias), String::from_str(target));
                proof {
                    lemma_pairs_map_push(self.entries@, pair);
                }
                self.entries.push(pair);
                1
            },
        }
    }

    /// Deletes `alias`; returns the number of rows affected, so a caller
    /// tells a removal (1) from an absent alias (0).
    pub fn remove(&mut self, alias: &str) -> (n: usize)
        requires
            old(self).wf(),
        ensures
            final(self).wf(),
            old(self)@.contains_key(alias@) ==> n == 1 && final(self)@ == old(self)@.remove(
                alias@,
            ),
            !old(self)@.contains_key(alias@) ==> n == 0 && final(self)@ == old(self)@,
    {
        proof {
            lemma_pairs_map_domain(self.entries@, alias@);
        }
        match find_key_index(&self.entries, alias) {
            Some(i) => {
                proof {
                    lemma_pairs_map_remove(self.entries@, i as int);
                }
                self.entries.remove(i);
                1
            },
            None => 0,
        }
    }

    /// The rows to persist, one per alias.
    pub fn to_entries(&self) -> (r: Vec<(String, String)>)
        requires
            self.wf(),
        ensures
            keys_unique(r@),
            pairs_map(r@) == self@,
    {
        let mut out: Vec<(String, String)> = Vec::new();
        let mut i: usize = 0;
        while i < self.entries.len()
            invariant
                0 <= i <= self.entries@.len(),
                out@.len() == i,
                forall|j: int| 0 <= j < i ==> out@[j].0@ == self.entries@[j].0@ && out@[j].1@
                    == self.entries@[j].1@,
            decreases self.entries@.len() - i,
        {
            let key = self.entries[i].0.clone();
            let value = self.entries[i].1.clone();
            out.push((key, value));
            i += 1;
        }
        proof {
            lemma_pairs_map_views(out@, self.entries@);
        }
        out
    }
}

/// Adding an alias that is already present changes nothing and affects no
/// row: a repeated `add-alias` reports a duplicate and the store still
/// holds exactly the one earlier mapping.
pub proof fn lemma_duplicate_add(
    m: Map<Seq<char>, Seq<char>>,
    alias: Seq<char>,
    target: Seq<char>,
)
    requires
        !m.contains_key(alias),
    ensures
        ({
            let m1 = insert_map(m, alias, target);
            insert_count(m, alias) == 1 && m1.contains_key(alias) && m1[alias] == target
                && insert_count(m1, alias) == 0 && insert_map(m1, alias, target) == m1
        }),
{
}

/// Two competing insertions of the same alias, serialized in either order
/// by the store's exclusive access, leave exactly one mapping for it: the
/// first one in wins, the later one affects no row and overwrites nothing.
pub proof fn lemma_competing_adds(
    m: Map<Seq<char>, Seq<char>>,
    alias: Seq<char>,
    t1: Seq<char>,
    t2: Seq<char>,
)
    requires
        !m.contains_key(alias),
    ensures
        ({
            let first = insert_map(m, alias, t1);
            insert_count(m, alias) == 1 && insert_count(first, alias) == 0 && insert_map(
                first,
                alias,
                t2,
            ) == first && first[alias] == t1 && first == m.insert(alias, t1)
        }),
        ({
            let first = insert_map(m, alias, t2);
            insert_count(m, alias) == 1 && insert_count(first, alias) == 0 && insert_map(
                first,
                alias,
                t1,
            ) == first && first[alias] == t2 && first == m.insert(alias, t2)
        }),
{
}

} // verus!
