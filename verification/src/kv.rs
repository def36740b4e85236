//! Association lists of string pairs with unique keys, viewed as a
//! mathematical map. Shared by the dictionary and the alias store.

use vstd::prelude::*;
use vstd::map::*;

verus! {

/// No two entries share a key.
pub open spec fn keys_unique(s: Seq<(String, String)>) -> bool {
    forall|i: int, j: int| 0 <= i < j < s.len() ==> s[i].0@ != s[j].0@
}

/// The map described by an entry list; later entries win on equal keys.
pub open spec fn pairs_map(s: Seq<(String, String)>) -> Map<Seq<char>, Seq<char>>
    decreases s.len(),
{
    if s.len() == 0 {
        Map::empty()
    } else {
        pairs_map(s.drop_last()).insert(s.last().0@, s.last().1@)
    }
}

/// Some entry carries the key `k`.
pub open spec fn has_key(s: Seq<(String, String)>, k: Seq<char>) -> bool {
    exists|i: int| 0 <= i < s.len() && s[i].0@ == k
}

pub proof fn lemma_pairs_map_domain(s: Seq<(String, String)>, k: Seq<char>)
    ensures
        pairs_map(s).contains_key(k) <==> has_key(s, k),
    decreases s.len(),
{
    if s.len() > 0 {
        let t = s.drop_last();
        lemma_pairs_map_domain(t, k);
        if s.last().0@ == k {
            assert(s[s.len() - 1].0@ == k);
        } else {
            if has_key(t, k) {
                let i = choose|i: int| 0 <= i < t.len() && t[i].0@ == k;
                assert(s[i].0@ == k);
            }
            if has_key(s, k) {
                let i = choose|i: int| 0 <= i < s.len() && s[i].0@ == k;
                assert(i < s.len() - 1);
                assert(t[i].0@ == k);
            }
        }
    }
}

pub proof fn lemma_pairs_map_value(s: Seq<(String, String)>, i: int)
    requires
        keys_unique(s),
        0 <= i < s.len(),
    ensures
        pairs_map(s).contains_key(s[i].0@),
        pairs_map(s)[s[i].0@] == s[i].1@,
    decreases s.len(),
{
    let t = s.drop_last();
    if i == s.len() - 1 {
    } else {
        assert(keys_unique(t));
        lemma_pairs_map_value(t, i);
        assert(s.last().0@ != s[i].0@);
    }
}

pub proof fn lemma_pairs_map_push(s: Seq<(String, String)>, p: (String, String))
    ensures
        pairs_map(s.push(p)) == pairs_map(s).insert(p.0@, p.1@),
{
    assert(s.push(p).drop_last() =~= s);
    assert(s.push(p).last() == p);
}

pub proof fn lemma_pairs_map_remove(s: Seq<(String, String)>, i: int)
    requires
        keys_unique(s),
        0 <= i < s.len(),
    ensures
        pairs_map(s.remove(i)) == pairs_map(s).remove(s[i].0@),
    decreases s.len(),
{
    let k = s[i].0@;
    let t = s.drop_last();
    assert(keys_unique(t));
    if i == s.len() - 1 {
        assert(s.remove(i) =~= t);
        lemma_pairs_map_domain(t, k);
        assert(forall|j: int| 0 <= j < t.len() ==> t[j].0@ != k);
        assert(!pairs_map(t).contains_key(k));
        assert_maps_equal!(pairs_map(t).insert(k, s[i].1@).remove(k), pairs_map(t));
    } else {
        lemma_pairs_map_remove(t, i);
        assert(s.remove(i).drop_last() =~= t.remove(i));
        assert(s.remove(i).last() == s.last());
        assert(s.remove(i).len() == s.len() - 1);
        assert(pairs_map(s.remove(i)) == pairs_map(t.remove(i)).insert(
            s.last().0@,
            s.last().1@,
        ));
        assert(s.last().0@ != k);
        assert_maps_equal!(
            pairs_map(t).remove(k).insert(s.last().0@, s.last().1@),
            pairs_map(t).insert(s.last().0@, s.last().1@).remove(k)
        );
    }
}

/// Entry lists equal view-by-view describe the same map.
pub proof fn lemma_pairs_map_views(a: Seq<(String, String)>, b: Seq<(String, String)>)
    requires
        a.len() == b.len(),
        forall|j: int| 0 <= j < a.len() ==> a[j].0@ == b[j].0@ && a[j].1@ == b[j].1@,
    ensures
        pairs_map(a) == pairs_map(b),
        keys_unique(b) ==> keys_unique(a),
    decreases a.len(),
{
    if a.len() > 0 {
        lemma_pairs_map_views(a.drop_last(), b.drop_last());
    }
}

/// Keeps the first entry for each key and drops later repeats.
pub(crate) fn dedup_first(entries: Vec<(String, String)>) -> (kept: Vec<(String, String)>)
    ensures
        keys_unique(kept@),
        forall|k: Seq<char>| #[trigger] has_key(kept@, k) <==> has_key(entries@, k),
        keys_unique(entries@) ==> pairs_map(kept@) == pairs_map(entries@),
{
    let mut kept: Vec<(String, String)> = Vec::new();
    let mut i: usize = 0;
    while i < entries.len()
        invariant
            0 <= i <= entries@.len(),
            keys_unique(kept@),
            forall|k: Seq<char>|
                #[trigger] has_key(kept@, k) <==> has_key(entries@.subrange(0, i as int), k),
            keys_unique(entries@) ==> kept@.len() == i && forall|j: int|
                0 <= j < i ==> kept@[j].0@ == entries@[j].0@ && kept@[j].1@ == entries@[j].1@,
        decreases entries@.len() - i,
    {
        let ghost pre = entries@.subrange(0, i as int);
        let ghost cur = entries@.subrange(0, i + 1);
        let ghost kept0 = kept@;
        proof {
            assert(cur.drop_last() =~= pre);
            assert(cur.last() == entries@[i as int]);
            assert forall|k: Seq<char>| #[trigger] has_key(cur, k) implies has_key(pre, k)
                || entries@[i as int].0@ == k by {
                let j = choose|j: int| 0 <= j < cur.len() && cur[j].0@ == k;
                if j < i {
                    assert(pre[j].0@ == k);
                }
            }
            assert forall|k: Seq<char>| #[trigger] has_key(pre, k) implies has_key(cur, k) by {
                let j = choose|j: int| 0 <= j < pre.len() && pre[j].0@ == k;
                assert(cur[j].0@ == k);
            }
            assert(cur[i as int].0@ == entries@[i as int].0@);
            assert(has_key(cur, entries@[i as int].0@));
        }
        match find_key_index(&kept, entries[i].0.as_str()) {
            Some(_) => {
                proof {
                    if keys_unique(entries@) {
                        let j = choose|j: int|
                            0 <= j < kept0.len() && kept0[j].0@ == entries@[i as int].0@;
                        assert(entries@[j].0@ == entries@[i as int].0@);
                        assert(false);
                    }
                    assert forall|k: Seq<char>| #[trigger] has_key(cur, k) implies has_key(
                        kept0,
                        k,
                    ) by {
                        if !has_key(pre, k) {
                            assert(k == entries@[i as int].0@);
                        }
                    }
                }
            },
            None => {
                let key = entries[i].0.clone();
                let value = entries[i].1.clone();
                kept.push((key, value));
                proof {
                    assert forall|k: Seq<char>| #[trigger] has_key(kept@, k) implies has_key(
                        cur,
                        k,
                    ) by {
                        let j = choose|j: int| 0 <= j < kept@.len() && kept@[j].0@ == k;
                        if j < kept0.len() {
                            assert(kept0[j].0@ == k);
                            assert(has_key(kept0, k));
                            assert(has_key(pre, k));
                        } else {
                            assert(k == entries@[i as int].0@);
                        }
                        assert(has_key(cur, k));
                    }
                    assert forall|k: Seq<char>| #[trigger] has_key(cur, k) implies has_key(
                        kept@,
                        k,
                    ) by {
                        if has_key(pre, k) {
                            assert(has_key(kept0, k));
                            let j = choose|j: int| 0 <= j < kept0.len() && kept0[j].0@ == k;
                            assert(kept@[j].0@ == k);
                            assert(has_key(kept@, k));
                        } else {
                            assert(k == entries@[i as int].0@);
                            assert(kept@[kept0.len() as int].0@ == k);
                            assert(has_key(kept@, k));
                        }
                    }
                    assert(keys_unique(kept@)) by {
                        assert(forall|j: int| 0 <= j < kept0.len() ==> kept@[j] == kept0[j]);
                        assert(!has_key(kept0, entries@[i as int].0@));
                        assert(kept@[kept0.len() as int].0@ == entries@[i as int].0@);
                    }
                }
            },
        }
        i += 1;
    }
    proof {
        assert(entries@.subrange(0, entries@.len() as int) =~= entries@);
        if keys_unique(entries@) {
            lemma_pairs_map_views(kept@, entries@);
        }
    }
    kept
}

/// Index of the first entry carrying `key`, if any.
pub(crate) fn find_key_index(entries: &Vec<(String, String)>, key: &str) -> (r: Option<usize>)
    ensures
        match r {
            Some(i) => 0 <= i < entries@.len() && entries@[i as int].0@ == key@,
            None => !has_key(entries@, key@),
        },
{
    let mut i: usize = 0;
    while i < entries.len()
        invariant
            0 <= i <= entries@.len(),
            forall|j: int| 0 <= j < i ==> entries@[j].0@ != key@,
        decreases entries@.len() - i,
    {
        if crate::text::str_eq(entries[i].0.as_str(), key) {
            return Some(i);
        }
        i += 1;
    }
    None
}

} // verus!
