//! Verified text utilities: token splitting, lowercase joining, and the
//! `" = "` separator split used by the alias-creation command.

use vstd::prelude::*;
use vstd::string::StrSliceExecFns;
use vstd::string::StringExecFns;

verus! {

/// Characters that separate command tokens.
pub open spec fn is_space_char(c: char) -> bool {
    c == ' ' || c == '\t' || c == '\n' || c == '\r'
}

fn is_space(c: char) -> (r: bool)
    ensures
        r == is_space_char(c),
{
    c == ' ' || c == '\t' || c == '\n' || c == '\r'
}

/// `s` begins with `p`.
pub open spec fn starts_with_spec(s: Seq<char>, p: Seq<char>) -> bool {
    p.len() <= s.len() && s.subrange(0, p.len() as int) == p
}

pub fn str_starts_with(s: &str, p: &str) -> (r: bool)
    ensures
        r == starts_with_spec(s@, p@),
{
    let sn = s.unicode_len();
    let pn = p.unicode_len();
    if pn > sn {
        return false;
    }
    let mut i: usize = 0;
    while i < pn
        invariant
            0 <= i <= pn,
            pn <= sn,
            pn == p@.len(),
            sn == s@.len(),
            forall|j: int| 0 <= j < i ==> s@[j] == p@[j],
        decreases pn - i,
    {
        if s.get_char(i) != p.get_char(i) {
            assert(s@.subrange(0, pn as int)[i as int] != p@[i as int]);
            return false;
        }
        i += 1;
    }
    assert(s@.subrange(0, pn as int) =~= p@);
    true
}

/// String equality at the level of character sequences.
pub fn str_eq(a: &str, b: &str) -> (r: bool)
    ensures
        r == (a@ == b@),
{
    let sa = String::from_str(a);
    let sb = String::from_str(b);
    sa == sb
}

/// What lowercasing a string yields.
pub uninterp spec fn lower_of(s: Seq<char>) -> Seq<char>;

/// Relies on `str::to_lowercase`: the result depends on the characters alone.
#[verifier::external_body]
pub(crate) fn lowercase(s: &str) -> (r: String)
    ensures
        r@ == lower_of(s@),
{
    s.to_lowercase()
}

/// Longest space-free prefix of `s`.
pub open spec fn word_prefix(s: Seq<char>) -> Seq<char>
    decreases s.len(),
{
    if s.len() == 0 || is_space_char(s[0]) {
        Seq::empty()
    } else {
        seq![s[0]] + word_prefix(s.drop_first())
    }
}

pub proof fn lemma_word_prefix_len(s: Seq<char>)
    ensures
        word_prefix(s).len() <= s.len(),
        s.len() > 0 && !is_space_char(s[0]) ==> word_prefix(s).len() >= 1,
    decreases s.len(),
{
    if s.len() > 0 && !is_space_char(s[0]) {
        lemma_word_prefix_len(s.drop_first());
    }
}

/// `word_prefix(s)` is the prefix of `s` that ends at the first space (or
/// at the end of `s`).
pub proof fn lemma_word_prefix_chars(s: Seq<char>, k: int)
    requires
        0 <= k <= s.len(),
        forall|j: int| 0 <= j < k ==> !is_space_char(s[j]),
        k == s.len() || is_space_char(s[k]),
    ensures
        word_prefix(s) == s.subrange(0, k),
    decreases s.len(),
{
    if s.len() == 0 || is_space_char(s[0]) {
        assert(k == 0);
        assert(word_prefix(s) =~= s.subrange(0, 0));
    } else {
        assert(k >= 1);
        let t = s.drop_first();
        assert(forall|j: int| 0 <= j < k - 1 ==> t[j] == s[j + 1] && !is_space_char(t[j]));
        if k < s.len() {
            assert(is_space_char(t[k - 1]));
        }
        lemma_word_prefix_chars(t, k - 1);
        assert(word_prefix(s) =~= s.subrange(0, k));
    }
}

/// The whitespace-separated tokens of `s`.
pub open spec fn words_spec(s: Seq<char>) -> Seq<Seq<char>>
    decreases s.len(),
{
    if s.len() == 0 {
        Seq::empty()
    } else if is_space_char(s[0]) {
        words_spec(s.drop_first())
    } else {
        // the guard bounds the recursion; a word at a non-space start has
        // at least one character, so the unguarded branch is never taken
        let w = word_prefix(s);
        if 1 <= w.len() <= s.len() {
            seq![w] + words_spec(s.skip(w.len() as int))
        } else {
            Seq::empty()
        }
    }
}

/// Splits `s` into its whitespace-separated tokens.
pub fn split_words(s: &str) -> (r: Vec<String>)
    ensures
        r.deep_view() == words_spec(s@),
    decreases s@.len(),
{
    let n = s.unicode_len();
    if n == 0 {
        let r: Vec<String> = Vec::new();
        assert(r.deep_view() =~= words_spec(s@));
        return r;
    }
    let c = s.get_char(0);
    if is_space(c) {
        let rest = s.substring_char(1, n);
        assert(rest@ =~= s@.drop_first());
        return split_words(rest);
    }
    let mut end: usize = 1;
    while end < n && !is_space(s.get_char(end))
        invariant
            1 <= end <= n,
            n == s@.len(),
            forall|j: int| 0 <= j < end ==> !is_space_char(s@[j]),
        decreases n - end,
    {
        end += 1;
    }
    proof {
        lemma_word_prefix_chars(s@, end as int);
        lemma_word_prefix_len(s@);
    }
    let word = s.substring_char(0, end);
    let rest = s.substring_char(end, n);
    assert(rest@ =~= s@.skip(word_prefix(s@).len() as int));
    let mut r = split_words(rest);
    r.insert(0, String::from_str(word));
    assert(r.deep_view() =~= words_spec(s@));
    r
}

/// Tokens joined with single spaces.
pub open spec fn join_tokens(ts: Seq<Seq<char>>) -> Seq<char>
    decreases ts.len(),
{
    if ts.len() == 0 {
        Seq::empty()
    } else if ts.len() == 1 {
        ts[0]
    } else {
        ts[0] + seq![' '] + join_tokens(ts.drop_first())
    }
}

/// Each token lowercased.
pub open spec fn lower_all(ts: Seq<Seq<char>>) -> Seq<Seq<char>> {
    ts.map_values(|t: Seq<char>| lower_of(t))
}

/// The normalized form of an argument list: every token lowercased, then
/// joined with single spaces.
pub open spec fn joined_lower(ts: Seq<Seq<char>>) -> Seq<char> {
    join_tokens(lower_all(ts))
}

fn join_lower_from(tokens: &Vec<String>, from: usize) -> (r: String)
    requires
        from <= tokens@.len(),
    ensures
        r@ == joined_lower(tokens.deep_view().skip(from as int)),
    decreases tokens@.len() - from,
{
    if from == tokens.len() {
        let r = String::new();
        assert(lower_all(tokens.deep_view().skip(from as int)) =~= Seq::<Seq<char>>::empty());
        return r;
    }
    let low = lowercase(tokens[from].as_str());
    let ghost ts = lower_all(tokens.deep_view().skip(from as int));
    assert(ts[0] == lower_of(tokens[from as int]@));
    if from + 1 == tokens.len() {
        assert(ts.len() == 1);
        return low;
    }
    let rest = join_lower_from(tokens, from + 1);
    let mut r = low;
    r.append(" ");
    r.append(rest.as_str());
    proof {
        reveal_strlit(" ");
        assert(ts.drop_first() =~= lower_all(tokens.deep_view().skip(from + 1)));
        assert(r@ =~= joined_lower(tokens.deep_view().skip(from as int)));
    }
    r
}

/// Lowercases every token and joins them with single spaces.
pub fn join_lower(tokens: &Vec<String>) -> (r: String)
    ensures
        r@ == joined_lower(tokens.deep_view()),
{
    let r = join_lower_from(tokens, 0);
    assert(tokens.deep_view().skip(0) =~= tokens.deep_view());
    r
}

/// Index of the first occurrence of the `" = "` separator in `s`.
pub open spec fn find_sep(s: Seq<char>) -> Option<int>
    decreases s.len(),
{
    if s.len() < 3 {
        None
    } else if s[0] == ' ' && s[1] == '=' && s[2] == ' ' {
        Some(0)
    } else {
        match find_sep(s.drop_first()) {
            Some(i) => Some(i + 1),
            None => None,
        }
    }
}

pub proof fn lemma_find_sep_bounds(s: Seq<char>)
    ensures
        match find_sep(s) {
            Some(i) => 0 <= i && i + 3 <= s.len(),
            None => true,
        },
    decreases s.len(),
{
    if s.len() >= 3 && !(s[0] == ' ' && s[1] == '=' && s[2] == ' ') {
        lemma_find_sep_bounds(s.drop_first());
    }
}

/// The parts of `s` around each occurrence of `" = "`, leftmost first.
pub open spec fn split_sep(s: Seq<char>) -> Seq<Seq<char>>
    decreases s.len(),
{
    match find_sep(s) {
        None => seq![s],
        Some(i) => if 0 <= i && i + 3 <= s.len() {
            seq![s.subrange(0, i)] + split_sep(s.skip(i + 3))
        } else {
            seq![s]
        },
    }
}

fn find_sep_exec(s: &str) -> (r: Option<usize>)
    ensures
        match r {
            Some(i) => find_sep(s@) == Some(i as int),
            None => find_sep(s@) is None,
        },
    decreases s@.len(),
{
    let n = s.unicode_len();
    if n < 3 {
        return None;
    }
    if s.get_char(0) == ' ' && s.get_char(1) == '=' && s.get_char(2) == ' ' {
        return Some(0);
    }
    let rest = s.substring_char(1, n);
    assert(rest@ =~= s@.drop_first());
    match find_sep_exec(rest) {
        Some(i) => {
            proof {
                lemma_find_sep_bounds(rest@);
            }
            Some(i + 1)
        },
        None => None,
    }
}

/// Splits `s` on every occurrence of the `" = "` separator.
pub fn split_on_sep(s: &str) -> (r: Vec<String>)
    ensures
        r.deep_view() == split_sep(s@),
    decreases s@.len(),
{
    let n = s.unicode_len();
    match find_sep_exec(s) {
        None => {
            let mut r: Vec<String> = Vec::new();
            r.push(String::from_str(s));
            assert(r.deep_view() =~= split_sep(s@));
            r
        },
        Some(i) => {
            proof {
                lemma_find_sep_bounds(s@);
            }
            let head = s.substring_char(0, i);
            let tail = s.substring_char(i + 3, n);
            assert(tail@ =~= s@.skip(i + 3));
            let mut r = split_on_sep(tail);
            r.insert(0, String::from_str(head));
            assert(r.deep_view() =~= split_sep(s@));
            r
        },
    }
}

} // verus!
