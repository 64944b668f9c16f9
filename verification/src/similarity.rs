//! Similarity of two names by the groups of three characters they share.
//!
//! A name of `n` characters, set between two blanks in front and one behind,
//! has `n + 1` groups of three adjacent characters. A query is similar to a
//! name when at least half of the query's groups occur in the name.
use crate::text::chars_of;
use vstd::prelude::*;

verus! {

/// The character at position `k` of `s`, and a blank on either side of it.
pub open spec fn padded_char(s: Seq<char>, k: int) -> char {
    if 0 <= k < s.len() {
        s[k]
    } else {
        ' '
    }
}

/// The group of three characters of `s` that ends at position `i`.
pub open spec fn trigram_at(s: Seq<char>, i: int) -> (char, char, char) {
    (padded_char(s, i - 2), padded_char(s, i - 1), padded_char(s, i))
}

/// `t` is one of the groups of `s`.
pub open spec fn has_trigram(s: Seq<char>, t: (char, char, char)) -> bool {
    exists|j: int| 0 <= j <= s.len() && trigram_at(s, j) == t
}

/// How many of the first `n` groups of `a` are groups of `b`.
pub open spec fn shared_trigrams(a: Seq<char>, b: Seq<char>, n: int) -> nat
    decreases n,
{
    if n <= 0 {
        0
    } else {
        let hit: nat = if has_trigram(b, trigram_at(a, n - 1)) {
            1
        } else {
            0
        };
        shared_trigrams(a, b, n - 1) + hit
    }
}

/// At least half of the groups of `a` are groups of `b`.
pub open spec fn similar(a: Seq<char>, b: Seq<char>) -> bool {
    2 * shared_trigrams(a, b, a.len() as int + 1) >= a.len() + 1
}

/// No more groups are shared than were looked at.
pub proof fn lemma_shared_trigrams_bound(a: Seq<char>, b: Seq<char>, n: int)
    requires
        0 <= n,
    ensures
        shared_trigrams(a, b, n) <= n,
    decreases n,
{
    if n > 0 {
        lemma_shared_trigrams_bound(a, b, n - 1);
    }
}

/// A name shares all of its groups with itself.
pub proof fn lemma_shared_trigrams_with_self(a: Seq<char>, n: int)
    requires
        0 <= n <= a.len() + 1,
    ensures
        shared_trigrams(a, a, n) == n,
    decreases n,
{
    if n > 0 {
        lemma_shared_trigrams_with_self(a, n - 1);
        assert(trigram_at(a, n - 1) == trigram_at(a, n - 1));
    }
}

/// Every name is similar to itself.
pub proof fn lemma_similar_reflexive(a: Seq<char>)
    ensures
        similar(a, a),
{
    lemma_shared_trigrams_with_self(a, a.len() as int + 1);
}

/// A query that shares no group with a name is not similar to it.
pub proof fn lemma_nothing_shared_not_similar(a: Seq<char>, b: Seq<char>)
    requires
        forall|i: int| 0 <= i <= a.len() ==> !has_trigram(b, #[trigger] trigram_at(a, i)),
    ensures
        !similar(a, b),
{
    lemma_nothing_shared(a, b, a.len() as int + 1);
}

proof fn lemma_nothing_shared(a: Seq<char>, b: Seq<char>, n: int)
    requires
        0 <= n <= a.len() + 1,
        forall|i: int| 0 <= i <= a.len() ==> !has_trigram(b, #[trigger] trigram_at(a, i)),
    ensures
        shared_trigrams(a, b, n) == 0,
    decreases n,
{
    if n > 0 {
        lemma_nothing_shared(a, b, n - 1);
    }
}

fn trigram_of(chars: &Vec<char>, i: usize) -> (t: (char, char, char))
    requires
        i <= chars.len(),
    ensures
        t == trigram_at(chars@, i as int),
{
    let first = if i >= 2 {
        chars[i - 2]
    } else {
        ' '
    };
    let second = if i >= 1 {
        chars[i - 1]
    } else {
        ' '
    };
    let third = if i < chars.len() {
        chars[i]
    } else {
        ' '
    };
    (first, second, third)
}

fn same_trigram(t: (char, char, char), u: (char, char, char)) -> (same: bool)
    ensures
        same == (t == u),
{
    t.0 == u.0 && t.1 == u.1 && t.2 == u.2
}

fn contains_trigram(chars: &Vec<char>, t: (char, char, char)) -> (found: bool)
    ensures
        found == has_trigram(chars@, t),
{
    let n = chars.len();
    let mut j: usize = 0;
    while j < n
        invariant
            n == chars.len(),
            j <= n,
            forall|k: int| 0 <= k < j ==> trigram_at(chars@, k) != t,
        decreases n - j,
    {
        if same_trigram(trigram_of(chars, j), t) {
            return true;
        }
        j += 1;
    }
    same_trigram(trigram_of(chars, n), t)
}

/// Tells whether at least half of the groups of `a` occur in `b`.
pub fn chars_similar(a: &Vec<char>, b: &Vec<char>) -> (alike: bool)
    ensures
        alike == similar(a@, b@),
{
    let n = a.len();
    let mut shared: usize = 0;
    let mut i: usize = 0;
    while i < n
        invariant
            n == a.len(),
            i <= n,
            shared <= i,
            shared == shared_trigrams(a@, b@, i as int),
        decreases n - i,
    {
        if contains_trigram(b, trigram_of(a, i)) {
            shared += 1;
        }
        i += 1;
    }
    let last: u128 = if contains_trigram(b, trigram_of(a, n)) {
        1
    } else {
        0
    };
    let total: u128 = shared as u128 + last;
    assert(total == shared_trigrams(a@, b@, n + 1));
    2 * total >= n as u128 + 1
}

/// Tells whether the query is similar to the name: whether at least half of
/// the query's groups of three characters occur in the name.
pub fn fuzzy_match(query: &str, name: &str) -> (alike: bool)
    ensures
        alike == similar(query@, name@),
{
    let a = chars_of(query);
    let b = chars_of(name);
    chars_similar(&a, &b)
}

} // verus!
