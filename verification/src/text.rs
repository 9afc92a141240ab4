//! Searching and comparing text, stated over sequences of characters.

use vstd::prelude::*;

verus! {

/// The index of the occurrence number `n` (counted from zero) of `c` in `s`,
/// or `s.len()` when `s` holds `n` occurrences or fewer.
pub open spec fn nth_index_of(s: Seq<char>, c: char, n: nat) -> int
    decreases s.len(),
{
    if s.len() == 0 {
        0
    } else if s[0] == c && n == 0 {
        0
    } else {
        1 + nth_index_of(
            s.skip(1),
            c,
            if s[0] == c {
                (n - 1) as nat
            } else {
                n
            },
        )
    }
}

/// `nth_index_of` always lands inside `s` or at its end.
pub proof fn lemma_nth_index_of_bounds(s: Seq<char>, c: char, n: nat)
    ensures
        0 <= nth_index_of(s, c, n) <= s.len(),
        nth_index_of(s, c, n) < s.len() ==> s[nth_index_of(s, c, n)] == c,
    decreases s.len(),
{
    if s.len() != 0 && !(s[0] == c && n == 0) {
        let m: nat = if s[0] == c { (n - 1) as nat } else { n };
        lemma_nth_index_of_bounds(s.skip(1), c, m);
    }
}

/// Where `c` is found at all, its first occurrence is preceded by none.
pub proof fn lemma_first_index_of(s: Seq<char>, c: char)
    ensures
        forall|j: int| 0 <= j < nth_index_of(s, c, 0) ==> s[j] != c,
        s.contains(c) <==> nth_index_of(s, c, 0) < s.len(),
    decreases s.len(),
{
    lemma_nth_index_of_bounds(s, c, 0);
    if s.len() != 0 && s[0] != c {
        let rest = s.skip(1);
        lemma_first_index_of(rest, c);
        lemma_nth_index_of_bounds(rest, c, 0);
        assert forall|j: int| 0 <= j < nth_index_of(s, c, 0) implies s[j] != c by {
            if j > 0 {
                assert(s[j] == rest[j - 1]);
            }
        }
        if s.contains(c) {
            let k = choose|k: int| 0 <= k < s.len() && s[k] == c;
            assert(rest[k - 1] == c);
            assert(rest.contains(c));
        }
        if nth_index_of(s, c, 0) < s.len() {
            assert(s[nth_index_of(s, c, 0)] == c);
        }
    } else if s.len() != 0 {
        assert(s[0] == c);
    }
}

/// Skipping a prefix that holds no `c` moves every occurrence by its length.
pub proof fn lemma_nth_index_of_skips_prefix(prefix: Seq<char>, rest: Seq<char>, c: char, n: nat)
    requires
        !prefix.contains(c),
    ensures
        nth_index_of(prefix + rest, c, n) == prefix.len() + nth_index_of(rest, c, n),
    decreases prefix.len(),
{
    if prefix.len() == 0 {
        assert(prefix + rest =~= rest);
    } else {
        let s = prefix + rest;
        assert(s[0] == prefix[0]);
        assert(prefix.contains(prefix[0]));
        assert(s.skip(1) =~= prefix.skip(1) + rest);
        assert forall|j: int| 0 <= j < prefix.skip(1).len() implies prefix.skip(1)[j] != c by {
            assert(prefix.contains(prefix[j + 1]));
        }
        lemma_nth_index_of_skips_prefix(prefix.skip(1), rest, c, n);
    }
}

/// Stepping over one occurrence of `c` leaves one occurrence fewer to find.
pub proof fn lemma_nth_index_of_steps_over(rest: Seq<char>, c: char, n: nat)
    ensures
        nth_index_of(seq![c] + rest, c, n + 1) == 1 + nth_index_of(rest, c, n),
        nth_index_of(seq![c] + rest, c, 0) == 0,
{
    let s = seq![c] + rest;
    assert(s[0] == c);
    assert(s.skip(1) =~= rest);
}

/// The position of occurrence number `n` of `c` in `s`, or the length of `s`
/// in characters when there is no such occurrence.
pub fn find_nth(s: &str, c: char, n: usize) -> (pos: usize)
    ensures
        pos == nth_index_of(s@, c, n as nat),
        pos <= s@.len(),
{
    let len: usize = s.unicode_len();
    let mut i: usize = 0;
    let mut seen: usize = 0;
    proof {
        assert(s@.skip(0) =~= s@);
    }
    while i < len
        invariant
            len == s@.len(),
            i <= len,
            seen <= n,
            nth_index_of(s@, c, n as nat) == i + nth_index_of(
                s@.skip(i as int),
                c,
                (n - seen) as nat,
            ),
        decreases len - i,
    {
        let ch: char = s.get_char(i);
        proof {
            assert(s@.skip(i as int)[0] == s@[i as int]);
            assert(s@.skip(i as int).skip(1) =~= s@.skip(i + 1));
        }
        if ch == c {
            if seen == n {
                return i;
            }
            seen = seen + 1;
        }
        i = i + 1;
    }
    i
}

/// Whether two pieces of text hold the same characters.
pub fn same_text(a: &str, b: &str) -> (same: bool)
    ensures
        same == (a@ == b@),
{
    let len: usize = a.unicode_len();
    if b.unicode_len() != len {
        return false;
    }
    let mut i: usize = 0;
    while i < len
        invariant
            len == a@.len(),
            len == b@.len(),
            i <= len,
            forall|j: int| 0 <= j < i ==> a@[j] == b@[j],
        decreases len - i,
    {
        if a.get_char(i) != b.get_char(i) {
            return false;
        }
        i = i + 1;
    }
    proof {
        assert(a@ =~= b@);
    }
    true
}

} // verus!
