//! Text handling shared by the modules: stripping of trailing padding and
//! comparison of texts.

use vstd::prelude::*;

verus! {

/// The padding character of fixed-width on-chain text fields.
pub open spec fn nul() -> char {
    '\0'
}

/// `s` without its longest suffix made of `c` alone.
pub open spec fn strip_trailing(s: Seq<char>, c: char) -> Seq<char>
    decreases s.len(),
{
    if s.len() > 0 && s.last() == c {
        strip_trailing(s.drop_last(), c)
    } else {
        s
    }
}

/// Whether `s` does not end with `c`.
pub open spec fn unpadded(s: Seq<char>, c: char) -> bool {
    s.len() > 0 ==> s.last() != c
}

/// Dropping the trailing copies of `c` down to position `k`, which is
/// preceded by something else, is what `strip_trailing` does.
pub proof fn lemma_strip_trailing_at(s: Seq<char>, c: char, k: int)
    requires
        0 <= k <= s.len(),
        forall|i: int| k <= i < s.len() ==> s[i] == c,
        k > 0 ==> s[k - 1] != c,
    ensures
        strip_trailing(s, c) == s.subrange(0, k),
    decreases s.len() - k,
{
    if k == s.len() {
        assert(s.subrange(0, k) =~= s);
    } else {
        let rest = s.drop_last();
        lemma_strip_trailing_at(rest, c, k);
        assert(rest.subrange(0, k) =~= s.subrange(0, k));
    }
}

/// What `strip_trailing` leaves does not end with `c`.
pub proof fn lemma_strip_trailing_is_unpadded(s: Seq<char>, c: char)
    ensures
        unpadded(strip_trailing(s, c), c),
    decreases s.len(),
{
    if s.len() > 0 && s.last() == c {
        lemma_strip_trailing_is_unpadded(s.drop_last(), c);
    }
}

/// The texts that the strings of `strings` hold, in order.
pub open spec fn texts(strings: Seq<String>) -> Seq<Seq<char>> {
    Seq::new(strings.len(), |i: int| strings[i]@)
}

/// Whether two texts are the same.
pub fn same_text(left: &str, right: &str) -> (same: bool)
    ensures
        same == (left@ == right@),
{
    left.to_owned() == right.to_owned()
}

/// Whether one of `strings` holds the text `wanted`.
pub fn holds_text(strings: &Vec<String>, wanted: &str) -> (found: bool)
    ensures
        found == texts(strings@).contains(wanted@),
{
    let mut i: usize = 0;
    while i < strings.len()
        invariant
            i <= strings.len(),
            forall|j: int| 0 <= j < i ==> texts(strings@)[j] != wanted@,
        decreases strings.len() - i,
    {
        if same_text(strings[i].as_str(), wanted) {
            assert(texts(strings@)[i as int] == wanted@);
            return true;
        }
        i = i + 1;
    }
    false
}

/// Removes the trailing NUL characters from `s`, and nothing else.
pub fn trim_nul(s: &str) -> (out: String)
    ensures
        out@ == strip_trailing(s@, nul()),
        unpadded(out@, nul()),
{
    let n = s.unicode_len();
    let mut end: usize = n;
    while end > 0 && s.get_char(end - 1) == '\0'
        invariant
            end <= n,
            n == s@.len(),
            forall|i: int| end <= i < n ==> s@[i] == nul(),
        decreases end,
    {
        end = end - 1;
    }
    proof {
        lemma_strip_trailing_at(s@, nul(), end as int);
        lemma_strip_trailing_is_unpadded(s@, nul());
    }
    s.substring_char(0, end).to_owned()
}

} // verus!
