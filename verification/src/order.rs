//! The order in which the relational store lists texts: byte by byte over
//! their UTF-8 encoding, a proper prefix first.

use crate::text::texts;
use vstd::prelude::*;
use vstd::utf8::encode_utf8;

verus! {

/// Whether `a` comes before `b`, or equals it, byte by byte.
pub open spec fn bytes_le(a: Seq<u8>, b: Seq<u8>) -> bool
    decreases a.len(),
{
    a.len() == 0 || (b.len() > 0 && (a[0] < b[0] || (a[0] == b[0] && bytes_le(
        a.drop_first(),
        b.drop_first(),
    ))))
}

/// Whether the text `a` comes before the text `b`, or equals it.
pub open spec fn text_le(a: Seq<char>, b: Seq<char>) -> bool {
    bytes_le(encode_utf8(a), encode_utf8(b))
}

/// Whether `list` is in ascending order.
pub open spec fn ascending(list: Seq<Seq<char>>) -> bool {
    forall|i: int, j: int| 0 <= i < j < list.len() ==> text_le(#[trigger] list[i], #[trigger] list[j])
}

/// Of two byte strings, one comes before the other or equals it.
pub proof fn lemma_bytes_le_total(a: Seq<u8>, b: Seq<u8>)
    ensures
        bytes_le(a, b) || bytes_le(b, a),
    decreases a.len(),
{
    if a.len() > 0 && b.len() > 0 && a[0] == b[0] {
        lemma_bytes_le_total(a.drop_first(), b.drop_first());
    }
}

/// The order of byte strings is transitive.
pub proof fn lemma_bytes_le_transitive(a: Seq<u8>, b: Seq<u8>, c: Seq<u8>)
    requires
        bytes_le(a, b),
        bytes_le(b, c),
    ensures
        bytes_le(a, c),
    decreases a.len(),
{
    if a.len() > 0 && a[0] == b[0] && b[0] == c[0] {
        lemma_bytes_le_transitive(a.drop_first(), b.drop_first(), c.drop_first());
    }
}

/// Inserting a text that a list without repetition does not hold gives a
/// list without repetition that holds the text and what the list held.
pub proof fn lemma_insert_fresh(list: Seq<Seq<char>>, at: int, fresh: Seq<char>)
    requires
        0 <= at <= list.len(),
        list.no_duplicates(),
        !list.contains(fresh),
    ensures
        list.insert(at, fresh).no_duplicates(),
        forall|text: Seq<char>| list.insert(at, fresh).contains(text) <==> (list.contains(text) || text == fresh),
{
    let after = list.insert(at, fresh);
    assert forall|i: int, j: int| 0 <= i < after.len() && 0 <= j < after.len() && i != j implies after[i]
        != after[j] by {
        let from = |k: int| if k < at { k } else { k - 1 };
        if i != at {
            assert(after[i] == list[from(i)]);
            assert(list.contains(after[i]));
        }
        if j != at {
            assert(after[j] == list[from(j)]);
            assert(list.contains(after[j]));
        }
    }
    assert forall|text: Seq<char>| after.contains(text) <==> (list.contains(text) || text == fresh) by {
        if after.contains(text) {
            let k = choose|k: int| 0 <= k < after.len() && after[k] == text;
            if k < at {
                assert(list[k] == text);
            } else if k > at {
                assert(list[k - 1] == text);
            }
        }
        if list.contains(text) {
            let k = choose|k: int| 0 <= k < list.len() && list[k] == text;
            if k < at {
                assert(after[k] == text);
            } else {
                assert(after[k + 1] == text);
            }
        }
        if text == fresh {
            assert(after[at] == text);
        }
    }
}

/// Whether `a` comes before `b`, or equals it, byte by byte.
fn bytes_precede(a: &[u8], b: &[u8]) -> (before: bool)
    ensures
        before == bytes_le(a@, b@),
{
    let mut i: usize = 0;
    assert(a@.subrange(0, a.len() as int) =~= a@);
    assert(b@.subrange(0, b.len() as int) =~= b@);
    while i < a.len() && i < b.len()
        invariant
            i <= a.len(),
            i <= b.len(),
            bytes_le(a@, b@) == bytes_le(a@.subrange(i as int, a.len() as int), b@.subrange(i as int, b.len() as int)),
        decreases a.len() - i,
    {
        let ghost rest_a = a@.subrange(i as int, a.len() as int);
        let ghost rest_b = b@.subrange(i as int, b.len() as int);
        assert(rest_a[0] == a@[i as int]);
        assert(rest_b[0] == b@[i as int]);
        if a[i] < b[i] {
            return true;
        }
        if a[i] > b[i] {
            return false;
        }
        assert(rest_a.drop_first() =~= a@.subrange(i + 1, a.len() as int));
        assert(rest_b.drop_first() =~= b@.subrange(i + 1, b.len() as int));
        i = i + 1;
    }
    i == a.len()
}

/// Whether the text `a` comes before the text `b`, or equals it.
pub fn text_precedes(a: &str, b: &str) -> (before: bool)
    ensures
        before == text_le(a@, b@),
{
    bytes_precede(a.as_bytes(), b.as_bytes())
}

/// Puts `name` into the ascending list `names`, at the place that keeps
/// the list ascending.
pub fn insert_ascending(names: &mut Vec<String>, name: String)
    requires
        ascending(texts(old(names)@)),
    ensures
        ascending(texts(final(names)@)),
        exists|at: int|
            0 <= at <= old(names)@.len() && texts(final(names)@) == #[trigger] texts(old(names)@).insert(
                at,
                name@,
            ),
{
    let ghost before = texts(names@);
    let mut at: usize = 0;
    while at < names.len() && text_precedes(names[at].as_str(), name.as_str())
        invariant
            at <= names.len(),
            before == texts(names@),
            forall|i: int| 0 <= i < at ==> text_le(#[trigger] before[i], name@),
        decreases names.len() - at,
    {
        at = at + 1;
    }
    proof {
        if at < names.len() {
            assert(before[at as int] == names@[at as int]@);
            assert(!text_le(before[at as int], name@));
            lemma_bytes_le_total(encode_utf8(before[at as int]), encode_utf8(name@));
        }
    }
    names.insert(at, name);
    proof {
        let after = texts(names@);
        assert(after =~= before.insert(at as int, name@));
        assert forall|i: int, j: int| 0 <= i < j < after.len() implies text_le(
            #[trigger] after[i],
            #[trigger] after[j],
        ) by {
            if j < at {
                assert(after[i] == before[i] && after[j] == before[j]);
            } else if j == at {
                assert(after[i] == before[i]);
            } else if i < at {
                assert(after[i] == before[i] && after[j] == before[j - 1]);
                if j - 1 == i {
                    lemma_bytes_le_total(encode_utf8(before[i]), encode_utf8(before[i]));
                }
            } else if i == at {
                assert(after[j] == before[j - 1]);
                if j - 1 > at {
                    assert(text_le(before[at as int], before[j - 1]));
                    lemma_bytes_le_transitive(
                        encode_utf8(name@),
                        encode_utf8(before[at as int]),
                        encode_utf8(before[j - 1]),
                    );
                }
            } else {
                assert(after[i] == before[i - 1] && after[j] == before[j - 1]);
            }
        }
    }
}

} // verus!
