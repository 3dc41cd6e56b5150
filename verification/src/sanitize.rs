//! The character sanitiser: keeps what is on the allow-list, drops the rest.

use vstd::multiset::Multiset;
use vstd::prelude::*;
use crate::chars::{is_allowed, is_allowed_char};

verus! {

/// The characters of `s` that are on the allow-list, in the order in which
/// they stand in `s` and as often as they occur there.
pub open spec fn sanitized(s: Seq<char>) -> Seq<char> {
    s.filter(|c: char| is_allowed(c))
}

/// Every character of `s` is on the allow-list.
pub open spec fn is_clean(s: Seq<char>) -> bool {
    forall|i: int| 0 <= i < s.len() ==> is_allowed(#[trigger] s[i])
}

/// No character of `s` is on the allow-list.
pub open spec fn none_allowed(s: Seq<char>) -> bool {
    forall|i: int| 0 <= i < s.len() ==> !is_allowed(#[trigger] s[i])
}

/// Sanitising the empty sequence gives the empty sequence.
pub proof fn lemma_sanitized_empty()
    ensures
        sanitized(Seq::<char>::empty()) == Seq::<char>::empty(),
{
    reveal(Seq::filter);
}

/// Sanitising `s` followed by `c` sanitises `s` and then keeps or drops `c`.
pub proof fn lemma_sanitized_push(s: Seq<char>, c: char)
    ensures
        sanitized(s.push(c)) == if is_allowed(c) {
            sanitized(s).push(c)
        } else {
            sanitized(s)
        },
{
    s.lemma_filter_push(c, |c: char| is_allowed(c));
}

/// Removes every character that is not alphanumeric, whitespace, `-`, `_`
/// or `.`; the characters that remain keep their order.
pub fn sanitize_string(input: &str) -> (r: String)
    ensures
        r@ == sanitized(input@),
{
    let mut out = String::new();
    proof {
        lemma_sanitized_empty();
        assert(input@.take(0) =~= Seq::<char>::empty());
    }
    for c in it: input.chars()
        invariant
            it.seq() == input@,
            out@ == sanitized(input@.take(it.index())),
    {
        proof {
            assert(input@.take(it.index() + 1) =~= input@.take(it.index()).push(c));
            lemma_sanitized_push(input@.take(it.index()), c);
        }
        if is_allowed_char(c) {
            out.push(c);
        }
    }
    proof {
        assert(input@.take(input@.len() as int) =~= input@);
    }
    out
}

/// The sanitiser's output holds allow-listed characters only.
pub proof fn lemma_sanitized_is_clean(s: Seq<char>)
    ensures
        is_clean(sanitized(s)),
{
    assert forall|i: int| 0 <= i < sanitized(s).len() implies is_allowed(
        #[trigger] sanitized(s)[i],
    ) by {
        s.lemma_filter_pred(|c: char| is_allowed(c), i);
    }
}

/// A sequence of allow-listed characters passes through unchanged.
pub proof fn lemma_clean_is_kept(s: Seq<char>)
    requires
        is_clean(s),
    ensures
        sanitized(s) == s,
    decreases s.len(),
{
    if s.len() == 0 {
        lemma_sanitized_empty();
        assert(s =~= Seq::<char>::empty());
    } else {
        lemma_clean_is_kept(s.drop_last());
        lemma_sanitized_push(s.drop_last(), s.last());
        assert(s.drop_last().push(s.last()) =~= s);
    }
}

/// Idempotence: sanitising what the sanitiser returned changes nothing.
pub proof fn lemma_sanitize_idempotent(s: Seq<char>)
    ensures
        sanitized(sanitized(s)) == sanitized(s),
{
    lemma_sanitized_is_clean(s);
    lemma_clean_is_kept(sanitized(s));
}

/// A sequence without any allow-listed character is emptied.
pub proof fn lemma_none_allowed_is_emptied(s: Seq<char>)
    requires
        none_allowed(s),
    ensures
        sanitized(s) == Seq::<char>::empty(),
    decreases s.len(),
{
    if s.len() == 0 {
        lemma_sanitized_empty();
        assert(s =~= Seq::<char>::empty());
    } else {
        lemma_none_allowed_is_emptied(s.drop_last());
        lemma_sanitized_push(s.drop_last(), s.last());
        assert(s.drop_last().push(s.last()) =~= s);
    }
}

/// The positions of `s` that hold an allow-listed character, ascending.
pub open spec fn kept_positions(s: Seq<char>) -> Seq<int>
    decreases s.len(),
{
    if s.len() == 0 {
        Seq::empty()
    } else if is_allowed(s.last()) {
        kept_positions(s.drop_last()).push(s.len() - 1)
    } else {
        kept_positions(s.drop_last())
    }
}

/// Order preservation: the output is the input read at its allow-listed
/// positions, from left to right. Each output character comes from a
/// position of the input, later output from a later position, and no
/// allow-listed position is left out.
pub proof fn lemma_sanitize_preserves_order(s: Seq<char>)
    ensures
        kept_positions(s).len() == sanitized(s).len(),
        forall|k: int|
            0 <= k < sanitized(s).len() ==> 0 <= #[trigger] kept_positions(s)[k] < s.len()
                && sanitized(s)[k] == s[kept_positions(s)[k]],
        forall|j: int, k: int|
            0 <= j < k < sanitized(s).len() ==> #[trigger] kept_positions(s)[j]
                < #[trigger] kept_positions(s)[k],
        forall|i: int|
            0 <= i < s.len() && is_allowed(s[i]) ==> #[trigger] kept_positions(s).contains(i),
    decreases s.len(),
{
    if s.len() == 0 {
        lemma_sanitized_empty();
        assert(s =~= Seq::<char>::empty());
    } else {
        let front = s.drop_last();
        lemma_sanitize_preserves_order(front);
        lemma_sanitized_push(front, s.last());
        assert(front.push(s.last()) =~= s);
        let p = kept_positions(s);
        assert forall|i: int| 0 <= i < s.len() && is_allowed(s[i]) implies p.contains(i) by {
            if i < s.len() - 1 {
                assert(front[i] == s[i]);
                assert(kept_positions(front).contains(i));
                let k = choose|k: int|
                    0 <= k < kept_positions(front).len() && kept_positions(front)[k] == i;
                assert(p[k] == i);
            } else {
                assert(p[p.len() - 1] == i);
            }
        }
    }
}

/// Count preservation: every allow-listed character occurs in the output
/// as often as in the input, and no other character occurs in it at all.
pub proof fn lemma_sanitize_preserves_count(s: Seq<char>)
    ensures
        sanitized(s).to_multiset() == s.to_multiset().filter(|c: char| is_allowed(c)),
        forall|c: char|
            #[trigger] sanitized(s).to_multiset().count(c) == if is_allowed(c) {
                s.to_multiset().count(c)
            } else {
                0
            },
    decreases s.len(),
{
    broadcast use vstd::multiset::group_multiset_axioms;

    let keep = |c: char| is_allowed(c);
    if s.len() == 0 {
        lemma_sanitized_empty();
        assert(s =~= Seq::<char>::empty());
        assert(s.to_multiset() =~= Multiset::<char>::empty()) by {
            s.to_multiset_ensures();
        }
        assert(sanitized(s).to_multiset() =~= s.to_multiset().filter(keep));
    } else {
        let front = s.drop_last();
        let last = s.last();
        lemma_sanitize_preserves_count(front);
        lemma_sanitized_push(front, last);
        assert(front.push(last) =~= s);
        front.to_multiset_ensures();
        sanitized(front).to_multiset_ensures();
        assert(s.to_multiset() =~= front.to_multiset().insert(last));
        assert(sanitized(s).to_multiset() =~= s.to_multiset().filter(keep));
    }
}

} // verus!
