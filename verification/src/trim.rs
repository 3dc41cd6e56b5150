//! Leading and trailing whitespace, and text that is nothing else.

use vstd::prelude::*;
use crate::chars::unicode_whitespace;

verus! {

/// `s` without its leading whitespace.
pub open spec fn trimmed_start(s: Seq<char>) -> Seq<char>
    decreases s.len(),
{
    if s.len() > 0 && unicode_whitespace(s.first()) {
        trimmed_start(s.drop_first())
    } else {
        s
    }
}

/// `s` without its trailing whitespace.
pub open spec fn trimmed_end(s: Seq<char>) -> Seq<char>
    decreases s.len(),
{
    if s.len() > 0 && unicode_whitespace(s.last()) {
        trimmed_end(s.drop_last())
    } else {
        s
    }
}

/// `s` without its leading and trailing whitespace.
pub open spec fn trimmed(s: Seq<char>) -> Seq<char> {
    trimmed_end(trimmed_start(s))
}

/// Every character of `s` is whitespace; the empty sequence is blank.
pub open spec fn is_blank(s: Seq<char>) -> bool {
    forall|i: int| 0 <= i < s.len() ==> unicode_whitespace(#[trigger] s[i])
}

/// Trimming at the start leaves nothing exactly when the text is blank.
pub proof fn lemma_trimmed_start_empty_iff_blank(s: Seq<char>)
    ensures
        trimmed_start(s).len() == 0 <==> is_blank(s),
    decreases s.len(),
{
    if s.len() > 0 && unicode_whitespace(s.first()) {
        let rest = s.drop_first();
        lemma_trimmed_start_empty_iff_blank(rest);
        if is_blank(rest) {
            assert forall|i: int| 0 <= i < s.len() implies unicode_whitespace(#[trigger] s[i]) by {
                if i > 0 {
                    assert(s[i] == rest[i - 1]);
                }
            }
        }
        if is_blank(s) {
            assert forall|i: int| 0 <= i < rest.len() implies unicode_whitespace(
                #[trigger] rest[i],
            ) by {
                assert(rest[i] == s[i + 1]);
            }
        }
    } else if s.len() > 0 {
        assert(!unicode_whitespace(s[0]));
    }
}

/// Trimming at the start leaves the text empty or beginning with a
/// character that is not whitespace.
pub proof fn lemma_trimmed_start_begins_solid(s: Seq<char>)
    ensures
        trimmed_start(s).len() > 0 ==> !unicode_whitespace(trimmed_start(s).first()),
    decreases s.len(),
{
    if s.len() > 0 && unicode_whitespace(s.first()) {
        lemma_trimmed_start_begins_solid(s.drop_first());
    }
}

/// Trimming leaves nothing exactly when the text is blank.
pub proof fn lemma_trimmed_empty_iff_blank(s: Seq<char>)
    ensures
        trimmed(s).len() == 0 <==> is_blank(s),
{
    let t = trimmed_start(s);
    lemma_trimmed_start_empty_iff_blank(s);
    lemma_trimmed_start_begins_solid(s);
    if t.len() > 0 && trimmed_end(t).len() == 0 {
        lemma_first_survives_trimmed_end(t);
    }
}

/// Text that begins with a character that is not whitespace keeps that
/// character when trimmed at the end.
proof fn lemma_first_survives_trimmed_end(s: Seq<char>)
    requires
        s.len() > 0,
        !unicode_whitespace(s.first()),
    ensures
        trimmed_end(s).len() > 0,
    decreases s.len(),
{
    if unicode_whitespace(s.last()) {
        let front = s.drop_last();
        assert(front.len() > 0) by {
            if s.len() == 1 {
                assert(s.last() == s.first());
            }
        }
        assert(front.first() == s.first());
        lemma_first_survives_trimmed_end(front);
    }
}

/// Whether `input` is empty once its leading and trailing whitespace is
/// removed.
pub fn trims_to_empty(input: &str) -> (r: bool)
    ensures
        r == (trimmed(input@).len() == 0),
{
    let mut blank = true;
    for c in it: input.chars()
        invariant
            it.seq() == input@,
            blank == is_blank(input@.take(it.index())),
    {
        proof {
            let seen = input@.take(it.index());
            let next = input@.take(it.index() + 1);
            assert(next =~= seen.push(c));
            if is_blank(next) {
                assert forall|i: int| 0 <= i < seen.len() implies unicode_whitespace(
                    #[trigger] seen[i],
                ) by {
                    assert(seen[i] == next[i]);
                }
                assert(next[it.index()] == c);
            }
        }
        let space = c.is_whitespace();
        blank = blank && space;
    }
    proof {
        assert(input@.take(input@.len() as int) =~= input@);
        lemma_trimmed_empty_iff_blank(input@);
    }
    blank
}

} // verus!
