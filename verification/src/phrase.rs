//! Splitting a verb phrase into its head word and the rest.
//!
//! The head is the substring up to (not including) the first whitespace
//! character; the tail is everything from that character on, kept verbatim so
//! that `head + tail` reassembles the input exactly.

use vstd::prelude::*;

verus! {

/// The Unicode `White_Space` code points, the characters that end the head.
pub open spec fn is_space(c: char) -> bool {
    let u = c as u32;
    u == 0x09 || u == 0x0A || u == 0x0B || u == 0x0C || u == 0x0D || u == 0x20 || u == 0x85
        || u == 0xA0 || u == 0x1680 || (0x2000 <= u && u <= 0x200A) || u == 0x2028 || u == 0x2029
        || u == 0x202F || u == 0x205F || u == 0x3000
}

fn space_char(c: char) -> (b: bool)
    ensures
        b == is_space(c),
{
    let u = c as u32;
    u == 0x09 || u == 0x0A || u == 0x0B || u == 0x0C || u == 0x0D || u == 0x20 || u == 0x85
        || u == 0xA0 || u == 0x1680 || (0x2000 <= u && u <= 0x200A) || u == 0x2028 || u == 0x2029
        || u == 0x202F || u == 0x205F || u == 0x3000
}

/// Index of the first whitespace character of `s`, or `s.len()` if none.
pub open spec fn first_break(s: Seq<char>) -> int
    decreases s.len(),
{
    if s.len() == 0 {
        0
    } else if is_space(s[0]) {
        0
    } else {
        1 + first_break(s.drop_first())
    }
}

/// `first_break` is the least index holding a whitespace character.
pub proof fn lemma_first_break(s: Seq<char>)
    ensures
        0 <= first_break(s) <= s.len(),
        forall|i: int| 0 <= i < first_break(s) ==> !is_space(s[i]),
        first_break(s) < s.len() ==> is_space(s[first_break(s)]),
    decreases s.len(),
{
    if s.len() != 0 && !is_space(s[0]) {
        lemma_first_break(s.drop_first());
        assert forall|i: int| 0 <= i < first_break(s) implies !is_space(s[i]) by {
            if i > 0 {
                assert(s[i] == s.drop_first()[i - 1]);
            }
        }
        if first_break(s) < s.len() {
            assert(s[first_break(s)] == s.drop_first()[first_break(s) - 1]);
        }
    }
}

/// The head word of a phrase: everything before the first whitespace.
pub open spec fn head_of(s: Seq<char>) -> Seq<char> {
    s.subrange(0, first_break(s))
}

/// The tail of a phrase: everything from the first whitespace on, verbatim.
pub open spec fn tail_of(s: Seq<char>) -> Seq<char> {
    s.subrange(first_break(s), s.len() as int)
}

/// The split loses and adds nothing: head and tail reassemble the input.
pub proof fn lemma_head_tail(s: Seq<char>)
    ensures
        head_of(s) + tail_of(s) == s,
{
    lemma_first_break(s);
    assert(head_of(s) + tail_of(s) =~= s);
}

/// A phrase without whitespace is all head: the tail is empty.
pub proof fn lemma_split_no_whitespace(s: Seq<char>)
    requires
        forall|i: int| 0 <= i < s.len() ==> !is_space(s[i]),
    ensures
        head_of(s) == s,
        tail_of(s) == Seq::<char>::empty(),
{
    lemma_first_break(s);
    if first_break(s) < s.len() {
        assert(is_space(s[first_break(s)]));
    }
    assert(head_of(s) =~= s);
    assert(tail_of(s) =~= Seq::<char>::empty());
}

/// Splits a phrase at its first whitespace character: `("give up")` becomes
/// `("give", " up")`, a single word keeps an empty tail.
pub fn split_phrase(s: &str) -> (r: (String, String))
    requires
        s@.len() >= 1,
    ensures
        r.0@ == head_of(s@),
        r.1@ == tail_of(s@),
        r.0@ + r.1@ == s@,
{
    let n = s.unicode_len();
    let mut i: usize = 0;
    while i < n && !space_char(s.get_char(i))
        invariant
            0 <= i <= n,
            n == s@.len(),
            forall|j: int| 0 <= j < i ==> !is_space(s@[j]),
        decreases n - i,
    {
        i += 1;
    }
    proof {
        lemma_first_break(s@);
        if i < n {
            assert(is_space(s@[i as int]));
        }
        // i and first_break are both the least whitespace index, so they agree
        if i < first_break(s@) {
            assert(!is_space(s@[i as int]));
        }
        if first_break(s@) < i {
            assert(!is_space(s@[first_break(s@)]));
        }
        assert(i == first_break(s@));
        lemma_head_tail(s@);
    }
    let head = s.substring_char(0, i).to_owned();
    let tail = s.substring_char(i, n).to_owned();
    (head, tail)
}

} // verus!
