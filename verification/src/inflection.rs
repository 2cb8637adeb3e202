//! Inflection data for a verb head, as obtained from a dictionary source.
//!
//! The raw dictionary strings may carry asterisks marking syllable breaks;
//! a record holds the forms with every asterisk stripped.

use vstd::prelude::*;

verus! {

/// A pair of inflected forms for a verb head: past simple and past
/// participle, in that order, each free of asterisks.
pub struct InflectionRecord {
    pub past_simple: String,
    pub past_part: String,
}

#[verifier::ext_equal]
pub ghost struct RecordView {
    pub past_simple: Seq<char>,
    pub past_part: Seq<char>,
}

impl View for InflectionRecord {
    type V = RecordView;

    open spec fn view(&self) -> RecordView {
        RecordView { past_simple: self.past_simple@, past_part: self.past_part@ }
    }
}

impl InflectionRecord {
    /// A record is well formed when no asterisk is left in either form.
    pub open spec fn wf(&self) -> bool {
        !self@.past_simple.contains('*') && !self@.past_part.contains('*')
    }
}

/// The characters of `s` with every asterisk removed, in order.
pub open spec fn strip_spec(s: Seq<char>) -> Seq<char> {
    s.filter(|c: char| c != '*')
}

/// Stripping leaves no asterisk behind.
pub proof fn lemma_strip_no_asterisk(s: Seq<char>)
    ensures
        !strip_spec(s).contains('*'),
{
    broadcast use vstd::seq_lib::group_filter_ensures;

    assert forall|i: int| 0 <= i < strip_spec(s).len() implies strip_spec(s)[i] != '*' by {
        assert((|c: char| c != '*')(strip_spec(s)[i]));
    }
}

/// Removes every asterisk character from `s`.
pub fn strip_asterisks(s: &str) -> (r: String)
    ensures
        r@ == strip_spec(s@),
{
    let n = s.unicode_len();
    let mut r = String::new();
    let mut i: usize = 0;
    while i < n
        invariant
            0 <= i <= n,
            n == s@.len(),
            r@ == strip_spec(s@.subrange(0, i as int)),
        decreases n - i,
    {
        let c = s.get_char(i);
        proof {
            reveal(Seq::filter);
            let pre = s@.subrange(0, i as int);
            let cur = s@.subrange(0, i + 1);
            assert(cur.drop_last() =~= pre);
            assert(cur.last() == s@[i as int]);
        }
        if c != '*' {
            r.append(s.substring_char(i, i + 1));
            proof {
                assert(s@.subrange(i as int, i + 1) =~= seq![s@[i as int]]);
                assert(r@ =~= strip_spec(s@.subrange(0, i + 1)));
            }
        }
        i += 1;
    }
    proof {
        assert(s@.subrange(0, n as int) =~= s@);
    }
    r
}

} // verus!
