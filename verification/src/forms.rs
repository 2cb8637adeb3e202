//! Building the resolved `Verb` record from a head, a tail and, when the
//! dictionary supplied one, an inflection record.
//!
//! With a record, the past simple is the record's past simple plus the tail;
//! the participle likewise, except that a participle ending in "ing" (a
//! progressive spelling used as a placeholder by the dictionary source)
//! collapses to the past simple. Without a record, a deterministic rule
//! suffixes "d" to a head ending in "e" and "ed" to any other head, and the
//! participle equals that same form.

use vstd::prelude::*;
use vstd::string::StrSliceExecFns;
use vstd::string::StringExecFns;

use crate::inflection::InflectionRecord;
use crate::inflection::RecordView;

verus! {

/// The resolved forms of a verb phrase.
#[derive(Debug, PartialEq, Eq)]
pub struct Verb {
    pub present: String,
    pub past_simple: String,
    pub past_part: String,
    pub asterisked: String,
}

#[verifier::ext_equal]
pub ghost struct VerbView {
    pub present: Seq<char>,
    pub past_simple: Seq<char>,
    pub past_part: Seq<char>,
    pub asterisked: Seq<char>,
}

impl View for Verb {
    type V = VerbView;

    open spec fn view(&self) -> VerbView {
        VerbView {
            present: self.present@,
            past_simple: self.past_simple@,
            past_part: self.past_part@,
            asterisked: self.asterisked@,
        }
    }
}

/// Whether `s` ends in the letter 'e'.
pub open spec fn ends_in_e(s: Seq<char>) -> bool {
    s.len() >= 1 && s[s.len() - 1] == 'e'
}

/// Whether `s` ends in the letters "ing".
pub open spec fn ends_in_ing(s: Seq<char>) -> bool {
    s.len() >= 3 && s[s.len() - 3] == 'i' && s[s.len() - 2] == 'n' && s[s.len() - 1] == 'g'
}

/// The display form that stars the head within the phrase: `*head*tail`.
pub open spec fn asterisked_of(head: Seq<char>, tail: Seq<char>) -> Seq<char> {
    "*"@ + head + "*"@ + tail
}

/// The regular past form: "d" after a final 'e', "ed" otherwise, tail kept.
pub open spec fn fallback_past(head: Seq<char>, tail: Seq<char>) -> Seq<char> {
    if ends_in_e(head) {
        head + "d"@ + tail
    } else {
        head + "ed"@ + tail
    }
}

/// The verb built by the fallback rule alone: past simple and past
/// participle coincide.
pub open spec fn verb_fallback(s: Seq<char>, head: Seq<char>, tail: Seq<char>) -> VerbView {
    VerbView {
        present: s,
        past_simple: fallback_past(head, tail),
        past_part: fallback_past(head, tail),
        asterisked: asterisked_of(head, tail),
    }
}

/// The verb built from dictionary data: a participle ending in "ing"
/// collapses to the past simple.
pub open spec fn verb_with_record(
    s: Seq<char>,
    head: Seq<char>,
    tail: Seq<char>,
    rec: RecordView,
) -> VerbView {
    VerbView {
        present: s,
        past_simple: rec.past_simple + tail,
        past_part: if ends_in_ing(rec.past_part) {
            rec.past_simple + tail
        } else {
            rec.past_part + tail
        },
        asterisked: asterisked_of(head, tail),
    }
}

fn ends_e(s: &str) -> (b: bool)
    ensures
        b == ends_in_e(s@),
{
    let n = s.unicode_len();
    n >= 1 && s.get_char(n - 1) == 'e'
}

fn ends_ing(s: &str) -> (b: bool)
    ensures
        b == ends_in_ing(s@),
{
    let n = s.unicode_len();
    n >= 3 && s.get_char(n - 3) == 'i' && s.get_char(n - 2) == 'n' && s.get_char(n - 1) == 'g'
}

fn asterisked(head: &str, tail: &str) -> (r: String)
    ensures
        r@ == asterisked_of(head@, tail@),
{
    String::from_str("*").concat(head).concat("*").concat(tail)
}

/// The fallback verb for a phrase already split into `head` and `tail`:
/// regular "d"/"ed" suffixation, with the participle equal to the past.
pub fn default_verb(s: &str, head: &str, tail: &str) -> (v: Verb)
    ensures
        v@ == verb_fallback(s@, head@, tail@),
{
    let past_simple = if ends_e(head) {
        head.to_owned().concat("d").concat(tail)
    } else {
        head.to_owned().concat("ed").concat(tail)
    };
    let past_part = past_simple.clone();
    Verb { present: s.to_owned(), past_simple, past_part, asterisked: asterisked(head, tail) }
}

/// The verb built from a dictionary inflection record for the split phrase.
pub fn build_verb(s: &str, head: &str, tail: &str, rec: &InflectionRecord) -> (v: Verb)
    ensures
        v@ == verb_with_record(s@, head@, tail@, rec@),
{
    let past_simple = rec.past_simple.clone().concat(tail);
    let past_part = if ends_ing(rec.past_part.as_str()) {
        past_simple.clone()
    } else {
        rec.past_part.clone().concat(tail)
    };
    Verb { present: s.to_owned(), past_simple, past_part, asterisked: asterisked(head, tail) }
}

} // verus!
