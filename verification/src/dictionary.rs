//! Selecting the inflection record from a dictionary response.
//!
//! A response is an ordered sequence of entries, each with an optional
//! part-of-speech label and an optional ordered list of raw inflected forms.
//! The record comes from the first entry labelled "verb"; when no entry is
//! so labelled, or the chosen entry lacks its first two inflections, there
//! is no record and the caller falls back to the regular rule. The entry is
//! found by a deliberate scan of the whole response — not by trusting a
//! fixed position — so a response with the verb entry anywhere, or nowhere,
//! is handled gracefully.

use vstd::prelude::*;
use vstd::string::StringExecFns;

use crate::inflection::InflectionRecord;
use crate::inflection::RecordView;
use crate::inflection::strip_asterisks;
use crate::inflection::strip_spec;

verus! {

/// One dictionary entry, reduced to the fields the resolution reads: its
/// part-of-speech label and its raw inflected forms, either absent when the
/// response did not carry them as strings.
pub struct DictEntry {
    pub fl: Option<String>,
    pub ins: Option<Vec<Option<String>>>,
}

#[verifier::ext_equal]
pub ghost struct DictEntryView {
    pub fl: Option<Seq<char>>,
    pub ins: Option<Seq<Option<Seq<char>>>>,
}

impl View for DictEntry {
    type V = DictEntryView;

    open spec fn view(&self) -> DictEntryView {
        DictEntryView { fl: self.fl.deep_view(), ins: self.ins.deep_view() }
    }
}

impl DeepView for DictEntry {
    type V = DictEntryView;

    open spec fn deep_view(&self) -> DictEntryView {
        self.view()
    }
}

/// Whether an entry is labelled with the part of speech "verb".
pub open spec fn is_verb_entry(e: DictEntryView) -> bool {
    e.fl == Some("verb"@)
}

/// The record an entry yields: its first two inflections, stripped of
/// asterisks, or nothing when the list or either form is absent.
pub open spec fn record_of_entry(e: DictEntryView) -> Option<RecordView> {
    match e.ins {
        Option::None => Option::None,
        Option::Some(ins) => if ins.len() < 2 {
            Option::None
        } else {
            match (ins[0], ins[1]) {
                (Option::Some(p0), Option::Some(p1)) => Option::Some(
                    RecordView { past_simple: strip_spec(p0), past_part: strip_spec(p1) },
                ),
                _ => Option::None,
            }
        },
    }
}

/// The record of the first entry labelled "verb", or nothing when no entry
/// is so labelled.
pub open spec fn select_spec(es: Seq<DictEntryView>) -> Option<RecordView>
    decreases es.len(),
{
    if es.len() == 0 {
        Option::None
    } else if is_verb_entry(es[0]) {
        record_of_entry(es[0])
    } else {
        select_spec(es.drop_first())
    }
}

/// The view of an optional record.
pub open spec fn record_view(r: Option<InflectionRecord>) -> Option<RecordView> {
    match r {
        Option::Some(rec) => Option::Some(rec@),
        Option::None => Option::None,
    }
}

fn is_verb_label(s: &String) -> (b: bool)
    ensures
        b == (s@ == "verb"@),
{
    let verb = String::from_str("verb");
    *s == verb
}

/// The record carried by the first entry of `entries` labelled "verb":
/// its first two inflections with asterisks stripped, or `None` when no
/// entry is labelled "verb" or the chosen entry lacks usable forms.
pub fn select_record(entries: &Vec<DictEntry>) -> (r: Option<InflectionRecord>)
    ensures
        record_view(r) == select_spec(entries.deep_view()),
        r matches Option::Some(rec) ==> rec.wf(),
{
    let ghost es = entries.deep_view();
    let n = entries.len();
    let mut i: usize = 0;
    proof {
        assert(es.skip(0) =~= es);
    }
    while i < n
        invariant
            0 <= i <= n,
            n == entries.len(),
            es == entries.deep_view(),
            es.len() == n,
            select_spec(es) == select_spec(es.skip(i as int)),
        decreases n - i,
    {
        proof {
            assert(es.skip(i as int).len() == n - i);
            assert(es.skip(i as int)[0] == es[i as int]);
            assert(es.skip(i as int).drop_first() =~= es.skip(i + 1));
            assert(es[i as int] == entries[i as int].deep_view());
        }
        let entry = &entries[i];
        let labelled_verb = match &entry.fl {
            Option::Some(label) => is_verb_label(label),
            Option::None => false,
        };
        if labelled_verb {
            proof {
                assert(is_verb_entry(es[i as int]));
                assert(select_spec(es) == record_of_entry(es[i as int]));
            }
            match &entry.ins {
                Option::None => {
                    return Option::None;
                },
                Option::Some(ins) => {
                    if ins.len() < 2 {
                        return Option::None;
                    }
                    proof {
                        assert(es[i as int].ins matches Option::Some(iv) && iv[0]
                            == ins@[0].deep_view() && iv[1] == ins@[1].deep_view());
                    }
                    match (&ins[0], &ins[1]) {
                        (Option::Some(p0), Option::Some(p1)) => {
                            let rec = InflectionRecord {
                                past_simple: strip_asterisks(p0.as_str()),
                                past_part: strip_asterisks(p1.as_str()),
                            };
                            proof {
                                crate::inflection::lemma_strip_no_asterisk(p0@);
                                crate::inflection::lemma_strip_no_asterisk(p1@);
                            }
                            return Option::Some(rec);
                        },
                        _ => {
                            return Option::None;
                        },
                    }
                },
            }
        }
        proof {
            assert(!is_verb_entry(es.skip(i as int)[0]));
        }
        i += 1;
    }
    proof {
        assert(es.skip(n as int).len() == 0);
    }
    Option::None
}

} // verus!
