//! Resolves the past-simple and past-participle forms of an English verb,
//! optionally followed by a particle ("give up"). Inflection data may come
//! from a dictionary service's JSON response; when none is available a
//! deterministic orthographic rule supplies regular forms.

pub mod dictionary;
pub mod forms;
pub mod inflection;
pub mod phrase;
pub mod remote;

pub use dictionary::DictEntry;
pub use dictionary::select_record;
pub use forms::Verb;
pub use forms::build_verb;
pub use forms::default_verb;
pub use inflection::InflectionRecord;
pub use inflection::strip_asterisks;
pub use phrase::split_phrase;
pub use remote::entries_of;
pub use remote::parse_entries;

use vstd::prelude::*;

use crate::dictionary::DictEntryView;
use crate::dictionary::select_spec;
use crate::forms::VerbView;
use crate::forms::verb_fallback;
use crate::forms::verb_with_record;
use crate::phrase::head_of;
use crate::phrase::tail_of;

verus! {

/// The verb a phrase resolves to, given the entries of a dictionary
/// response, or `None` where no usable response was obtained.
pub open spec fn resolve_spec(s: Seq<char>, es: Option<Seq<DictEntryView>>) -> VerbView {
    let head = head_of(s);
    let tail = tail_of(s);
    match es {
        Option::None => verb_fallback(s, head, tail),
        Option::Some(entries) => match select_spec(entries) {
            Option::None => verb_fallback(s, head, tail),
            Option::Some(rec) => verb_with_record(s, head, tail, rec),
        },
    }
}

/// Every resolution keeps the whole input, unchanged, as its present form.
pub proof fn lemma_present_preserved(s: Seq<char>, es: Option<Seq<DictEntryView>>)
    ensures
        resolve_spec(s, es).present == s,
{
}

/// Resolution is a function of the phrase and the remote data alone: two
/// calls that see the same phrase and the same entries yield the same verb.
pub proof fn lemma_resolve_deterministic(
    s: Seq<char>,
    es: Option<Seq<DictEntryView>>,
    v1: VerbView,
    v2: VerbView,
)
    requires
        v1 == resolve_spec(s, es),
        v2 == resolve_spec(s, es),
    ensures
        v1 == v2,
{
}

/// The view of the optional entries handed to `resolve`.
pub open spec fn entries_view(entries: Option<&Vec<DictEntry>>) -> Option<Seq<DictEntryView>> {
    match entries {
        Option::Some(v) => Option::Some(v.deep_view()),
        Option::None => Option::None,
    }
}

/// Resolves a phrase against already-parsed dictionary entries: the head is
/// looked up in the entries, and where they yield no record the regular
/// "d"/"ed" rule supplies the forms.
pub fn resolve(s: &str, entries: Option<&Vec<DictEntry>>) -> (v: Verb)
    requires
        s@.len() >= 1,
    ensures
        v@ == resolve_spec(s@, entries_view(entries)),
{
    let (head, tail) = split_phrase(s);
    match entries {
        Option::None => default_verb(s, head.as_str(), tail.as_str()),
        Option::Some(es) => match select_record(es) {
            Option::None => default_verb(s, head.as_str(), tail.as_str()),
            Option::Some(rec) => build_verb(s, head.as_str(), tail.as_str(), &rec),
        },
    }
}

/// Resolves a phrase against the raw body of a dictionary response, or
/// against none where the service was unreachable or the credential absent.
/// The result is a function of the phrase and the body alone: the entries
/// the body parses to decide it; with no body at all the fallback rule
/// decides, with no further work that could block.
pub fn lookup_with_body(s: &str, body: Option<&str>) -> (v: Verb)
    requires
        s@.len() >= 1,
    ensures
        v@.present == s@,
        body matches Option::None ==> v@ == resolve_spec(s@, Option::None),
        body matches Option::Some(text) ==> v@ == resolve_spec(s@, entries_of(text@)),
{
    match body {
        Option::None => resolve(s, Option::None),
        Option::Some(text) => match parse_entries(text) {
            Option::None => {
                proof {
                    assert(entries_of(text@) is None);
                }
                resolve(s, Option::None)
            },
            Option::Some(entries) => {
                let v = resolve(s, Option::Some(&entries));
                proof {
                    assert(entries_of(text@) == Option::Some(entries.deep_view()));
                    assert(v@ == resolve_spec(s@, entries_view(Option::Some(&entries))));
                }
                v
            },
        },
    }
}

} // verus!
