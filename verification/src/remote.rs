//! Reading a dictionary response body into entries.
//!
//! The body is JSON: an ordered array of entry objects, each with a
//! part-of-speech field `"fl"` and a list `"ins"` of inflection objects
//! carrying the raw form under `"if"`. serde_json does the parsing and the
//! traversal of its `Value` tree; what that yields for a given body is a
//! function of the body text alone, named `entries_of`, and everything the
//! resolution then decides on is handed over as plain strings in
//! `DictEntry` values, where `select_record` does the checked work.

use vstd::prelude::*;

use crate::dictionary::DictEntry;
use crate::dictionary::DictEntryView;

verus! {

/// The entries a dictionary response body parses to: `None` where the body
/// is not a JSON array, otherwise one entry per array element, a field
/// absent where the JSON does not carry it as a string. Uninterpreted: it
/// names what `read_entries` returns, which depends on the body alone.
pub uninterp spec fn entries_of(s: Seq<char>) -> Option<Seq<DictEntryView>>;

/// Relies on serde_json::from_str and Value::as_array, Value::get and
/// Value::as_str: the body parses to a JSON document or fails, an array's
/// elements are read in order, `get` yields an object's value at a key or
/// `None`, `as_str` the content of a string value or `None`. Each is a
/// function of its argument alone, so the whole read returns one value per
/// body, named `entries_of(body@)`.
#[verifier::external_body]
fn read_entries(body: &str) -> (r: Option<Vec<DictEntry>>)
    ensures
        r.deep_view() == entries_of(body@),
{
    let doc: serde_json::Value = serde_json::from_str(body).ok()?;
    let entries: Vec<DictEntry> = doc
        .as_array()?
        .iter()
        .map(|e| DictEntry {
            fl: e.get("fl").and_then(|f| f.as_str()).map(str::to_string),
            ins: e.get("ins").and_then(|l| l.as_array()).map(|list| {
                list.iter()
                    .map(|i| i.get("if").and_then(|f| f.as_str()).map(str::to_string))
                    .collect()
            }),
        })
        .collect();
    Some(entries)
}

/// The entries of a response body, exactly `entries_of(body@)`: `None` when
/// the body is not a JSON array, and any missing or non-string field within
/// an entry an absent field of its `DictEntry`, on which `select_record`
/// decides with a proved contract.
pub fn parse_entries(body: &str) -> (r: Option<Vec<DictEntry>>)
    ensures
        r.deep_view() == entries_of(body@),
{
    read_entries(body)
}

} // verus!
