use verb_resolver::DictEntry;
use verb_resolver::InflectionRecord;
use verb_resolver::Verb;
use verb_resolver::build_verb;
use verb_resolver::default_verb;
use verb_resolver::lookup_with_body;
use verb_resolver::parse_entries;
use verb_resolver::select_record;
use verb_resolver::split_phrase;
use verb_resolver::strip_asterisks;

#[test]
fn record_works() {
    let res: Verb = lookup_with_body("give", None);
    println!("Give:\n{:#?}", res);
    let res13: Verb = lookup_with_body("plan", None);
    println!("Plan:\n{:#?}", res13);
}

#[test]
fn present_always_preserved() {
    for s in ["give", "give up", "wug", "wuge up", "  odd  input "] {
        assert_eq!(lookup_with_body(s, None).present, s);
    }
    let body = "[{\"fl\":\"verb\",\"ins\":[{\"if\":\"took\"},{\"if\":\"tak*en\"}]}]";
    assert_eq!(lookup_with_body("take off", Some(body)).present, "take off");
}

#[test]
fn splitter_single_word() {
    let (head, tail) = split_phrase("wug");
    assert_eq!(head, "wug");
    assert_eq!(tail, "");
    let (head, tail) = split_phrase("antidisestablishmentarianism");
    assert_eq!(head, "antidisestablishmentarianism");
    assert_eq!(tail, "");
}

#[test]
fn splitter_phrase() {
    let (head, tail) = split_phrase("give up");
    assert_eq!(head, "give");
    assert_eq!(tail, " up");
    let (head, tail) = split_phrase("get in line");
    assert_eq!(head, "get");
    assert_eq!(tail, " in line");
}

#[test]
fn fallback_head_not_ending_in_e() {
    let v = lookup_with_body("wug", None);
    assert_eq!(v.present, "wug");
    assert_eq!(v.past_simple, "wuged");
    assert_eq!(v.past_part, "wuged");
    assert_eq!(v.asterisked, "*wug*");
}

#[test]
fn fallback_head_ending_in_e() {
    let v = lookup_with_body("wuge", None);
    assert_eq!(v.past_simple, "wuged");
    assert_eq!(v.past_part, "wuged");
    assert_eq!(v.asterisked, "*wuge*");
}

#[test]
fn fallback_phrasal() {
    let v = lookup_with_body("wuge up", None);
    assert_eq!(v.past_simple, "wuged up");
    assert_eq!(v.past_part, "wuged up");
    assert_eq!(v.asterisked, "*wuge* up");
}

#[test]
fn remote_participle_ending_in_ing_collapses() {
    let body = "[{\"fl\":\"verb\",\"ins\":[{\"if\":\"g*a*ve\"},{\"if\":\"giving\"}]}]";
    let v = lookup_with_body("give", Some(body));
    assert_eq!(v.present, "give");
    assert_eq!(v.past_simple, "gave");
    assert_eq!(v.past_part, "gave");
    assert_eq!(v.asterisked, "*give*");
}

#[test]
fn remote_participle_distinct() {
    let body = "[{\"fl\":\"verb\",\"ins\":[{\"if\":\"took\"},{\"if\":\"tak*en\"}]}]";
    let v = lookup_with_body("take", Some(body));
    assert_eq!(v.past_simple, "took");
    assert_eq!(v.past_part, "taken");
    assert_eq!(v.asterisked, "*take*");
}

#[test]
fn remote_phrasal_reattaches_tail() {
    let body = "[{\"fl\":\"verb\",\"ins\":[{\"if\":\"g*a*ve\"},{\"if\":\"giving\"}]}]";
    let v = lookup_with_body("give up", Some(body));
    assert_eq!(v.past_simple, "gave up");
    assert_eq!(v.past_part, "gave up");
    assert_eq!(v.asterisked, "*give* up");
}

#[test]
fn lookup_idempotent() {
    let body = "[{\"fl\":\"verb\",\"ins\":[{\"if\":\"took\"},{\"if\":\"tak*en\"}]}]";
    let v1 = lookup_with_body("take off", Some(body));
    let v2 = lookup_with_body("take off", Some(body));
    assert_eq!(v1, v2);
    let w1 = lookup_with_body("wug", None);
    let w2 = lookup_with_body("wug", None);
    assert_eq!(w1, w2);
}

#[test]
fn absent_service_uses_fallback() {
    let v = lookup_with_body("plan ahead", None);
    assert_eq!(v.past_simple, "planed ahead");
    assert_eq!(v.past_part, "planed ahead");
    assert_eq!(v.asterisked, "*plan* ahead");
}

#[test]
fn malformed_body_falls_back() {
    let v = lookup_with_body("wug", Some("this is not json"));
    assert_eq!(v.past_simple, "wuged");
    let v = lookup_with_body("wug", Some("{\"fl\":\"verb\"}"));
    assert_eq!(v.past_simple, "wuged");
    let v = lookup_with_body("wug", Some("null"));
    assert_eq!(v.past_simple, "wuged");
}

#[test]
fn no_verb_entry_falls_back() {
    let body = "[{\"fl\":\"noun\",\"ins\":[{\"if\":\"wugs\"},{\"if\":\"wugging\"}]}]";
    let v = lookup_with_body("wug", Some(body));
    assert_eq!(v.past_simple, "wuged");
    assert_eq!(v.past_part, "wuged");
}

#[test]
fn verb_entry_in_second_position() {
    let body = "[{\"fl\":\"noun\"},{\"fl\":\"verb\",\"ins\":[{\"if\":\"took\"},{\"if\":\"tak*en\"}]}]";
    let v = lookup_with_body("take", Some(body));
    assert_eq!(v.past_simple, "took");
    assert_eq!(v.past_part, "taken");
}

#[test]
fn verb_entry_found_by_full_scan() {
    let body = "[{\"fl\":\"noun\"},{\"fl\":\"adjective\"},{\"fl\":\"verb\",\"ins\":[{\"if\":\"took\"},{\"if\":\"tak*en\"}]}]";
    let v = lookup_with_body("take", Some(body));
    assert_eq!(v.past_simple, "took");
}

#[test]
fn verb_entry_without_inflections_falls_back() {
    let v = lookup_with_body("wug", Some("[{\"fl\":\"verb\"}]"));
    assert_eq!(v.past_simple, "wuged");
    let v = lookup_with_body("wug", Some("[{\"fl\":\"verb\",\"ins\":[{\"if\":\"wugged\"}]}]"));
    assert_eq!(v.past_simple, "wuged");
    let v = lookup_with_body("wug", Some("[{\"fl\":\"verb\",\"ins\":[{\"x\":1},{\"if\":\"a\"}]}]"));
    assert_eq!(v.past_simple, "wuged");
}

#[test]
fn strip_asterisks_examples() {
    assert_eq!(strip_asterisks("g*a*ve"), "gave");
    assert_eq!(strip_asterisks("took"), "took");
    assert_eq!(strip_asterisks("***"), "");
    assert_eq!(strip_asterisks(""), "");
}

#[test]
fn select_record_from_entries() {
    let entries = vec![
        DictEntry { fl: Some("noun".to_string()), ins: None },
        DictEntry {
            fl: Some("verb".to_string()),
            ins: Some(vec![Some("t*ook".to_string()), Some("tak*en".to_string())]),
        },
    ];
    let rec = select_record(&entries).unwrap();
    assert_eq!(rec.past_simple, "took");
    assert_eq!(rec.past_part, "taken");

    let none = select_record(&vec![DictEntry { fl: None, ins: None }]);
    assert!(none.is_none());
}

#[test]
fn parse_entries_reads_fields() {
    let body = "[{\"fl\":\"verb\",\"ins\":[{\"if\":\"took\"},{\"x\":0}]},{\"fl\":7}]";
    let entries = parse_entries(body).unwrap();
    assert_eq!(entries.len(), 2);
    assert_eq!(entries[0].fl.as_deref(), Some("verb"));
    let ins = entries[0].ins.as_ref().unwrap();
    assert_eq!(ins[0].as_deref(), Some("took"));
    assert!(ins[1].is_none());
    assert!(entries[1].fl.is_none());
    assert!(parse_entries("42").is_none());
}

#[test]
fn resolve_with_in_memory_entries() {
    let entries = vec![DictEntry {
        fl: Some("verb".to_string()),
        ins: Some(vec![Some("w*en*t".to_string()), Some("gone".to_string())]),
    }];
    let v = verb_resolver::resolve("go on", Some(&entries));
    assert_eq!(v.present, "go on");
    assert_eq!(v.past_simple, "went on");
    assert_eq!(v.past_part, "gone on");
    assert_eq!(v.asterisked, "*go* on");
    let w = verb_resolver::resolve("go on", None);
    assert_eq!(w.past_simple, "goed on");
}

#[test]
fn default_verb_builds_regular_forms() {
    let v = default_verb("have at", "have", " at");
    assert_eq!(v.present, "have at");
    assert_eq!(v.past_simple, "haved at");
    assert_eq!(v.past_part, "haved at");
    assert_eq!(v.asterisked, "*have* at");
}

#[test]
fn build_verb_from_record() {
    let rec = InflectionRecord { past_simple: "went".to_string(), past_part: "gone".to_string() };
    let v = build_verb("go", "go", "", &rec);
    assert_eq!(v.past_simple, "went");
    assert_eq!(v.past_part, "gone");
    assert_eq!(v.asterisked, "*go*");
}
