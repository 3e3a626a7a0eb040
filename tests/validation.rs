use guard_api::guard::{read_verdict, report_of};
use guard_api::handlers::{verdict_output, MISSING_RULE};
use guard_api::resolve::resolve_rule_names;
use guard_api::{
    call_cfn_guard, resolve, validate, validate_manifest, Manifest, Request, ResultError,
    RuleStore,
};

const DATA: &str = r#"{"Resources":{"bucket":{"Type":"AWS::S3::Bucket"}}}"#;
const PASSING_RULE: &str = "rule bucket_type {\n  Resources.*.Type == \"AWS::S3::Bucket\"\n}\n";
const FAILING_RULE: &str = "rule queue_type {\n  Resources.*.Type == \"AWS::SQS::Queue\"\n}\n";
const BROKEN_RULE: &str = "rule broken {\n  Resources.*.Type ==\n";

fn s(t: &str) -> String {
    t.to_string()
}

fn store() -> RuleStore {
    RuleStore::from_entries(vec![
        (s("a"), s(PASSING_RULE)),
        (s("b"), s(FAILING_RULE)),
        (s("broken"), s(BROKEN_RULE)),
    ])
}

fn manifest(name: &str, names: Option<Vec<&str>>, rule: Option<&str>) -> Manifest {
    Manifest {
        name: s(name),
        data: s(DATA),
        rules_names: names.map(|v| v.into_iter().map(s).collect()),
        rule: rule.map(s),
    }
}

fn diagnostic() -> serde_json::Value {
    serde_json::from_str(
        "{\"error\": \"Manifest without request or local rule, skipping validation\"}",
    )
    .unwrap()
}

#[test]
fn store_lookup_finds_stored_text() {
    let st = store();
    assert_eq!(st.lookup(&s("a")), Some(s(PASSING_RULE)));
    assert_eq!(st.lookup(&s("missing")), None);
    assert!(st.contains(&s("b")));
    assert!(!st.contains(&s("c")));
}

#[test]
fn store_last_entry_wins() {
    let st = RuleStore::from_entries(vec![(s("x"), s("first")), (s("x"), s("second"))]);
    assert_eq!(st.lookup(&s("x")), Some(s("second")));
    let mut st2 = RuleStore::new();
    st2.insert(s("y"), s("one"));
    st2.insert(s("y"), s("two"));
    assert_eq!(st2.lookup(&s("y")), Some(s("two")));
}

#[test]
fn empty_store_resolves_no_names() {
    let st = RuleStore::new();
    assert!(resolve(&manifest("m", Some(vec!["a"]), None), &st).is_none());
    let inline = resolve(&manifest("m", None, Some("r")), &st).unwrap();
    assert_eq!(inline.text, "r");
}

#[test]
fn two_names_join_texts_and_identifier() {
    let st = RuleStore::from_entries(vec![(s("a"), s("A\n")), (s("b"), s("B\n"))]);
    let r = resolve(&manifest("m", Some(vec!["a", "b"]), None), &st).unwrap();
    assert_eq!(r.text, "A\nB\n");
    assert_eq!(r.identifier, "a/b/");
    let r2 = resolve_rule_names(&vec![s("b"), s("a")], &st).unwrap();
    assert_eq!(r2.text, "B\nA\n");
    assert_eq!(r2.identifier, "b/a/");
}

#[test]
fn missing_name_fails_closed() {
    let st = store();
    assert!(resolve(&manifest("m", Some(vec!["a", "nope"]), None), &st).is_none());
    assert!(resolve(&manifest("m", Some(vec!["nope", "a"]), None), &st).is_none());
    let with_missing = validate_manifest(&manifest("m", Some(vec!["a", "nope"]), None), &st, false).unwrap();
    let unspecified = validate_manifest(&manifest("m", None, None), &st, false).unwrap();
    assert_eq!(with_missing.name, "m");
    assert_eq!(with_missing.result, unspecified.result);
    assert_eq!(with_missing.result, diagnostic());
}

#[test]
fn names_take_precedence_over_inline_rule() {
    let st = store();
    let r = resolve(&manifest("m", Some(vec!["b"]), Some(PASSING_RULE)), &st).unwrap();
    assert_eq!(r.text, FAILING_RULE);
    assert_eq!(r.identifier, "b/");
    assert!(resolve(&manifest("m", Some(vec!["nope"]), Some(PASSING_RULE)), &st).is_none());
}

#[test]
fn inline_rule_is_labelled_body() {
    let r = resolve(&manifest("m", None, Some(PASSING_RULE)), &store()).unwrap();
    assert_eq!(r.text, PASSING_RULE);
    assert_eq!(r.identifier, "body");
}

#[test]
fn empty_names_list_is_unspecified() {
    let st = store();
    assert!(resolve(&manifest("m", Some(vec![]), None), &st).is_none());
    let empty = validate_manifest(&manifest("m", Some(vec![]), None), &st, false).unwrap();
    let unspecified = validate_manifest(&manifest("m", None, None), &st, false).unwrap();
    assert_eq!(empty.result, unspecified.result);
}

#[test]
fn diagnostic_value_is_error_object() {
    let d = ResultError::missing_rule();
    assert_eq!(d.error, MISSING_RULE);
    assert_eq!(d.to_value(), diagnostic());
}

#[test]
fn report_of_passes_engine_error_on_as_text() {
    assert_eq!(report_of(Ok(s("{}"))), "{}");
    assert_eq!(report_of(Err(s("bad rule"))), "bad rule");
}

#[test]
fn verdict_output_maps_failure_to_fault() {
    let v: serde_json::Value = serde_json::from_str("[1]").unwrap();
    let out = verdict_output(s("m"), Ok(v.clone())).unwrap();
    assert_eq!(out.name, "m");
    assert_eq!(out.result, v);
    assert!(verdict_output(s("m"), Err(s("not json"))).is_none());
}

#[test]
fn engine_passes_compliant_document() {
    let v = call_cfn_guard(s(DATA), s(PASSING_RULE), false, s("body")).unwrap();
    assert_eq!(v["status"], "PASS");
    let compliant: serde_json::Value = serde_json::from_str("[\"bucket_type\"]").unwrap();
    assert_eq!(v["compliant"], compliant);
}

#[test]
fn engine_fails_noncompliant_document() {
    let v = call_cfn_guard(s(DATA), s(FAILING_RULE), false, s("b/")).unwrap();
    assert_eq!(v["status"], "FAIL");
}

#[test]
fn engine_error_on_broken_rule_is_a_fault() {
    assert!(call_cfn_guard(s(DATA), s(BROKEN_RULE), false, s("body")).is_err());
}

#[test]
fn batch_keeps_input_order() {
    let st = store();
    let req = Request {
        verbose: false,
        manifests: vec![
            manifest("first", None, None),
            manifest("second", None, Some(PASSING_RULE)),
            manifest("third", Some(vec!["b"]), None),
            manifest("fourth", Some(vec!["a", "missing"]), None),
        ],
    };
    let resp = validate(&req, &st).ok().unwrap();
    let names: Vec<&str> = resp.results.iter().map(|o| o.name.as_str()).collect();
    assert_eq!(names, vec!["first", "second", "third", "fourth"]);
    assert_eq!(resp.results[0].result, diagnostic());
    assert_eq!(resp.results[1].result["status"], "PASS");
    assert_eq!(resp.results[2].result["status"], "FAIL");
    assert_eq!(resp.results[3].result, diagnostic());
}

#[test]
fn empty_batch_is_complete() {
    let req = Request { verbose: false, manifests: vec![] };
    let resp = validate(&req, &store()).ok().unwrap();
    assert!(resp.results.is_empty());
}

#[test]
fn engine_fault_aborts_batch() {
    let st = store();
    let req = Request {
        verbose: false,
        manifests: vec![
            manifest("one", Some(vec!["a"]), None),
            manifest("two", Some(vec!["broken"]), None),
            manifest("three", None, Some(PASSING_RULE)),
        ],
    };
    let partial = validate(&req, &st).err().unwrap();
    assert_eq!(partial.results.len(), 1);
    assert_eq!(partial.results[0].name, "one");
    assert_eq!(partial.results[0].result["status"], "PASS");
}

#[test]
fn validation_is_idempotent() {
    let st = store();
    let req = Request {
        verbose: true,
        manifests: vec![
            manifest("x", Some(vec!["a", "b"]), None),
            manifest("y", None, None),
        ],
    };
    let first = validate(&req, &st).ok().unwrap();
    let second = validate(&req, &st).ok().unwrap();
    assert_eq!(first.results.len(), 2);
    for (a, b) in first.results.iter().zip(second.results.iter()) {
        assert_eq!(a.name, b.name);
        assert_eq!(a.result, b.result);
    }
}

#[test]
fn read_verdict_parses_report_or_error_text() {
    let v = read_verdict(Ok(s("{\"status\": \"PASS\"}"))).unwrap();
    assert_eq!(v["status"], "PASS");
    let from_error = read_verdict(Err(s("[2]"))).unwrap();
    assert_eq!(from_error, serde_json::from_str::<serde_json::Value>("[2]").unwrap());
    let e1 = read_verdict(Err(s("rule did not parse"))).unwrap_err();
    let e2 = read_verdict(Err(s("rule did not parse"))).unwrap_err();
    assert!(!e1.is_empty());
    assert_eq!(e1, e2);
}

#[test]
fn empty_inline_rule_is_an_engine_fault() {
    let st = store();
    let req = Request {
        verbose: false,
        manifests: vec![
            manifest("one", None, None),
            manifest("two", None, Some("")),
            manifest("three", None, None),
        ],
    };
    let partial = validate(&req, &st).err().unwrap();
    assert_eq!(partial.results.len(), 1);
    assert_eq!(partial.results[0].result, diagnostic());
}
