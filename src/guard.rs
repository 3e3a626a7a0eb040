//! The pass-through to the policy engine: evaluate a document against rule
//! text, then read the engine's report as structured data.
use vstd::prelude::*;

verus! {

#[verifier::external_type_specification]
#[verifier::external_body]
pub struct ExValue(serde_json::Value);

/// What a text parses to as JSON: the structured value, or the parser's error
/// message where the text is not JSON.
pub uninterp spec fn json_parse(text: Seq<char>) -> Result<serde_json::Value, Seq<char>>;

/// The label under which the document is handed to the engine.
pub const DATA_LABEL: &'static str = "body";

/// Relies on cfn_guard::run_checks (the engine's validate-and-report entry
/// point) for the report on a document and a rule text, or the text of its
/// error. Nothing is assumed of what it returns: the order of some entries of
/// a report follows a hash seed drawn anew in each map.
#[verifier::external_body]
fn run_guard(data: &str, data_label: &str, rules: &str, rules_label: &str, verbose: bool) -> Result<
    String,
    String,
> {
    match cfn_guard::run_checks(
        cfn_guard::ValidateInput { content: data, file_name: data_label },
        cfn_guard::ValidateInput { content: rules, file_name: rules_label },
        verbose,
    ) {
        Ok(t) => Ok(t),
        Err(e) => Err(e.to_string()),
    }
}

/// A parse result as plain values.
pub open spec fn verdict_model(r: Result<serde_json::Value, String>) -> Result<serde_json::Value, Seq<char>> {
    match r {
        Ok(v) => Ok(v),
        Err(e) => Err(e@),
    }
}

/// An outcome of the engine as plain values.
pub open spec fn outcome_model(o: Result<String, String>) -> Result<Seq<char>, Seq<char>> {
    match o {
        Ok(t) => Ok(t@),
        Err(e) => Err(e@),
    }
}

/// Relies on serde_json::from_str into serde_json::Value: the value, or the
/// error's message, depends on the text alone.
#[verifier::external_body]
pub(crate) fn parse_json(text: &str) -> (r: Result<serde_json::Value, String>)
    ensures
        verdict_model(r) == json_parse(text@),
{
    match serde_json::from_str::<serde_json::Value>(text) {
        Ok(v) => Ok(v),
        Err(e) => Err(e.to_string()),
    }
}

/// The report of the engine, or, where the engine failed, its error message.
pub open spec fn report_text(outcome: Result<Seq<char>, Seq<char>>) -> Seq<char> {
    match outcome {
        Ok(t) => t,
        Err(e) => e,
    }
}

/// Folds the engine's outcome into one text: an error message of the engine
/// stands in the place of a report.
pub fn report_of(outcome: Result<String, String>) -> (r: String)
    ensures
        r@ == report_text(outcome_model(outcome)),
{
    match outcome {
        Ok(t) => t,
        Err(e) => e,
    }
}

/// Reads what the engine returned as JSON: its report, or, where it failed,
/// the text of its error. `Err` with the parser's message where that text is
/// not JSON.
pub fn read_verdict(outcome: Result<String, String>) -> (r: Result<serde_json::Value, String>)
    ensures
        verdict_model(r) == json_parse(report_text(outcome_model(outcome))),
{
    let text = report_of(outcome);
    parse_json(text.as_str())
}

/// Evaluates `data` against the rule text `rule`, labelled `rule_name`, and
/// reads what the engine returned as JSON (see `read_verdict`). Whatever the
/// engine returned, the result is what the parser gives on some text: a JSON
/// value, or the parser's message on a text that is not JSON.
pub fn call_cfn_guard(data: String, rule: String, verbose: bool, rule_name: String) -> (r: Result<
    serde_json::Value,
    String,
>)
    ensures
        exists|report: Seq<char>| verdict_model(r) == #[trigger] json_parse(report),
{
    let outcome = run_guard(data.as_str(), DATA_LABEL, rule.as_str(), rule_name.as_str(), verbose);
    let ghost report = report_text(outcome_model(outcome));
    let r = read_verdict(outcome);
    assert(verdict_model(r) == json_parse(report));
    r
}

} // verus!
