//! Batch validation: each manifest in order is resolved and evaluated; a
//! manifest without a usable rule gets a diagnostic and the batch goes on,
//! while an engine fault ends the batch.
use vstd::prelude::*;
use crate::guard::{call_cfn_guard, json_parse, verdict_model};
use crate::resolve::{resolve, resolve_manifest, Manifest};
use crate::store::RuleStore;

verus! {

/// The diagnostic given to a manifest for which no rule could be resolved.
pub const MISSING_RULE: &'static str = "Manifest without request or local rule, skipping validation";

/// The key under which a diagnostic object carries its message.
pub const ERROR_KEY: &'static str = "error";

/// The JSON object with the one string member `key: value`.
pub uninterp spec fn json_string_object(key: Seq<char>, value: Seq<char>) -> serde_json::Value;

/// Relies on serde_json::Map::insert and the Value::Object and Value::String
/// constructors: the object depends on the key and value alone.
#[verifier::external_body]
fn string_object(key: String, value: String) -> (r: serde_json::Value)
    ensures
        r == json_string_object(key@, value@),
{
    let mut map = serde_json::Map::new();
    map.insert(key, serde_json::Value::String(value));
    serde_json::Value::Object(map)
}

/// A validation request: the verbosity flag and the manifests, in order.
pub struct Request {
    pub verbose: bool,
    pub manifests: Vec<Manifest>,
}

/// The result given for one manifest, under the manifest's name.
pub struct Output {
    pub name: String,
    pub result: serde_json::Value,
}

/// The results of a batch, in the order of its manifests.
pub struct Response {
    pub results: Vec<Output>,
}

/// A diagnostic given in place of a verdict.
pub struct ResultError {
    pub error: String,
}

impl Output {
    /// The result as a pair of plain values.
    pub open spec fn model(&self) -> (Seq<char>, serde_json::Value) {
        (self.name@, self.result)
    }
}

impl View for Response {
    type V = Seq<(Seq<char>, serde_json::Value)>;

    open spec fn view(&self) -> Seq<(Seq<char>, serde_json::Value)> {
        self.results@.map_values(|o: Output| o.model())
    }
}

/// The value of the diagnostic given where no rule was resolved.
pub open spec fn missing_rule_value() -> serde_json::Value {
    json_string_object(ERROR_KEY@, MISSING_RULE@)
}

impl ResultError {
    /// The diagnostic for a manifest whose rule could not be resolved.
    pub fn missing_rule() -> (r: ResultError)
        ensures
            r.error@ == MISSING_RULE@,
    {
        ResultError { error: String::from_str(MISSING_RULE) }
    }

    /// The diagnostic as a JSON object with its message under `error`.
    pub fn to_value(&self) -> (r: serde_json::Value)
        ensures
            r == json_string_object(ERROR_KEY@, self.error@),
    {
        string_object(String::from_str(ERROR_KEY), self.error.clone())
    }
}

/// What a manifest yields, given the text the engine returned for it (read
/// only where its rule resolves): its name with the diagnostic where its rule
/// does not resolve, else with the JSON value of that text; `None` (a fault of
/// the engine) where the text is not JSON.
pub open spec fn manifest_from_report(m: Manifest, store: Map<Seq<char>, Seq<char>>, report: Seq<char>) -> Option<
    (Seq<char>, serde_json::Value),
> {
    match resolve_manifest(m, store) {
        None => Some((m.name@, missing_rule_value())),
        Some(_) => match json_parse(report) {
            Ok(v) => Some((m.name@, v)),
            Err(_) => None,
        },
    }
}

/// The results of a batch, and whether it ran to its end, given the text
/// the engine returned for each manifest: manifests are taken in order, and
/// the first engine fault stops the batch with the results gathered before
/// it.
pub open spec fn batch_from_reports(
    ms: Seq<Manifest>,
    store: Map<Seq<char>, Seq<char>>,
    reports: Seq<Seq<char>>,
) -> (Seq<(Seq<char>, serde_json::Value)>, bool)
    decreases ms.len(),
{
    if ms.len() == 0 {
        (Seq::empty(), true)
    } else {
        let (done, complete) = batch_from_reports(ms.drop_last(), store, reports.drop_last());
        if !complete {
            (done, false)
        } else {
            match manifest_from_report(ms.last(), store, reports[ms.len() - 1]) {
                Some(o) => (done.push(o), true),
                None => (done, false),
            }
        }
    }
}

/// An output as plain values.
pub open spec fn output_model(r: Option<Output>) -> Option<(Seq<char>, serde_json::Value)> {
    match r {
        Some(o) => Some(o.model()),
        None => None,
    }
}

/// Once a batch has stopped at a fault, the manifests after it, and what the
/// engine returned for them, change nothing.
pub proof fn lemma_fault_ends_batch(
    ms: Seq<Manifest>,
    k: int,
    store: Map<Seq<char>, Seq<char>>,
    reports: Seq<Seq<char>>,
)
    requires
        0 <= k <= ms.len(),
        reports.len() == ms.len(),
        !batch_from_reports(ms.take(k), store, reports.take(k)).1,
    ensures
        batch_from_reports(ms, store, reports) == batch_from_reports(ms.take(k), store, reports.take(k)),
    decreases ms.len(),
{
    if ms.len() == k {
        assert(ms.take(k) =~= ms);
        assert(reports.take(k) =~= reports);
    } else {
        assert(ms.drop_last().take(k) =~= ms.take(k));
        assert(reports.drop_last().take(k) =~= reports.take(k));
        lemma_fault_ends_batch(ms.drop_last(), k, store, reports.drop_last());
    }
}

/// The output for a manifest given what its evaluation returned: the verdict
/// under the manifest's name, or `None` (a fault of the engine) where the
/// evaluation failed.
pub fn verdict_output(name: String, verdict: Result<serde_json::Value, String>) -> (r: Option<Output>)
    ensures
        match verdict {
            Ok(v) => r == Some(Output { name, result: v }),
            Err(_) => r is None,
        },
{
    match verdict {
        Ok(v) => Some(Output { name, result: v }),
        Err(_) => None,
    }
}

/// Validates one manifest: the diagnostic where its rule does not resolve,
/// else the engine's verdict; `None` where the engine faults. What the engine
/// returns is not fixed: the result is what some text returned by it gives.
pub fn validate_manifest(man: &Manifest, store: &RuleStore, verbose: bool) -> (r: Option<Output>)
    requires
        store.wf(),
    ensures
        exists|report: Seq<char>| #[trigger] manifest_from_report(*man, store@, report) == output_model(r),
{
    match resolve(man, store) {
        None => {
            let diagnostic = ResultError::missing_rule();
            let r = Some(Output { name: man.name.clone(), result: diagnostic.to_value() });
            assert(manifest_from_report(*man, store@, Seq::empty()) == output_model(r));
            r
        },
        Some(rule) => {
            let verdict = call_cfn_guard(man.data.clone(), rule.text, verbose, rule.identifier);
            let ghost report = choose|report: Seq<char>| verdict_model(verdict) == #[trigger] json_parse(report);
            let r = verdict_output(man.name.clone(), verdict);
            assert(manifest_from_report(*man, store@, report) == output_model(r));
            r
        },
    }
}

/// Validates the manifests of a request in order, one call of the engine for
/// each manifest whose rule resolves. The results are those of the batch for
/// some text returned by the engine for each manifest: `Ok` with one result
/// per manifest where every evaluation succeeded; `Err` with the results
/// before the first engine fault, where one faulted. Later manifests are not
/// evaluated.
pub fn validate(request: &Request, store: &RuleStore) -> (r: Result<Response, Response>)
    requires
        store.wf(),
    ensures
        exists|reports: Seq<Seq<char>>|
            {
                &&& reports.len() == request.manifests@.len()
                &&& #[trigger] batch_from_reports(request.manifests@, store@, reports) == match r {
                    Ok(resp) => (resp@, true),
                    Err(resp) => (resp@, false),
                }
            },
{
    let ghost ms = request.manifests@;
    let ghost mut reports: Seq<Seq<char>> = Seq::empty();
    let mut response = Response { results: Vec::new() };
    let mut i: usize = 0;
    while i < request.manifests.len()
        invariant
            store.wf(),
            ms == request.manifests@,
            i <= ms.len(),
            reports.len() == i,
            batch_from_reports(ms.take(i as int), store@, reports) == (response@, true),
        decreases ms.len() - i,
    {
        let o = validate_manifest(&request.manifests[i], store, request.verbose);
        let ghost t = choose|t: Seq<char>| #[trigger] manifest_from_report(ms[i as int], store@, t) == output_model(o);
        proof {
            let old_reports = reports;
            reports = reports.push(t);
            assert(ms.take(i + 1).drop_last() =~= ms.take(i as int));
            assert(ms.take(i + 1).last() == ms[i as int]);
            assert(reports.drop_last() =~= old_reports);
        }
        match o {
            Some(out) => {
                response.results.push(out);
                assert(response@ =~= batch_from_reports(ms.take(i + 1), store@, reports).0);
            },
            None => {
                let ghost full = reports + Seq::new((ms.len() - i - 1) as nat, |j: int| Seq::<char>::empty());
                proof {
                    assert(full.take(i + 1) =~= reports);
                    lemma_fault_ends_batch(ms, i + 1, store@, full);
                }
                return Err(response);
            },
        }
        i += 1;
    }
    proof {
        assert(ms.take(i as int) =~= ms);
    }
    Ok(response)
}

} // verus!
