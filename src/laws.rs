//! Properties of resolution and batch validation, proved over the models
//! that the functions' contracts use.
use vstd::prelude::*;
use crate::handlers::{batch_from_reports, manifest_from_report, missing_rule_value};
use crate::guard::json_parse;
use crate::resolve::{joined_identifier, joined_texts, resolve_manifest, resolve_names, resolve_source, Manifest};

verus! {

/// A manifest that gives neither rule names nor an inline rule.
pub open spec fn unspecified(m: Manifest) -> bool {
    m.rules_names is None && m.rule is None
}

/// Two manifests that agree on name, document, rule names and inline rule.
pub open spec fn same_manifest(a: Manifest, b: Manifest) -> bool {
    &&& a.name@ == b.name@
    &&& a.data@ == b.data@
    &&& a.names_model() == b.names_model()
    &&& a.rule_model() == b.rule_model()
}

/// What a batch yields, whatever the engine returned: its results carry the
/// manifests' names in input order, the diagnostic exactly for manifests
/// whose rule does not resolve, and for the others the JSON value of what the
/// engine returned. A completed batch has one result per manifest; a stopped
/// one has fewer, and stopped at a manifest whose rule resolved and whose
/// engine text is not JSON.
pub proof fn lemma_batch_shape(ms: Seq<Manifest>, store: Map<Seq<char>, Seq<char>>, reports: Seq<Seq<char>>)
    requires
        reports.len() == ms.len(),
    ensures
        ({
            let (results, complete) = batch_from_reports(ms, store, reports);
            &&& results.len() <= ms.len()
            &&& complete ==> results.len() == ms.len()
            &&& !complete ==> {
                &&& results.len() < ms.len()
                &&& resolve_manifest(ms[results.len() as int], store) is Some
                &&& json_parse(reports[results.len() as int]) is Err
            }
            &&& forall|i: int|
                0 <= i < results.len() ==> {
                    &&& (#[trigger] results[i]).0 == ms[i].name@
                    &&& resolve_manifest(ms[i], store) is None ==> results[i].1 == missing_rule_value()
                    &&& resolve_manifest(ms[i], store) is Some ==> json_parse(reports[i]) == Ok::<
                        serde_json::Value,
                        Seq<char>,
                    >(results[i].1)
                }
        }),
    decreases ms.len(),
{
    if ms.len() > 0 {
        let (init, rinit) = (ms.drop_last(), reports.drop_last());
        lemma_batch_shape(init, store, rinit);
        let (done, c) = batch_from_reports(init, store, rinit);
        let (results, complete) = batch_from_reports(ms, store, reports);
        assert forall|i: int| 0 <= i < done.len() implies ms[i] == init[i] && reports[i] == rinit[i] by {}
        if c {
            assert(ms.last() == ms[done.len() as int]);
        }
        assert forall|i: int| 0 <= i < results.len() implies {
            &&& (#[trigger] results[i]).0 == ms[i].name@
            &&& resolve_manifest(ms[i], store) is None ==> results[i].1 == missing_rule_value()
            &&& resolve_manifest(ms[i], store) is Some ==> json_parse(reports[i]) == Ok::<
                serde_json::Value,
                Seq<char>,
            >(results[i].1)
        } by {
            if i < done.len() {
                assert(results[i] == done[i]);
                assert(ms[i] == init[i] && reports[i] == rinit[i]);
            }
        }
    }
}

/// Where every manifest of a batch resolves and evaluates, the batch runs to
/// its end and its i-th result is what the i-th manifest yields.
pub proof fn lemma_order_preserved(ms: Seq<Manifest>, store: Map<Seq<char>, Seq<char>>, reports: Seq<Seq<char>>)
    requires
        reports.len() == ms.len(),
        forall|i: int| 0 <= i < ms.len() ==> #[trigger] manifest_from_report(ms[i], store, reports[i]) is Some,
    ensures
        batch_from_reports(ms, store, reports).1,
        batch_from_reports(ms, store, reports).0.len() == ms.len(),
        forall|i: int|
            0 <= i < ms.len() ==> #[trigger] batch_from_reports(ms, store, reports).0[i]
                == manifest_from_report(ms[i], store, reports[i])->Some_0,
    decreases ms.len(),
{
    if ms.len() > 0 {
        let (init, rinit) = (ms.drop_last(), reports.drop_last());
        assert forall|i: int| 0 <= i < init.len() implies #[trigger] manifest_from_report(
            init[i],
            store,
            rinit[i],
        ) is Some by {
            assert(init[i] == ms[i] && rinit[i] == reports[i]);
        }
        lemma_order_preserved(init, store, rinit);
        assert(manifest_from_report(ms[ms.len() - 1], store, reports[ms.len() - 1]) is Some);
        assert forall|i: int| 0 <= i < ms.len() implies #[trigger] batch_from_reports(ms, store, reports).0[i]
            == manifest_from_report(ms[i], store, reports[i])->Some_0 by {
            if i < init.len() {
                assert(init[i] == ms[i] && rinit[i] == reports[i]);
            }
        }
    }
}

/// A manifest whose rule names include one that is not stored resolves to
/// nothing, and gets the same diagnostic as a manifest that names no rule.
pub proof fn lemma_missing_name_fails_closed(
    m: Manifest,
    u: Manifest,
    store: Map<Seq<char>, Seq<char>>,
    report: Seq<char>,
)
    requires
        m.names_model() is Some,
        exists|i: int|
            0 <= i < m.names_model()->Some_0.len() && !store.contains_key(
                #[trigger] m.names_model()->Some_0[i],
            ),
        unspecified(u),
        u.name@ == m.name@,
        u.data@ == m.data@,
    ensures
        resolve_manifest(m, store) is None,
        manifest_from_report(m, store, report) == manifest_from_report(u, store, report),
        manifest_from_report(m, store, report) == Some((m.name@, missing_rule_value())),
{
}

/// Two stored names `a` and `b` resolve to the text under `a` followed by
/// the text under `b`, with the identifier `a/b/`.
pub proof fn lemma_two_names(a: Seq<char>, b: Seq<char>, store: Map<Seq<char>, Seq<char>>)
    requires
        store.contains_key(a),
        store.contains_key(b),
    ensures
        resolve_names(seq![a, b], store) == Some((store[a] + store[b], a + seq!['/'] + b + seq!['/'])),
{
    let ns = seq![a, b];
    assert(ns.drop_last() =~= seq![a]);
    assert(seq![a].drop_last() =~= Seq::<Seq<char>>::empty());
    assert(joined_texts(Seq::<Seq<char>>::empty(), store) == Seq::<char>::empty());
    assert(joined_identifier(Seq::<Seq<char>>::empty()) == Seq::<char>::empty());
    assert(seq![a].last() == a);
    assert(joined_texts(seq![a], store) =~= store[a]);
    assert(joined_identifier(seq![a]) =~= a + seq!['/']);
    assert(joined_texts(ns, store) =~= store[a] + store[b]);
    assert(joined_identifier(ns) =~= a + seq!['/'] + b + seq!['/']);
}

/// Where a manifest gives rule names, its inline rule plays no part: it
/// resolves as the names alone resolve.
pub proof fn lemma_names_take_precedence(
    names: Seq<Seq<char>>,
    rule: Option<Seq<char>>,
    store: Map<Seq<char>, Seq<char>>,
)
    ensures
        resolve_source(Some(names), rule, store) == resolve_source(Some(names), None, store),
        resolve_source(Some(names), rule, store) == resolve_names(names, store),
{
}

/// Where the manifests before the k-th all evaluate and the k-th faults, the
/// batch stops there: it yields the results of the manifests before it (at
/// most k), reports that it did not run to its end, and is the same whatever
/// manifests follow.
pub proof fn lemma_fault_isolates(
    ms: Seq<Manifest>,
    k: int,
    store: Map<Seq<char>, Seq<char>>,
    reports: Seq<Seq<char>>,
)
    requires
        0 <= k < ms.len(),
        reports.len() == ms.len(),
        batch_from_reports(ms.take(k), store, reports.take(k)).1,
        manifest_from_report(ms[k], store, reports[k]) is None,
    ensures
        batch_from_reports(ms, store, reports) == (batch_from_reports(ms.take(k), store, reports.take(k)).0, false),
        batch_from_reports(ms, store, reports) == batch_from_reports(ms.take(k + 1), store, reports.take(k + 1)),
        batch_from_reports(ms, store, reports).0.len() <= k,
{
    assert(ms.take(k + 1).drop_last() =~= ms.take(k));
    assert(reports.take(k + 1).drop_last() =~= reports.take(k));
    assert(ms.take(k + 1).last() == ms[k]);
    assert(reports.take(k + 1)[k] == reports[k]);
    crate::handlers::lemma_fault_ends_batch(ms, k + 1, store, reports);
    lemma_batch_shape(ms.take(k), store, reports.take(k));
}

/// Validation depends only on what the request and the store hold and on
/// what the engine returned: two batches of manifests that agree one by one,
/// against stores with the same contents, for which the engine returned the
/// same texts, give the same results and the same completion.
pub proof fn lemma_validation_deterministic(
    ms1: Seq<Manifest>,
    ms2: Seq<Manifest>,
    store1: Map<Seq<char>, Seq<char>>,
    store2: Map<Seq<char>, Seq<char>>,
    reports: Seq<Seq<char>>,
)
    requires
        ms1.len() == ms2.len(),
        forall|i: int| 0 <= i < ms1.len() ==> same_manifest(#[trigger] ms1[i], ms2[i]),
        store1 == store2,
    ensures
        batch_from_reports(ms1, store1, reports) == batch_from_reports(ms2, store2, reports),
    decreases ms1.len(),
{
    if ms1.len() > 0 {
        let (a, b) = (ms1.drop_last(), ms2.drop_last());
        assert forall|i: int| 0 <= i < a.len() implies same_manifest(#[trigger] a[i], b[i]) by {
            assert(a[i] == ms1[i]);
            assert(b[i] == ms2[i]);
        }
        lemma_validation_deterministic(a, b, store1, store2, reports.drop_last());
        assert(same_manifest(ms1[ms1.len() - 1], ms2[ms2.len() - 1]));
    }
}

/// A manifest with an empty list of rule names and no inline rule gets the
/// same diagnostic as one that names no rule at all.
pub proof fn lemma_empty_names(m: Manifest, u: Manifest, store: Map<Seq<char>, Seq<char>>, report: Seq<char>)
    requires
        m.names_model() == Some(Seq::<Seq<char>>::empty()),
        m.rule is None,
        unspecified(u),
        u.name@ == m.name@,
        u.data@ == m.data@,
    ensures
        resolve_manifest(m, store) is None,
        manifest_from_report(m, store, report) == manifest_from_report(u, store, report),
{
}

} // verus!
