//! Rule resolution: which rule text, under which identifier, a manifest is
//! evaluated against.
use vstd::prelude::*;
use crate::store::RuleStore;

verus! {

/// The identifier of a rule supplied inline with the manifest.
pub const INLINE_LABEL: &'static str = "body";

/// One document to validate, with the source of its rule: rule names to look
/// up in the store, inline rule text, or neither.
pub struct Manifest {
    pub name: String,
    pub data: String,
    pub rules_names: Option<Vec<String>>,
    pub rule: Option<String>,
}

/// The rule text a manifest is evaluated against, and its identifier.
pub struct EffectiveRule {
    pub text: String,
    pub identifier: String,
}

/// The plain-value form of a list of names.
pub open spec fn names_view(names: Seq<String>) -> Seq<Seq<char>> {
    names.map_values(|s: String| s@)
}

impl Manifest {
    /// The rule names the manifest gives, as plain values.
    pub open spec fn names_model(&self) -> Option<Seq<Seq<char>>> {
        match self.rules_names {
            Some(v) => Some(names_view(v@)),
            None => None,
        }
    }

    /// The inline rule text the manifest gives, as a plain value.
    pub open spec fn rule_model(&self) -> Option<Seq<char>> {
        match self.rule {
            Some(t) => Some(t@),
            None => None,
        }
    }
}

/// Every name is stored.
pub open spec fn all_stored(names: Seq<Seq<char>>, store: Map<Seq<char>, Seq<char>>) -> bool {
    forall|i: int| 0 <= i < names.len() ==> store.contains_key(#[trigger] names[i])
}

/// The stored texts of the names, concatenated in order.
pub open spec fn joined_texts(names: Seq<Seq<char>>, store: Map<Seq<char>, Seq<char>>) -> Seq<char>
    decreases names.len(),
{
    if names.len() == 0 {
        Seq::empty()
    } else {
        joined_texts(names.drop_last(), store) + store[names.last()]
    }
}

/// Each name followed by a slash, concatenated in order.
pub open spec fn joined_identifier(names: Seq<Seq<char>>) -> Seq<char>
    decreases names.len(),
{
    if names.len() == 0 {
        Seq::empty()
    } else {
        joined_identifier(names.drop_last()) + names.last() + seq!['/']
    }
}

/// Resolution of a list of rule names: it fails on an empty list and where
/// any name is not stored; no partial rule is ever formed.
pub open spec fn resolve_names(names: Seq<Seq<char>>, store: Map<Seq<char>, Seq<char>>) -> Option<
    (Seq<char>, Seq<char>),
> {
    if names.len() > 0 && all_stored(names, store) {
        Some((joined_texts(names, store), joined_identifier(names)))
    } else {
        None
    }
}

/// Resolution of a manifest's rule source: names take precedence over an
/// inline rule; with neither, resolution fails.
pub open spec fn resolve_source(
    names: Option<Seq<Seq<char>>>,
    rule: Option<Seq<char>>,
    store: Map<Seq<char>, Seq<char>>,
) -> Option<(Seq<char>, Seq<char>)> {
    match names {
        Some(ns) => resolve_names(ns, store),
        None => match rule {
            Some(t) => Some((t, INLINE_LABEL@)),
            None => None,
        },
    }
}

/// Resolution of a manifest against a store's contents.
pub open spec fn resolve_manifest(m: Manifest, store: Map<Seq<char>, Seq<char>>) -> Option<
    (Seq<char>, Seq<char>),
> {
    resolve_source(m.names_model(), m.rule_model(), store)
}

/// Looks each name up in order and joins the texts and identifiers; `None`
/// on an empty list or at the first name not stored.
pub fn resolve_rule_names(names: &Vec<String>, store: &RuleStore) -> (r: Option<EffectiveRule>)
    requires
        store.wf(),
    ensures
        match r {
            Some(e) => resolve_names(names_view(names@), store@) == Some((e.text@, e.identifier@)),
            None => resolve_names(names_view(names@), store@) is None,
        },
{
    let ghost ns = names_view(names@);
    if names.len() == 0 {
        return None;
    }
    let mut text = String::new();
    let mut identifier = String::new();
    let mut i: usize = 0;
    while i < names.len()
        invariant
            store.wf(),
            ns == names_view(names@),
            i <= names@.len(),
            all_stored(ns.take(i as int), store@),
            text@ == joined_texts(ns.take(i as int), store@),
            identifier@ == joined_identifier(ns.take(i as int)),
        decreases names@.len() - i,
    {
        let name = &names[i];
        match store.lookup(name) {
            Some(t) => {
                text.append(t.as_str());
                identifier.append(name.as_str());
                identifier.append("/");
                proof {
                    reveal_strlit("/");
                    assert(ns.take(i + 1).drop_last() =~= ns.take(i as int));
                    assert(ns.take(i + 1).last() == name@);
                    assert(all_stored(ns.take(i + 1), store@)) by {
                        assert forall|j: int| 0 <= j < i + 1 implies store@.contains_key(
                            #[trigger] ns.take(i + 1)[j],
                        ) by {
                            if j < i {
                                assert(ns.take(i + 1)[j] == ns.take(i as int)[j]);
                            }
                        }
                    }
                }
            },
            None => {
                proof {
                    assert(ns[i as int] == name@);
                    assert(!all_stored(ns, store@));
                }
                return None;
            },
        }
        i += 1;
    }
    proof {
        assert(ns.take(i as int) =~= ns);
    }
    Some(EffectiveRule { text, identifier })
}

/// Resolves the rule a manifest is evaluated against: its rule names where
/// it gives any list of them, else its inline rule under the identifier
/// `body`; `None` where neither yields a rule.
///
/// A resolved rule may have empty text (an empty inline rule, or stored texts
/// that are all empty): it still counts as resolved and goes to the engine,
/// which answers it with an empty report. That report is not JSON, so such a
/// manifest stops its batch as an engine fault rather than getting the
/// diagnostic for a manifest without a rule.
pub fn resolve(man: &Manifest, store: &RuleStore) -> (r: Option<EffectiveRule>)
    requires
        store.wf(),
    ensures
        match r {
            Some(e) => resolve_manifest(*man, store@) == Some((e.text@, e.identifier@)),
            None => resolve_manifest(*man, store@) is None,
        },
{
    match &man.rules_names {
        Some(names) => resolve_rule_names(names, store),
        None => match &man.rule {
            Some(t) => {
                let identifier = String::from_str(INLINE_LABEL);
                Some(EffectiveRule { text: t.clone(), identifier })
            },
            None => None,
        },
    }
}

} // verus!
