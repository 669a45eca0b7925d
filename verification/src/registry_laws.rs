//! What loading documents and citing sources guarantee, whatever the
//! documents hold.

use vstd::prelude::*;

use crate::registry::{
    cited_sources, load, load_document, load_rules, nothing_loaded, source_of, sourced_count,
    DomainRegistryView, Loaded, RuleView, SourceView,
};

verus! {

/// The number of rules the documents define together.
pub open spec fn total_rules(docs: Seq<DomainRegistryView>) -> nat
    decreases docs.len(),
{
    if docs.len() == 0 {
        0
    } else {
        total_rules(docs.drop_last()) + docs.last().rules.len()
    }
}

/// Adding the rules of one document keeps the header and every rule already
/// loaded, adds each of the document's rules under its identifier, and adds
/// nothing else.
proof fn lemma_load_rules_ok(state: Loaded, rules: Seq<RuleView>)
    requires
        state.rules.dom().finite(),
        load_rules(state, rules) is Ok,
    ensures
        ({
            let after = load_rules(state, rules)->Ok_0;
            &&& after.version == state.version
            &&& after.audited_at == state.audited_at
            &&& after.domains == state.domains
            &&& after.rules.dom().finite()
            &&& after.rules.dom().len() == state.rules.dom().len() + rules.len()
            &&& forall|id: Seq<char>| #[trigger]
                state.rules.contains_key(id) ==> after.rules.contains_key(id) && after.rules[id]
                    == state.rules[id]
            &&& forall|j: int|
                0 <= j < rules.len() ==> after.rules.contains_key(#[trigger] rules[j].id)
                    && after.rules[rules[j].id] == rules[j]
            &&& forall|id: Seq<char>| #[trigger]
                after.rules.contains_key(id) ==> state.rules.contains_key(id) || exists|j: int|
                    0 <= j < rules.len() && rules[j].id == id
        }),
    decreases rules.len(),
{
    if rules.len() > 0 {
        let prefix = rules.drop_last();
        lemma_load_rules_ok(state, prefix);
        let mid = load_rules(state, prefix)->Ok_0;
        let after = load_rules(state, rules)->Ok_0;
        let rule = rules.last();
        assert(!mid.rules.contains_key(rule.id));
        assert(after.rules == mid.rules.insert(rule.id, rule));
        assert forall|j: int| 0 <= j < rules.len() implies after.rules.contains_key(
            #[trigger] rules[j].id,
        ) && after.rules[rules[j].id] == rules[j] by {
            if j < rules.len() - 1 {
                assert(prefix[j] == rules[j]);
            }
        }
        assert forall|id: Seq<char>| #[trigger] after.rules.contains_key(id) implies state.rules.contains_key(id)
            || exists|j: int| 0 <= j < rules.len() && rules[j].id == id by {
            if id != rule.id && !state.rules.contains_key(id) {
                let j = choose|j: int| 0 <= j < prefix.len() && prefix[j].id == id;
                assert(rules[j].id == id);
            }
        }
    }
}

/// The version of a document that names one.
pub open spec fn names_version(doc: DomainRegistryView) -> bool {
    doc.version.len() > 0
}

/// Loading documents that it accepts, the registry holds each of their rules
/// under its identifier and nothing else, as many rules as the documents
/// define together, exactly their domains, and every document that names a
/// version carries the registry's version and audit date (no version at all
/// when none names one).
pub proof fn lemma_loaded_registry(docs: Seq<DomainRegistryView>)
    requires
        load(docs) is Ok,
    ensures
        ({
            let loaded = load(docs)->Ok_0;
            &&& loaded.rules.dom().finite()
            &&& loaded.rules.dom().len() == total_rules(docs)
            &&& forall|d: int, j: int|
                0 <= d < docs.len() && 0 <= j < docs[d].rules.len() ==> loaded.rules.contains_key(
                    (#[trigger] docs[d].rules[j]).id,
                ) && loaded.rules[docs[d].rules[j].id] == docs[d].rules[j]
            &&& forall|id: Seq<char>| #[trigger]
                loaded.rules.contains_key(id) ==> exists|d: int, j: int|
                    0 <= d < docs.len() && 0 <= j < docs[d].rules.len() && docs[d].rules[j].id == id
            &&& forall|domain: Seq<char>| #[trigger]
                loaded.domains.contains(domain) <==> exists|d: int|
                    0 <= d < docs.len() && docs[d].domain == domain
            &&& forall|d: int|
                0 <= d < docs.len() && names_version(#[trigger] docs[d]) ==> docs[d].version
                    == loaded.version && docs[d].audited_at == loaded.audited_at
            &&& loaded.version.len() == 0 ==> forall|d: int|
                0 <= d < docs.len() ==> !names_version(#[trigger] docs[d])
        }),
    decreases docs.len(),
{
    if docs.len() == 0 {
        assert(load(docs) == Ok::<Loaded, crate::registry::RegistryErrorView>(nothing_loaded()));
        assert(nothing_loaded().rules.dom() =~= Set::<Seq<char>>::empty());
    } else {
        let prefix = docs.drop_last();
        let doc = docs.last();
        lemma_loaded_registry(prefix);
        let state = load(prefix)->Ok_0;
        let loaded = load(docs)->Ok_0;
        assert(load(docs) == load_document(state, doc));
        let adopt = state.version.len() == 0;
        let version = if adopt {
            doc.version
        } else {
            state.version
        };
        let audited_at = if adopt {
            doc.audited_at
        } else {
            state.audited_at
        };
        let start = Loaded {
            version,
            audited_at,
            domains: state.domains.insert(doc.domain),
            rules: state.rules,
        };
        assert(load(docs) == load_rules(start, doc.rules));
        lemma_load_rules_ok(start, doc.rules);
        assert forall|d: int, j: int|
            0 <= d < docs.len() && 0 <= j < docs[d].rules.len() implies loaded.rules.contains_key(
            (#[trigger] docs[d].rules[j]).id,
        ) && loaded.rules[docs[d].rules[j].id] == docs[d].rules[j] by {
            if d < docs.len() - 1 {
                assert(prefix[d] == docs[d]);
                assert(prefix[d].rules[j] == docs[d].rules[j]);
            } else {
                assert(doc.rules[j] == docs[d].rules[j]);
            }
        }
        assert forall|id: Seq<char>| #[trigger] loaded.rules.contains_key(id) implies exists|d: int, j: int|
            0 <= d < docs.len() && 0 <= j < docs[d].rules.len() && docs[d].rules[j].id == id by {
            if state.rules.contains_key(id) {
                let (d, j) = choose|d: int, j: int|
                    0 <= d < prefix.len() && 0 <= j < prefix[d].rules.len() && prefix[d].rules[j].id
                        == id;
                assert(docs[d] == prefix[d]);
            } else {
                let j = choose|j: int| 0 <= j < doc.rules.len() && doc.rules[j].id == id;
                assert(docs[docs.len() - 1] == doc);
            }
        }
        assert forall|domain: Seq<char>| #[trigger] loaded.domains.contains(domain) <==> exists|d: int|
            0 <= d < docs.len() && docs[d].domain == domain by {
            if loaded.domains.contains(domain) {
                if domain == doc.domain {
                    assert(docs[docs.len() - 1].domain == domain);
                } else {
                    let d = choose|d: int| 0 <= d < prefix.len() && prefix[d].domain == domain;
                    assert(docs[d] == prefix[d]);
                }
            }
            if exists|d: int| 0 <= d < docs.len() && docs[d].domain == domain {
                let d = choose|d: int| 0 <= d < docs.len() && docs[d].domain == domain;
                if d < docs.len() - 1 {
                    assert(prefix[d] == docs[d]);
                }
            }
        }
        assert forall|d: int|
            0 <= d < docs.len() && names_version(#[trigger] docs[d]) implies docs[d].version
            == loaded.version && docs[d].audited_at == loaded.audited_at by {
            if d < docs.len() - 1 {
                assert(prefix[d] == docs[d]);
                assert(names_version(prefix[d]));
            }
        }
        assert(loaded.version.len() == 0 ==> forall|d: int|
            0 <= d < docs.len() ==> !names_version(#[trigger] docs[d])) by {
            if loaded.version.len() == 0 {
                assert forall|d: int| 0 <= d < docs.len() implies !names_version(#[trigger] docs[d]) by {
                    if d < docs.len() - 1 {
                        assert(prefix[d] == docs[d]);
                    }
                }
            }
        }
    }
}

/// Whether some source in `sources` has the official address `url`.
pub open spec fn cites_url(sources: Seq<SourceView>, url: Seq<char>) -> bool {
    exists|k: int| 0 <= k < sources.len() && #[trigger] sources[k].url == url
}

/// The sources cited for rules are the rules' own sources, no official
/// address is cited twice nor once more after `seen`, and the address of each
/// rule asked for is either in `seen` or cited.
pub proof fn lemma_cited_sources(
    rules: Map<Seq<char>, RuleView>,
    ids: Seq<Seq<char>>,
    seen: Set<Seq<char>>,
)
    ensures
        ({
            let cited = cited_sources(rules, ids, seen);
            &&& cited.len() <= ids.len()
            &&& forall|k: int|
                0 <= k < cited.len() ==> exists|j: int|
                    0 <= j < ids.len() && #[trigger] cited[k] == source_of(rules[ids[j]])
            &&& forall|k: int| 0 <= k < cited.len() ==> !seen.contains(#[trigger] cited[k].url)
            &&& forall|a: int, b: int|
                0 <= a < b < cited.len() ==> (#[trigger] cited[a]).url != (#[trigger] cited[b]).url
            &&& forall|j: int|
                0 <= j < ids.len() ==> seen.contains(rules[#[trigger] ids[j]].source_url)
                    || cites_url(cited, rules[ids[j]].source_url)
        }),
    decreases ids.len(),
{
    if ids.len() > 0 {
        let rule = rules[ids[0]];
        let rest = ids.drop_first();
        let cited = cited_sources(rules, ids, seen);
        if seen.contains(rule.source_url) {
            lemma_cited_sources(rules, rest, seen);
            assert forall|k: int| 0 <= k < cited.len() implies exists|j: int|
                0 <= j < ids.len() && #[trigger] cited[k] == source_of(rules[ids[j]]) by {
                let j = choose|j: int| 0 <= j < rest.len() && cited[k] == source_of(rules[rest[j]]);
                assert(ids[j + 1] == rest[j]);
            }
            assert forall|j: int| 0 <= j < ids.len() implies seen.contains(
                rules[#[trigger] ids[j]].source_url,
            ) || cites_url(cited, rules[ids[j]].source_url) by {
                if j > 0 {
                    assert(rest[j - 1] == ids[j]);
                }
            }
        } else {
            let grown = seen.insert(rule.source_url);
            lemma_cited_sources(rules, rest, grown);
            let tail = cited_sources(rules, rest, grown);
            assert(cited == seq![source_of(rule)] + tail);
            assert forall|k: int| 0 <= k < cited.len() implies exists|j: int|
                0 <= j < ids.len() && #[trigger] cited[k] == source_of(rules[ids[j]]) by {
                if k == 0 {
                    assert(cited[0] == source_of(rules[ids[0]]));
                } else {
                    assert(cited[k] == tail[k - 1]);
                    let j = choose|j: int| 0 <= j < rest.len() && tail[k - 1] == source_of(rules[rest[j]]);
                    assert(ids[j + 1] == rest[j]);
                }
            }
            assert forall|k: int| 0 <= k < cited.len() implies !seen.contains(#[trigger] cited[k].url) by {
                if k > 0 {
                    assert(cited[k] == tail[k - 1]);
                    assert(!grown.contains(tail[k - 1].url));
                }
            }
            assert forall|a: int, b: int| 0 <= a < b < cited.len() implies (#[trigger] cited[a]).url
                != (#[trigger] cited[b]).url by {
                assert(cited[b] == tail[b - 1]);
                assert(!grown.contains(tail[b - 1].url));
                if a > 0 {
                    assert(cited[a] == tail[a - 1]);
                }
            }
            assert forall|j: int| 0 <= j < ids.len() implies seen.contains(
                rules[#[trigger] ids[j]].source_url,
            ) || cites_url(cited, rules[ids[j]].source_url) by {
                if j == 0 {
                    assert(cited[0].url == rule.source_url);
                } else {
                    assert(rest[j - 1] == ids[j]);
                    let url = rules[ids[j]].source_url;
                    if !grown.contains(url) {
                        let k = choose|k: int| 0 <= k < tail.len() && #[trigger] tail[k].url == url;
                        assert(cited[k + 1] == tail[k]);
                    } else if url == rule.source_url {
                        assert(cited[0].url == url);
                    }
                }
            }
        }
    }
}

/// The sourced rules are exactly those that give both an official address
/// and a legal basis: their count is the number of such rules, whatever
/// their order.
pub proof fn lemma_sourced_count(rules: Seq<RuleView>)
    ensures
        sourced_count(rules) == rules.filter(
            |r: RuleView| r.source_url.len() > 0 && r.legal_basis.len() > 0,
        ).len(),
        sourced_count(rules) <= rules.len(),
    decreases rules.len(),
{
    reveal(Seq::filter);
    if rules.len() > 0 {
        lemma_sourced_count(rules.drop_last());
    }
}

} // verus!
