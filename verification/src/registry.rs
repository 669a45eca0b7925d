//! The registry of fiscal rules: each rule's value, its period and its
//! official source, loaded from several domain documents that must agree on
//! the registry's version and audit date and may not define a rule twice.

use vstd::prelude::*;

use crate::text::{
    lemma_seq_less_irreflexive, lemma_seq_less_total, lemma_seq_less_transitive, seq_less,
    str_eq, str_less,
};

verus! {

/// The value of a rule, as the registry's TOML documents give it; the
/// registry carries it without reading it.
#[verifier::external_type_specification]
#[verifier::external_body]
pub struct ExTomlValue(toml::Value);

/// One sourced fiscal rule.
#[derive(Debug)]
pub struct Rule {
    pub id: String,
    pub value: toml::Value,
    pub unit: String,
    pub income_year: u16,
    pub declaration_year: u16,
    pub effective_from: String,
    pub effective_to: String,
    pub checked_at: String,
    pub source_url: String,
    pub legal_basis: String,
}

/// The content of a [`Rule`].
pub struct RuleView {
    pub id: Seq<char>,
    pub value: toml::Value,
    pub unit: Seq<char>,
    pub income_year: u16,
    pub declaration_year: u16,
    pub effective_from: Seq<char>,
    pub effective_to: Seq<char>,
    pub checked_at: Seq<char>,
    pub source_url: Seq<char>,
    pub legal_basis: Seq<char>,
}

impl View for Rule {
    type V = RuleView;

    open spec fn view(&self) -> RuleView {
        RuleView {
            id: self.id@,
            value: self.value,
            unit: self.unit@,
            income_year: self.income_year,
            declaration_year: self.declaration_year,
            effective_from: self.effective_from@,
            effective_to: self.effective_to@,
            checked_at: self.checked_at@,
            source_url: self.source_url@,
            legal_basis: self.legal_basis@,
        }
    }
}

/// The contents of a sequence of rules.
pub open spec fn rule_views(rules: Seq<Rule>) -> Seq<RuleView> {
    rules.map_values(|r: Rule| r@)
}

/// The rules of a sequence are strictly ordered by identifier.
pub open spec fn sorted_by_id(rules: Seq<RuleView>) -> bool {
    forall|i: int, j: int|
        0 <= i < j < rules.len() ==> seq_less(#[trigger] rules[i].id, #[trigger] rules[j].id)
}

/// The rules of a sequence, found by identifier.
pub open spec fn rules_by_id(rules: Seq<RuleView>) -> Map<Seq<char>, RuleView> {
    Map::new(
        |id: Seq<char>| exists|i: int| 0 <= i < rules.len() && #[trigger] rules[i].id == id,
        |id: Seq<char>| rules[choose|i: int| 0 <= i < rules.len() && #[trigger] rules[i].id == id],
    )
}

/// In a sequence ordered by identifier, no identifier occurs twice.
pub proof fn lemma_sorted_ids_distinct(rules: Seq<RuleView>)
    requires
        sorted_by_id(rules),
    ensures
        forall|i: int, j: int|
            0 <= i < rules.len() && 0 <= j < rules.len() && i != j ==> #[trigger] rules[i].id
                != #[trigger] rules[j].id,
{
    assert forall|i: int, j: int|
        0 <= i < rules.len() && 0 <= j < rules.len() && i != j implies #[trigger] rules[i].id
        != #[trigger] rules[j].id by {
        lemma_seq_less_irreflexive(rules[i].id);
        if i < j {
            assert(seq_less(rules[i].id, rules[j].id));
        } else {
            assert(seq_less(rules[j].id, rules[i].id));
        }
    }
}

/// In a sequence ordered by identifier, each rule is the one found by its
/// identifier, and only identifiers of the sequence are found.
pub proof fn lemma_rules_by_id(rules: Seq<RuleView>)
    requires
        sorted_by_id(rules),
    ensures
        forall|i: int|
            0 <= i < rules.len() ==> rules_by_id(rules).contains_key(#[trigger] rules[i].id)
                && rules_by_id(rules)[rules[i].id] == rules[i],
        forall|id: Seq<char>|
            #[trigger] rules_by_id(rules).contains_key(id) ==> exists|i: int|
                0 <= i < rules.len() && rules[i].id == id,
{
    lemma_sorted_ids_distinct(rules);
    assert forall|i: int| 0 <= i < rules.len() implies rules_by_id(rules).contains_key(
        #[trigger] rules[i].id,
    ) && rules_by_id(rules)[rules[i].id] == rules[i] by {
        let id = rules[i].id;
        assert(rules_by_id(rules).contains_key(id));
        let j = choose|j: int| 0 <= j < rules.len() && #[trigger] rules[j].id == id;
        assert(rules[j].id == id);
    }
}

/// Why documents could not be loaded into a registry.
#[derive(Debug)]
pub enum RegistryError {
    /// Two documents name different registry versions.
    MixedVersions,
    /// Two documents name different audit dates.
    MixedAuditDates,
    /// A rule identifier is defined twice.
    DuplicateRule(String),
}

/// The content of a [`RegistryError`].
pub enum RegistryErrorView {
    MixedVersions,
    MixedAuditDates,
    DuplicateRule(Seq<char>),
}

impl View for RegistryError {
    type V = RegistryErrorView;

    open spec fn view(&self) -> RegistryErrorView {
        match self {
            RegistryError::MixedVersions => RegistryErrorView::MixedVersions,
            RegistryError::MixedAuditDates => RegistryErrorView::MixedAuditDates,
            RegistryError::DuplicateRule(id) => RegistryErrorView::DuplicateRule(id@),
        }
    }
}

/// Inserts `rule` at its place in `rules`, ordered by identifier, or refuses
/// it when its identifier is already there.
fn insert_rule(rules: &mut Vec<Rule>, rule: Rule) -> (r: Result<(), RegistryError>)
    requires
        sorted_by_id(rule_views(old(rules)@)),
    ensures
        match r {
            Ok(()) => {
                &&& !rules_by_id(rule_views(old(rules)@)).contains_key(rule@.id)
                &&& sorted_by_id(rule_views(final(rules)@))
                &&& rules_by_id(rule_views(final(rules)@)) == rules_by_id(
                    rule_views(old(rules)@),
                ).insert(rule@.id, rule@)
                &&& final(rules)@.len() == old(rules)@.len() + 1
            },
            Err(e) => {
                &&& rules_by_id(rule_views(old(rules)@)).contains_key(rule@.id)
                &&& e@ == RegistryErrorView::DuplicateRule(rule@.id)
            },
        },
{
    let ghost before = rule_views(rules@);
    proof {
        lemma_rules_by_id(before);
    }
    let mut i: usize = 0;
    while i < rules.len() && str_less(rules[i].id.as_str(), rule.id.as_str())
        invariant
            before == rule_views(rules@),
            i <= rules@.len(),
            forall|j: int| 0 <= j < i ==> seq_less(#[trigger] before[j].id, rule@.id),
        decreases rules@.len() - i,
    {
        i = i + 1;
    }
    if i < rules.len() && str_eq(rules[i].id.as_str(), rule.id.as_str()) {
        assert(before[i as int].id == rule@.id);
        return Err(RegistryError::DuplicateRule(rule.id.clone()));
    }
    // Every identifier before `i` comes before the new one; every one from `i` on after it.
    assert forall|j: int| i <= j < before.len() implies seq_less(
        rule@.id,
        #[trigger] before[j].id,
    ) by {
        lemma_seq_less_total(before[i as int].id, rule@.id);
        if j > i {
            lemma_seq_less_transitive(rule@.id, before[i as int].id, before[j].id);
        }
    }
    assert(!rules_by_id(before).contains_key(rule@.id)) by {
        if rules_by_id(before).contains_key(rule@.id) {
            let j = choose|j: int| 0 <= j < before.len() && before[j].id == rule@.id;
            lemma_seq_less_irreflexive(rule@.id);
            if j < i {
                assert(seq_less(before[j].id, rule@.id));
            } else {
                assert(seq_less(rule@.id, before[j].id));
            }
        }
    }
    let ghost new_rule = rule@;
    rules.insert(i, rule);
    let ghost after = rule_views(rules@);
    assert(after =~= before.insert(i as int, new_rule));
    assert(sorted_by_id(after)) by {
        assert forall|a: int, b: int| 0 <= a < b < after.len() implies seq_less(
            #[trigger] after[a].id,
            #[trigger] after[b].id,
        ) by {
            if a < i && b == i {
            } else if a < i && b > i {
                assert(after[b] == before[b - 1]);
            } else if a == i {
                assert(after[b] == before[b - 1]);
            } else if a < i {
            } else {
                assert(after[a] == before[a - 1]);
                assert(after[b] == before[b - 1]);
            }
        }
    }
    proof {
        lemma_rules_by_id(after);
        let m1 = rules_by_id(after);
        let m2 = rules_by_id(before).insert(new_rule.id, new_rule);
        assert forall|id: Seq<char>| m1.contains_key(id) <==> m2.contains_key(id) by {
            if m1.contains_key(id) {
                let j = choose|j: int| 0 <= j < after.len() && after[j].id == id;
                if j < i {
                    assert(before[j].id == id);
                } else if j > i {
                    assert(before[j - 1].id == id);
                }
            }
            if m2.contains_key(id) && id != new_rule.id {
                let j = choose|j: int| 0 <= j < before.len() && before[j].id == id;
                if j < i {
                    assert(after[j].id == id);
                } else {
                    assert(after[j + 1].id == id);
                }
            }
            if id == new_rule.id {
                assert(after[i as int].id == id);
            }
        }
        assert forall|id: Seq<char>| #[trigger] m1.contains_key(id) implies m1[id] == m2[id] by {
            let j = choose|j: int| 0 <= j < after.len() && after[j].id == id;
            if j < i {
                assert(before[j].id == id);
            } else if j > i {
                assert(before[j - 1].id == id);
            }
        }
        assert(m1 =~= m2);
    }
    Ok(())
}

/// One domain document of the registry: its header and its rules.
#[derive(Debug)]
pub struct DomainRegistry {
    pub registry_version: String,
    pub audited_at: String,
    pub domain: String,
    pub rules: Vec<Rule>,
}

/// The content of a [`DomainRegistry`].
pub struct DomainRegistryView {
    pub version: Seq<char>,
    pub audited_at: Seq<char>,
    pub domain: Seq<char>,
    pub rules: Seq<RuleView>,
}

impl View for DomainRegistry {
    type V = DomainRegistryView;

    open spec fn view(&self) -> DomainRegistryView {
        DomainRegistryView {
            version: self.registry_version@,
            audited_at: self.audited_at@,
            domain: self.domain@,
            rules: rule_views(self.rules@),
        }
    }
}

/// The contents of a sequence of documents.
pub open spec fn document_views(docs: Seq<DomainRegistry>) -> Seq<DomainRegistryView> {
    docs.map_values(|d: DomainRegistry| d@)
}

/// What loading documents has built so far.
pub struct Loaded {
    pub version: Seq<char>,
    pub audited_at: Seq<char>,
    pub domains: Set<Seq<char>>,
    pub rules: Map<Seq<char>, RuleView>,
}

/// Adds `rules`, in order, to what has been loaded; the first rule whose
/// identifier is already known is refused.
pub open spec fn load_rules(state: Loaded, rules: Seq<RuleView>) -> Result<Loaded, RegistryErrorView>
    decreases rules.len(),
{
    if rules.len() == 0 {
        Ok(state)
    } else {
        match load_rules(state, rules.drop_last()) {
            Err(e) => Err(e),
            Ok(s) => {
                let rule = rules.last();
                if s.rules.contains_key(rule.id) {
                    Err(RegistryErrorView::DuplicateRule(rule.id))
                } else {
                    Ok(Loaded { rules: s.rules.insert(rule.id, rule), ..s })
                }
            },
        }
    }
}

/// Adds one document to what has been loaded. While no version is known,
/// the document's version and audit date are adopted; the document must then
/// carry the registry's version and audit date.
pub open spec fn load_document(state: Loaded, doc: DomainRegistryView) -> Result<
    Loaded,
    RegistryErrorView,
> {
    let adopt = state.version.len() == 0;
    let version = if adopt {
        doc.version
    } else {
        state.version
    };
    let audited_at = if adopt {
        doc.audited_at
    } else {
        state.audited_at
    };
    if version != doc.version {
        Err(RegistryErrorView::MixedVersions)
    } else if audited_at != doc.audited_at {
        Err(RegistryErrorView::MixedAuditDates)
    } else {
        load_rules(
            Loaded { version, audited_at, domains: state.domains.insert(doc.domain), rules: state.rules },
            doc.rules,
        )
    }
}

/// Nothing loaded yet.
pub open spec fn nothing_loaded() -> Loaded {
    Loaded {
        version: Seq::empty(),
        audited_at: Seq::empty(),
        domains: Set::empty(),
        rules: Map::empty(),
    }
}

/// Loads the documents in order.
pub open spec fn load(docs: Seq<DomainRegistryView>) -> Result<Loaded, RegistryErrorView>
    decreases docs.len(),
{
    if docs.len() == 0 {
        Ok(nothing_loaded())
    } else {
        match load(docs.drop_last()) {
            Err(e) => Err(e),
            Ok(s) => load_document(s, docs.last()),
        }
    }
}


/// A rule refused while loading a document stays refused whatever follows it.
proof fn lemma_load_rules_refusal_persists(state: Loaded, rules: Seq<RuleView>, j: int)
    requires
        0 <= j <= rules.len(),
        load_rules(state, rules.take(j)) is Err,
    ensures
        load_rules(state, rules) == load_rules(state, rules.take(j)),
    decreases rules.len() - j,
{
    if j < rules.len() {
        assert(rules.take(j + 1).drop_last() =~= rules.take(j));
        lemma_load_rules_refusal_persists(state, rules, j + 1);
    } else {
        assert(rules.take(j) =~= rules);
    }
}

/// A document refused while loading stays refused whatever follows it.
proof fn lemma_load_refusal_persists(docs: Seq<DomainRegistryView>, k: int)
    requires
        0 <= k <= docs.len(),
        load(docs.take(k)) is Err,
    ensures
        load(docs) == load(docs.take(k)),
    decreases docs.len() - k,
{
    if k < docs.len() {
        assert(docs.take(k + 1).drop_last() =~= docs.take(k));
        lemma_load_refusal_persists(docs, k + 1);
    } else {
        assert(docs.take(k) =~= docs);
    }
}


/// Where a rule comes from, as a response cites it.
#[derive(Debug, Clone)]
pub struct Source {
    pub rule_id: String,
    pub url: String,
    pub legal_basis: String,
    pub checked_at: String,
}

/// The content of a [`Source`].
pub struct SourceView {
    pub rule_id: Seq<char>,
    pub url: Seq<char>,
    pub legal_basis: Seq<char>,
    pub checked_at: Seq<char>,
}

impl View for Source {
    type V = SourceView;

    open spec fn view(&self) -> SourceView {
        SourceView {
            rule_id: self.rule_id@,
            url: self.url@,
            legal_basis: self.legal_basis@,
            checked_at: self.checked_at@,
        }
    }
}

/// The contents of a sequence of sources.
pub open spec fn source_views(sources: Seq<Source>) -> Seq<SourceView> {
    sources.map_values(|s: Source| s@)
}

/// The source a rule cites.
pub open spec fn source_of(rule: RuleView) -> SourceView {
    SourceView {
        rule_id: rule.id,
        url: rule.source_url,
        legal_basis: rule.legal_basis,
        checked_at: rule.checked_at,
    }
}

/// The sources of the rules `ids`, in order, each official address cited
/// once: a rule whose address is in `seen`, or was cited by an earlier rule,
/// adds nothing.
pub open spec fn cited_sources(
    rules: Map<Seq<char>, RuleView>,
    ids: Seq<Seq<char>>,
    seen: Set<Seq<char>>,
) -> Seq<SourceView>
    decreases ids.len(),
{
    if ids.len() == 0 {
        Seq::empty()
    } else {
        let rule = rules[ids[0]];
        if seen.contains(rule.source_url) {
            cited_sources(rules, ids.drop_first(), seen)
        } else {
            seq![source_of(rule)] + cited_sources(rules, ids.drop_first(), seen.insert(rule.source_url))
        }
    }
}

/// How many rules give both an official address and a legal basis.
pub open spec fn sourced_count(rules: Seq<RuleView>) -> nat
    decreases rules.len(),
{
    if rules.len() == 0 {
        0
    } else {
        sourced_count(rules.drop_last()) + if rules.last().source_url.len() > 0
            && rules.last().legal_basis.len() > 0 {
            1nat
        } else {
            0nat
        }
    }
}

/// How much of the registry is sourced.
#[derive(Debug, Clone)]
pub struct Coverage {
    pub domains: usize,
    pub total_rules: usize,
    pub sourced_rules: usize,
}

/// The period a response's figures apply to.
#[derive(Debug, Clone)]
pub struct EffectivePeriod {
    pub income_year: u16,
    pub declaration_year: u16,
    pub audited_at: String,
}

/// The identifiers of a sequence of rules, in order.
pub open spec fn rule_ids_of(rules: Seq<RuleView>) -> Seq<Seq<char>> {
    rules.map_values(|r: RuleView| r.id)
}

/// The contents of a sequence of string slices.
pub open spec fn str_views(ids: Seq<&str>) -> Seq<Seq<char>> {
    ids.map_values(|s: &str| s@)
}

/// The registry of fiscal rules.
#[derive(Debug)]
pub struct Registry {
    version: String,
    audited_at: String,
    domains: Vec<String>,
    rules: Vec<Rule>,
}

/// The content of a [`Registry`]: its header, its domains and its rules in
/// the order of their identifiers.
pub struct RegistryView {
    pub version: Seq<char>,
    pub audited_at: Seq<char>,
    pub domains: Seq<Seq<char>>,
    pub rules: Seq<RuleView>,
}

impl View for Registry {
    type V = RegistryView;

    closed spec fn view(&self) -> RegistryView {
        RegistryView {
            version: self.version@,
            audited_at: self.audited_at@,
            domains: self.domains@.map_values(|d: String| d@),
            rules: rule_views(self.rules@),
        }
    }
}

impl RegistryView {
    /// Domains are listed once each; rules are ordered by identifier.
    pub open spec fn well_formed(self) -> bool {
        &&& self.domains.no_duplicates()
        &&& sorted_by_id(self.rules)
    }

    /// The rules, found by identifier.
    pub open spec fn rule_map(self) -> Map<Seq<char>, RuleView> {
        rules_by_id(self.rules)
    }

    /// The registry matches what loading has built.
    pub open spec fn matches(self, loaded: Loaded) -> bool {
        &&& self.version == loaded.version
        &&& self.audited_at == loaded.audited_at
        &&& self.domains.to_set() == loaded.domains
        &&& self.rule_map() == loaded.rules
    }
}

/// Whether `domains` lists `domain`.
fn lists_domain(domains: &Vec<String>, domain: &String) -> (r: bool)
    ensures
        r == domains@.map_values(|d: String| d@).contains(domain@),
{
    let ghost views = domains@.map_values(|d: String| d@);
    let mut i: usize = 0;
    while i < domains.len()
        invariant
            views == domains@.map_values(|d: String| d@),
            i <= domains@.len(),
            forall|j: int| 0 <= j < i ==> views[j] != domain@,
        decreases domains@.len() - i,
    {
        if domains[i] == *domain {
            assert(views[i as int] == domain@);
            return true;
        }
        i = i + 1;
    }
    false
}

impl Registry {
    /// Loads the documents in order into a registry: every document must
    /// carry the version and audit date of the first one that names a
    /// version, and no rule may be defined twice.
    pub fn from_documents(documents: Vec<DomainRegistry>) -> (r: Result<Registry, RegistryError>)
        ensures
            match (r, load(document_views(documents@))) {
                (Ok(registry), Ok(loaded)) => registry@.well_formed() && registry@.matches(loaded),
                (Err(e), Err(expected)) => e@ == expected,
                _ => false,
            },
    {
        let ghost all = document_views(documents@);
        let mut docs = documents;
        let mut version = String::new();
        let mut audited_at = String::new();
        let mut domains: Vec<String> = Vec::new();
        let mut rules: Vec<Rule> = Vec::new();
        let ghost mut k: int = 0;
        proof {
            assert(all.take(0) =~= Seq::<DomainRegistryView>::empty());
            assert(rules_by_id(rule_views(rules@)) =~= Map::<Seq<char>, RuleView>::empty());
            assert(domains@.map_values(|d: String| d@).to_set() =~= Set::<Seq<char>>::empty());
            assert(document_views(docs@) =~= all.skip(0));
        }
        while docs.len() > 0
            invariant
                all == document_views(documents@),
                0 <= k <= all.len(),
                document_views(docs@) == all.skip(k),
                load(all.take(k)) == Ok::<Loaded, RegistryErrorView>(
                    Loaded {
                        version: version@,
                        audited_at: audited_at@,
                        domains: domains@.map_values(|d: String| d@).to_set(),
                        rules: rules_by_id(rule_views(rules@)),
                    },
                ),
                domains@.map_values(|d: String| d@).no_duplicates(),
                sorted_by_id(rule_views(rules@)),
            decreases docs@.len(),
        {
            let ghost state = Loaded {
                version: version@,
                audited_at: audited_at@,
                domains: domains@.map_values(|d: String| d@).to_set(),
                rules: rules_by_id(rule_views(rules@)),
            };
            let ghost before_docs = docs@;
            assert(document_views(before_docs).len() == before_docs.len());
            let doc = docs.remove(0);
            let ghost dv = doc@;
            assert(docs@ =~= before_docs.drop_first());
            assert(document_views(docs@) =~= document_views(before_docs).drop_first());
            assert(k < all.len());
            assert(dv == all[k]) by {
                assert(document_views(before_docs)[0] == dv);
                assert(all.skip(k)[0] == all[k]);
            }
            assert(document_views(docs@) =~= all.skip(k + 1));
            assert(all.take(k + 1).drop_last() =~= all.take(k));
            assert(all.take(k + 1).last() == dv);
            assert(load(all.take(k + 1)) == load_document(state, dv));
            let DomainRegistry { registry_version, audited_at: doc_audited_at, domain, rules: doc_rules } = doc;
            if version.as_str().is_empty() {
                version = registry_version.clone();
                audited_at = doc_audited_at.clone();
            }
            if version != registry_version {
                assert(load_document(state, dv) == Err::<Loaded, RegistryErrorView>(
                    RegistryErrorView::MixedVersions,
                ));
                proof {
                    lemma_load_refusal_persists(all, k + 1);
                }
                return Err(RegistryError::MixedVersions);
            }
            if audited_at != doc_audited_at {
                assert(load_document(state, dv) == Err::<Loaded, RegistryErrorView>(
                    RegistryErrorView::MixedAuditDates,
                ));
                proof {
                    lemma_load_refusal_persists(all, k + 1);
                }
                return Err(RegistryError::MixedAuditDates);
            }
            let ghost old_domains = domains@.map_values(|d: String| d@);
            if !lists_domain(&domains, &domain) {
                domains.push(domain);
                proof {
                    assert(domains@.map_values(|d: String| d@) =~= old_domains.push(dv.domain));
                    old_domains.lemma_push_to_set_commute(dv.domain);
                }
            } else {
                proof {
                    assert(old_domains.to_set().insert(dv.domain) =~= old_domains.to_set());
                }
            }
            let ghost start = Loaded {
                version: version@,
                audited_at: audited_at@,
                domains: domains@.map_values(|d: String| d@).to_set(),
                rules: rules_by_id(rule_views(rules@)),
            };
            assert(load_document(state, dv) == load_rules(start, dv.rules));
            let mut pending = doc_rules;
            let ghost mut j: int = 0;
            proof {
                assert(dv.rules.take(0) =~= Seq::<RuleView>::empty());
                assert(rule_views(pending@) =~= dv.rules.skip(0));
            }
            while pending.len() > 0
                invariant
                    all == document_views(documents@),
                    0 <= k < all.len(),
                    dv == all[k],
                    load(all.take(k + 1)) == load_document(state, dv),
                    load_document(state, dv) == load_rules(start, dv.rules),
                    0 <= j <= dv.rules.len(),
                    rule_views(pending@) == dv.rules.skip(j),
                    load_rules(start, dv.rules.take(j)) == Ok::<Loaded, RegistryErrorView>(
                        Loaded { rules: rules_by_id(rule_views(rules@)), ..start },
                    ),
                    sorted_by_id(rule_views(rules@)),
                decreases pending@.len(),
            {
                let ghost before_pending = pending@;
                assert(rule_views(before_pending).len() == before_pending.len());
                let rule = pending.remove(0);
                assert(pending@ =~= before_pending.drop_first());
                assert(rule_views(pending@) =~= rule_views(before_pending).drop_first());
                assert(j < dv.rules.len());
                assert(rule@ == dv.rules[j]) by {
                    assert(rule_views(before_pending)[0] == rule@);
                    assert(dv.rules.skip(j)[0] == dv.rules[j]);
                }
                assert(rule_views(pending@) =~= dv.rules.skip(j + 1));
                assert(dv.rules.take(j + 1).drop_last() =~= dv.rules.take(j));
                assert(dv.rules.take(j + 1).last() == dv.rules[j]);
                match insert_rule(&mut rules, rule) {
                    Ok(()) => {},
                    Err(e) => {
                        proof {
                            assert(load_rules(start, dv.rules.take(j + 1)) == Err::<
                                Loaded,
                                RegistryErrorView,
                            >(RegistryErrorView::DuplicateRule(dv.rules[j].id)));
                            lemma_load_rules_refusal_persists(start, dv.rules, j + 1);
                            lemma_load_refusal_persists(all, k + 1);
                        }
                        return Err(e);
                    },
                }
                proof {
                    j = j + 1;
                }
            }
            assert(dv.rules.take(j) =~= dv.rules);
            proof {
                k = k + 1;
            }
        }
        assert(all.take(k) =~= all);
        Ok(Registry { version, audited_at, domains, rules })
    }
}

impl Registry {
    /// The registry's data version.
    pub fn version(&self) -> (v: &str)
        ensures
            v@ == self@.version,
    {
        self.version.as_str()
    }

    /// The date of the registry's audit.
    pub fn audited_at(&self) -> (a: &str)
        ensures
            a@ == self@.audited_at,
    {
        self.audited_at.as_str()
    }

    /// How many rules the registry holds.
    pub fn rule_count(&self) -> (n: usize)
        requires
            self@.well_formed(),
        ensures
            n == self@.rules.len(),
            n == self@.rule_map().dom().len(),
    {
        proof {
            let rules = self@.rules;
            lemma_rules_by_id(rules);
            lemma_sorted_ids_distinct(rules);
            let ids = rule_ids_of(rules);
            assert(ids.no_duplicates()) by {
                assert forall|i: int, j: int| 0 <= i < ids.len() && 0 <= j < ids.len() && i != j implies ids[i] != ids[j] by {
                    assert(rules[i].id != rules[j].id);
                }
            }
            ids.unique_seq_to_set();
            assert forall|id: Seq<char>| #[trigger] self@.rule_map().dom().contains(id) <==> ids.to_set().contains(id) by {
                if ids.to_set().contains(id) {
                    let i = choose|i: int| 0 <= i < ids.len() && ids[i] == id;
                    assert(rules[i].id == id);
                }
                if self@.rule_map().dom().contains(id) {
                    let i = choose|i: int| 0 <= i < rules.len() && rules[i].id == id;
                    assert(ids[i] == id);
                }
            }
            assert(self@.rule_map().dom() =~= ids.to_set());
        }
        self.rules.len()
    }

    /// How many domains the registry covers.
    pub fn domain_count(&self) -> (n: usize)
        requires
            self@.well_formed(),
        ensures
            n == self@.domains.len(),
            n == self@.domains.to_set().len(),
    {
        proof {
            self@.domains.unique_seq_to_set();
        }
        self.domains.len()
    }

    /// Whether the registry holds the rule `id`.
    pub fn holds(&self, id: &str) -> (r: bool)
        requires
            self@.well_formed(),
        ensures
            r == self@.rule_map().contains_key(id@),
    {
        let ghost rules = self@.rules;
        proof {
            lemma_rules_by_id(rules);
        }
        let mut i: usize = 0;
        while i < self.rules.len()
            invariant
                rules == self@.rules,
                rules == rule_views(self.rules@),
                i <= rules.len(),
                forall|j: int| 0 <= j < i ==> rules[j].id != id@,
            decreases self.rules@.len() - i,
        {
            if str_eq(self.rules[i].id.as_str(), id) {
                assert(rules[i as int].id == id@);
                assert(rules_by_id(rules).contains_key(rules[i as int].id));
                return true;
            }
            i = i + 1;
        }
        proof {
            if rules_by_id(rules).contains_key(id@) {
                let j = choose|j: int| 0 <= j < rules.len() && rules[j].id == id@;
                assert(rules[j].id != id@);
            }
        }
        false
    }

    /// The rule `id`, which the registry must hold.
    pub fn rule(&self, id: &str) -> (r: &Rule)
        requires
            self@.well_formed(),
            self@.rule_map().contains_key(id@),
        ensures
            r@ == self@.rule_map()[id@],
    {
        let ghost rules = self@.rules;
        proof {
            lemma_rules_by_id(rules);
        }
        let ghost at = choose|i: int| 0 <= i < rules.len() && rules[i].id == id@;
        let mut i: usize = 0;
        while i < self.rules.len()
            invariant
                rules == self@.rules,
                rules == rule_views(self.rules@),
                sorted_by_id(rules),
                0 <= at < rules.len(),
                rules[at].id == id@,
                i <= at,
            decreases self.rules@.len() - i,
        {
            if str_eq(self.rules[i].id.as_str(), id) {
                assert(rules[i as int].id == id@);
                proof {
                    lemma_rules_by_id(rules);
                }
                return &self.rules[i];
            }
            i = i + 1;
        }
        assert(false);
        &self.rules[0]
    }

    /// The sources of the rules `ids`, which the registry must all hold, in
    /// order and each official address once.
    pub fn sources(&self, ids: &[&str]) -> (s: Vec<Source>)
        requires
            self@.well_formed(),
            forall|i: int| 0 <= i < ids@.len() ==> self@.rule_map().contains_key(#[trigger] ids@[i]@),
        ensures
            source_views(s@) == cited_sources(self@.rule_map(), str_views(ids@), Set::empty()),
    {
        let ghost rules = self@.rule_map();
        let ghost all = str_views(ids@);
        let mut out: Vec<Source> = Vec::new();
        let mut seen: Vec<String> = Vec::new();
        let mut i: usize = 0;
        proof {
            assert(all.skip(0) =~= all);
            assert(seen@.map_values(|u: String| u@).to_set() =~= Set::<Seq<char>>::empty());
            assert(source_views(out@) =~= Seq::<SourceView>::empty());
        }
        while i < ids.len()
            invariant
                rules == self@.rule_map(),
                self@.well_formed(),
                all == str_views(ids@),
                forall|j: int| 0 <= j < ids@.len() ==> self@.rule_map().contains_key(#[trigger] ids@[j]@),
                i <= ids@.len(),
                cited_sources(rules, all, Set::empty()) == source_views(out@) + cited_sources(
                    rules,
                    all.skip(i as int),
                    seen@.map_values(|u: String| u@).to_set(),
                ),
            decreases ids@.len() - i,
        {
            let ghost seen_set = seen@.map_values(|u: String| u@).to_set();
            let ghost rest = all.skip(i as int);
            assert(rest[0] == ids@[i as int]@);
            assert(rest.drop_first() =~= all.skip(i + 1));
            let rule = self.rule(ids[i]);
            let mut known = false;
            let mut k: usize = 0;
            while k < seen.len()
                invariant
                    k <= seen@.len(),
                    known == exists|j: int| 0 <= j < k && (#[trigger] seen@[j])@ == rule@.source_url,
                decreases seen@.len() - k,
            {
                if seen[k] == rule.source_url {
                    known = true;
                }
                k = k + 1;
            }
            assert(known == seen_set.contains(rule@.source_url)) by {
                if known {
                    let j = choose|j: int| 0 <= j < seen@.len() && (#[trigger] seen@[j])@ == rule@.source_url;
                    assert(seen@.map_values(|u: String| u@)[j] == rule@.source_url);
                }
                if seen_set.contains(rule@.source_url) {
                    let views = seen@.map_values(|u: String| u@);
                    let j = choose|j: int| 0 <= j < views.len() && #[trigger] views[j] == rule@.source_url;
                    assert(seen@[j]@ == rule@.source_url);
                }
            }
            if !known {
                let ghost before_out = source_views(out@);
                let ghost before_seen = seen@.map_values(|u: String| u@);
                out.push(
                    Source {
                        rule_id: rule.id.clone(),
                        url: rule.source_url.clone(),
                        legal_basis: rule.legal_basis.clone(),
                        checked_at: rule.checked_at.clone(),
                    },
                );
                seen.push(rule.source_url.clone());
                proof {
                    assert(source_views(out@) =~= before_out.push(source_of(rule@)));
                    assert(seen@.map_values(|u: String| u@) =~= before_seen.push(rule@.source_url));
                    before_seen.lemma_push_to_set_commute(rule@.source_url);
                    assert(before_out.push(source_of(rule@)) + cited_sources(rules, all.skip(i + 1), seen_set.insert(rule@.source_url)) =~= before_out + (seq![source_of(rule@)] + cited_sources(rules, all.skip(i + 1), seen_set.insert(rule@.source_url))));
                }
            }
            i = i + 1;
        }
        proof {
            assert(all.skip(i as int) =~= Seq::<Seq<char>>::empty());
            assert(source_views(out@) + Seq::<SourceView>::empty() =~= source_views(out@));
        }
        out
    }

    /// The sources of every rule, in the order of their identifiers, each
    /// official address once.
    pub fn all_sources(&self) -> (s: Vec<Source>)
        requires
            self@.well_formed(),
        ensures
            source_views(s@) == cited_sources(self@.rule_map(), rule_ids_of(self@.rules), Set::empty()),
    {
        let ghost rules = self@.rules;
        proof {
            lemma_rules_by_id(rules);
        }
        let mut ids: Vec<&str> = Vec::new();
        let mut i: usize = 0;
        while i < self.rules.len()
            invariant
                rules == self@.rules,
                rules == rule_views(self.rules@),
                i <= rules.len(),
                str_views(ids@) =~= rule_ids_of(rules).take(i as int),
            decreases self.rules@.len() - i,
        {
            let ghost before = str_views(ids@);
            ids.push(self.rules[i].id.as_str());
            assert(str_views(ids@) =~= before.push(rules[i as int].id));
            assert(rule_ids_of(rules).take(i + 1) =~= rule_ids_of(rules).take(i as int).push(rules[i as int].id));
            i = i + 1;
        }
        assert(rule_ids_of(rules).take(i as int) =~= rule_ids_of(rules));
        assert forall|j: int| 0 <= j < ids@.len() implies self@.rule_map().contains_key(#[trigger] ids@[j]@) by {
            assert(str_views(ids@)[j] == rules[j].id);
        }
        self.sources(ids.as_slice())
    }

    /// The sources a response cites for the rules `ids`: those of every rule
    /// when `ids` is empty.
    pub fn cited(&self, ids: &[&str]) -> (s: Vec<Source>)
        requires
            self@.well_formed(),
            forall|i: int| 0 <= i < ids@.len() ==> self@.rule_map().contains_key(#[trigger] ids@[i]@),
        ensures
            source_views(s@) == if ids@.len() == 0 {
                cited_sources(self@.rule_map(), rule_ids_of(self@.rules), Set::empty())
            } else {
                cited_sources(self@.rule_map(), str_views(ids@), Set::empty())
            },
    {
        if ids.len() == 0 {
            self.all_sources()
        } else {
            self.sources(ids)
        }
    }

    /// How many domains and rules the registry holds, and how many rules give
    /// both an official address and a legal basis.
    pub fn coverage(&self) -> (c: Coverage)
        requires
            self@.well_formed(),
        ensures
            c.domains == self@.domains.len(),
            c.total_rules == self@.rules.len(),
            c.sourced_rules == sourced_count(self@.rules),
            c.sourced_rules <= c.total_rules,
    {
        let ghost rules = self@.rules;
        let mut sourced: usize = 0;
        let mut i: usize = 0;
        while i < self.rules.len()
            invariant
                rules == self@.rules,
                rules == rule_views(self.rules@),
                i <= rules.len(),
                sourced == sourced_count(rules.take(i as int)),
                sourced <= i,
            decreases self.rules@.len() - i,
        {
            let rule = &self.rules[i];
            assert(rules.take(i + 1).drop_last() =~= rules.take(i as int));
            if !rule.source_url.as_str().is_empty() && !rule.legal_basis.as_str().is_empty() {
                sourced = sourced + 1;
            }
            i = i + 1;
        }
        assert(rules.take(i as int) =~= rules);
        Coverage { domains: self.domain_count(), total_rules: self.rule_count(), sourced_rules: sourced }
    }

    /// The period a response's figures apply to: 2025 income, declared in
    /// 2026, under this registry's audit.
    pub fn effective_period(&self) -> (p: EffectivePeriod)
        ensures
            p.income_year == 2025,
            p.declaration_year == 2026,
            p.audited_at@ == self@.audited_at,
    {
        EffectivePeriod { income_year: 2025, declaration_year: 2026, audited_at: self.audited_at.clone() }
    }
}

} // verus!
