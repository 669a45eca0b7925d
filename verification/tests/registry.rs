use fiscal_core::registry::{DomainRegistry, Registry, RegistryError, Rule};

fn rule(id: &str, url: &str, basis: &str) -> Rule {
    Rule {
        id: id.to_owned(),
        value: toml::Value::Float(0.25),
        unit: "ratio".to_owned(),
        income_year: 2025,
        declaration_year: 2026,
        effective_from: "2026-01-01".to_owned(),
        effective_to: "2026-12-31".to_owned(),
        checked_at: "2026-08-01".to_owned(),
        source_url: url.to_owned(),
        legal_basis: basis.to_owned(),
    }
}

fn doc(version: &str, audited: &str, domain: &str, rules: Vec<Rule>) -> DomainRegistry {
    DomainRegistry {
        registry_version: version.to_owned(),
        audited_at: audited.to_owned(),
        domain: domain.to_owned(),
        rules,
    }
}

fn sample() -> Registry {
    let first = doc(
        "2026.08.01",
        "2026-08-01",
        "income_tax",
        vec![
            rule("ir.scale.rate.2", "https://bofip/a", "CGI 197"),
            rule("ir.scale.rate.1", "https://bofip/a", "CGI 197"),
        ],
    );
    let second = doc(
        "2026.08.01",
        "2026-08-01",
        "business",
        vec![rule("corporate_tax.2026.normal_rate", "https://legifrance/b", "")],
    );
    let third = doc("2026.08.01", "2026-08-01", "income_tax", vec![rule("pass.2026.annual", "", "CSS")]);
    match Registry::from_documents(vec![first, second, third]) {
        Ok(registry) => registry,
        Err(e) => panic!("sample refused: {e:?}"),
    }
}

#[test]
fn loads_documents() {
    let registry = sample();
    assert_eq!(registry.version(), "2026.08.01");
    assert_eq!(registry.audited_at(), "2026-08-01");
    assert_eq!(registry.rule_count(), 4);
    assert_eq!(registry.domain_count(), 2);
    assert!(registry.holds("ir.scale.rate.1"));
    assert!(!registry.holds("ir.scale.rate.9"));
    assert_eq!(registry.rule("pass.2026.annual").legal_basis, "CSS");
}

#[test]
fn cites_each_address_once() {
    let registry = sample();
    let sources = registry.sources(&["ir.scale.rate.1", "ir.scale.rate.2", "corporate_tax.2026.normal_rate"]);
    assert_eq!(sources.len(), 2);
    assert_eq!(sources[0].rule_id, "ir.scale.rate.1");
    assert_eq!(sources[0].url, "https://bofip/a");
    assert_eq!(sources[1].rule_id, "corporate_tax.2026.normal_rate");
    assert_eq!(sources[1].checked_at, "2026-08-01");
}

#[test]
fn all_sources_follow_identifier_order() {
    let registry = sample();
    let sources = registry.all_sources();
    let ids: Vec<&str> = sources.iter().map(|s| s.rule_id.as_str()).collect();
    assert_eq!(ids, vec!["corporate_tax.2026.normal_rate", "ir.scale.rate.1", "pass.2026.annual"]);
    let cited = registry.cited(&[]);
    assert_eq!(cited.len(), 3);
    let cited = registry.cited(&["pass.2026.annual"]);
    assert_eq!(cited.len(), 1);
}

#[test]
fn coverage_counts_sourced_rules() {
    let registry = sample();
    let coverage = registry.coverage();
    assert_eq!(coverage.domains, 2);
    assert_eq!(coverage.total_rules, 4);
    assert_eq!(coverage.sourced_rules, 2);
}

#[test]
fn effective_period_of_registry() {
    let period = sample().effective_period();
    assert_eq!(period.income_year, 2025);
    assert_eq!(period.declaration_year, 2026);
    assert_eq!(period.audited_at, "2026-08-01");
}

#[test]
fn refuses_duplicate_rules() {
    let first = doc("v1", "d1", "a", vec![rule("x", "u", "b")]);
    let second = doc("v1", "d1", "b", vec![rule("y", "u", "b"), rule("x", "u", "b")]);
    match Registry::from_documents(vec![first, second]) {
        Err(RegistryError::DuplicateRule(id)) => assert_eq!(id, "x"),
        _ => panic!("duplicate accepted"),
    }
}

#[test]
fn refuses_mixed_headers() {
    let first = doc("v1", "d1", "a", vec![]);
    let second = doc("v2", "d1", "b", vec![]);
    assert!(matches!(Registry::from_documents(vec![first, second]), Err(RegistryError::MixedVersions)));
    let first = doc("v1", "d1", "a", vec![]);
    let second = doc("v1", "d2", "b", vec![]);
    assert!(matches!(Registry::from_documents(vec![first, second]), Err(RegistryError::MixedAuditDates)));
}

#[test]
fn first_named_version_is_adopted() {
    let first = doc("", "d0", "a", vec![]);
    let second = doc("v2", "d2", "b", vec![rule("x", "u", "b")]);
    match Registry::from_documents(vec![first, second]) {
        Ok(registry) => {
            assert_eq!(registry.version(), "v2");
            assert_eq!(registry.audited_at(), "d2");
        },
        Err(e) => panic!("refused: {e:?}"),
    }
}

#[test]
fn no_documents_give_an_empty_registry() {
    match Registry::from_documents(vec![]) {
        Ok(registry) => {
            assert_eq!(registry.rule_count(), 0);
            assert_eq!(registry.version(), "");
            assert!(registry.all_sources().is_empty());
        },
        Err(e) => panic!("refused: {e:?}"),
    }
}
