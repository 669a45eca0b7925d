use fiscal_core::rule_ids::{
    bracket_id_string, bracket_ids, donation_allowance_index, guide_rule_ids, guide_title,
    income_tax_rules, life_insurance_allowance_index, micro_rule_ids, pea_limit_index,
    sales_activity, usufruct_percent, vat_threshold_id,
};

#[test]
fn bracket_identifiers() {
    let ids = bracket_ids(2026);
    assert_eq!(ids[0], "ir.2026.bracket.0.ceiling");
    assert_eq!(ids[1], "ir.2026.bracket.1.ceiling");
    assert_eq!(ids[2], "ir.2026.bracket.2.ceiling");
    assert_eq!(ids[3], "ir.2026.bracket.3.ceiling");
    assert_eq!(bracket_ids(2025)[3], "ir.2025.bracket.3.ceiling");
    assert_eq!(bracket_id_string(7, 12), "ir.7.bracket.12.ceiling");
}

#[test]
fn income_tax_rule_lists() {
    let ids = income_tax_rules(2025);
    assert_eq!(ids.len(), 8);
    assert_eq!(ids[0], "ir.2025.bracket.0.ceiling");
    assert_eq!(ids[7], "ir.scale.rate.4");
    let ids = income_tax_rules(2026);
    assert_eq!(ids.len(), 12);
    assert_eq!(ids[4], "ir.scale.rate.1");
    assert_eq!(ids[8], "ir.2026.family_quotient.half_share_cap");
    assert_eq!(ids[11], "ir.2026.decote.rate");
}

#[test]
fn activity_rules() {
    assert!(sales_activity("vente_marchandises"));
    assert!(sales_activity("hebergement_touristique"));
    assert!(!sales_activity("services"));
    assert_eq!(vat_threshold_id("commerce"), "vat.2026.sales.base_threshold");
    assert_eq!(vat_threshold_id("services"), "vat.2026.services.base_threshold");
    assert_eq!(micro_rule_ids("vente"), ("micro.2026.sales.threshold", "micro.2026.social.sales_rate"));
    assert_eq!(
        micro_rule_ids("prestations_bic"),
        ("micro.2026.services.threshold", "micro.2026.social.services_bic_rate")
    );
    assert_eq!(
        micro_rule_ids("liberal_cipav"),
        ("micro.2026.services.threshold", "micro.2026.social.cipav_rate")
    );
    assert_eq!(
        micro_rule_ids("prestations_bnc"),
        ("micro.2026.services.threshold", "micro.2026.social.bnc_rate")
    );
}

#[test]
fn allowance_positions() {
    assert_eq!(pea_limit_index("pea_pme"), 1);
    assert_eq!(pea_limit_index("classique"), 0);
    assert_eq!(life_insurance_allowance_index("pacse"), 1);
    assert_eq!(life_insurance_allowance_index("celibataire"), 0);
    assert_eq!(donation_allowance_index("enfant"), 0);
    assert_eq!(donation_allowance_index("parent"), 0);
    assert_eq!(donation_allowance_index("petit_enfant"), 1);
    assert_eq!(donation_allowance_index("frere_soeur"), 2);
    assert_eq!(donation_allowance_index("neveu_niece"), 3);
    assert_eq!(donation_allowance_index("epoux"), 4);
    assert_eq!(donation_allowance_index("autre"), 5);
}

#[test]
fn usufruct_table() {
    assert_eq!(usufruct_percent(0), 90);
    assert_eq!(usufruct_percent(20), 90);
    assert_eq!(usufruct_percent(21), 80);
    assert_eq!(usufruct_percent(45), 60);
    assert_eq!(usufruct_percent(90), 20);
    assert_eq!(usufruct_percent(91), 10);
    let mut previous = 100;
    for age in 0..120 {
        let p = usufruct_percent(age);
        assert!(p <= previous);
        previous = p;
    }
}

#[test]
fn guides() {
    assert_eq!(guide_title("guide_frais_reels"), "guide frais reels");
    assert_eq!(guide_rule_ids("calendrier_fiscal"), vec!["calendar.2026.income_tax"]);
    assert_eq!(guide_rule_ids("lister_epargne_defiscalisante").len(), 5);
    assert!(guide_rule_ids("guide_maprimerenov").is_empty());
}
