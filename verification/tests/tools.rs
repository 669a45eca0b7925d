use fiscal_core::error::FiscalError;
use fiscal_core::tools::{catalogue, dispatch, Tool};

#[test]
fn dispatch_known_tools() {
    assert_eq!(dispatch("calculer_impot_revenu"), Ok(Tool::IncomeTax));
    assert_eq!(dispatch("calculer_revenus_remplacement"), Ok(Tool::ReplacementIncome));
    assert_eq!(dispatch("simuler_revenus_remplacement"), Ok(Tool::ReplacementIncome));
    assert_eq!(dispatch("optimiser_tns"), Ok(Tool::Diagnostic));
    assert_eq!(dispatch("guide_loc_avantages"), Ok(Tool::Guide));
    assert_eq!(dispatch("verifier_actualite_fiscale"), Ok(Tool::Freshness));
    assert_eq!(dispatch("simuler_depart_retraite"), Ok(Tool::Retirement));
}

#[test]
fn dispatch_unknown_tool_names_it() {
    let refused = dispatch("calculer_impot_revenus").unwrap_err();
    assert_eq!(refused, FiscalError::UnknownTool("calculer_impot_revenus".to_owned()));
    assert_eq!(refused.message(), "outil inconnu : calculer_impot_revenus");
    assert!(dispatch("").is_err());
}

#[test]
fn every_catalogued_tool_is_dispatchable() {
    let table = catalogue();
    assert_eq!(table.len(), 63);
    for (name, tool) in table {
        assert_eq!(dispatch(name), Ok(tool), "tool {name} is not dispatchable");
    }
}

#[test]
fn catalogue_names_are_unique() {
    let table = catalogue();
    for (i, (a, _)) in table.iter().enumerate() {
        for (b, _) in table.iter().skip(i + 1) {
            assert_ne!(a, b);
        }
    }
}
