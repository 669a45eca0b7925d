//! The catalogue of tools and the dispatch of a tool name to its handler.

use vstd::prelude::*;

use crate::error::{FiscalError, FiscalErrorView};
use crate::text::str_eq;
use vstd::string::StringExecFns;

verus! {

/// The handler that serves a tool call.
#[derive(Debug, Clone, Copy, PartialEq, Eq, Structural)]
pub enum Tool {
    /// Income tax on the progressive scale, with family quotient cap and discount.
    IncomeTax,
    /// Marginal bracket of an annual income.
    Brackets,
    /// Number of family tax shares.
    FamilyQuotient,
    /// Income tax saved by a retirement savings plan payment.
    PerSaving,
    /// Real-estate wealth tax.
    Ifi,
    /// Corporate income tax.
    CorporateTax,
    /// Net VAT due and franchise threshold.
    Vat,
    /// Micro-entrepreneur social contributions and threshold.
    Micro,
    /// Flat tax against the progressive scale for investment income.
    PfuComparison,
    /// Flat tax on a securities capital gain.
    CapitalGain,
    /// Capital gain on a crypto-asset sale.
    Crypto,
    /// Capital gain on a property sale, with holding allowances.
    PropertyGain,
    /// Micro-foncier against actual-expense rental regime.
    MicroFoncier,
    /// Furnished rental result after depreciation.
    Lmnp,
    /// Gross income of a real-estate fund investment.
    Scpi,
    /// Levies on a share savings plan withdrawal.
    Pea,
    /// Tax on a life insurance withdrawal.
    LifeInsurance,
    /// Retirement savings plan exit in capital.
    PerExit,
    /// Withholding-at-source rate.
    Withholding,
    /// Business property contribution (documentary).
    Cfe,
    /// Exceptional income under the quotient system.
    ExceptionalIncome,
    /// Replacement income (documentary).
    ReplacementIncome,
    /// Taxable gift after allowance.
    Donation,
    /// Estate (documentary).
    Succession,
    /// Value of bare ownership by the usufructuary's age.
    BareOwnership,
    /// Partner's share of a property company's result.
    Sci,
    /// Capital gain on a business sale.
    BusinessSale,
    /// Dividend through a holding company.
    Holding,
    /// French tax on worldwide income.
    ForeignIncome,
    /// Exit tax triggers.
    ExitTax,
    /// Employee savings totals.
    EmployeeSavings,
    /// Retirement orientation.
    Retirement,
    /// Tax diagnostic.
    Diagnostic,
    /// Documentary guide.
    Guide,
    /// Age of the fiscal data.
    Freshness,
}

/// Every tool name the engine answers to, in dispatch order, with its handler.
pub open spec fn tool_catalogue() -> Seq<(Seq<char>, Tool)> {
    seq![
        ("calculer_impot_revenu"@, Tool::IncomeTax),
        ("simuler_tranches_imposition"@, Tool::Brackets),
        ("calculer_quotient_familial"@, Tool::FamilyQuotient),
        ("calculer_economie_per"@, Tool::PerSaving),
        ("calculer_ifi"@, Tool::Ifi),
        ("calculer_impot_societes"@, Tool::CorporateTax),
        ("calculer_tva"@, Tool::Vat),
        ("guide_auto_entrepreneur"@, Tool::Micro),
        ("comparer_pfu_bareme_capital"@, Tool::PfuComparison),
        ("calculer_plus_values"@, Tool::CapitalGain),
        ("calculer_fiscalite_crypto"@, Tool::Crypto),
        ("calculer_pv_immobiliere"@, Tool::PropertyGain),
        ("simuler_micro_foncier"@, Tool::MicroFoncier),
        ("simuler_lmnp"@, Tool::Lmnp),
        ("simuler_scpi"@, Tool::Scpi),
        ("simuler_investissement_pea"@, Tool::Pea),
        ("simuler_assurance_vie"@, Tool::LifeInsurance),
        ("simuler_sortie_per"@, Tool::PerExit),
        ("calculer_prelevement_source"@, Tool::Withholding),
        ("calculer_cfe"@, Tool::Cfe),
        ("simuler_revenus_exceptionnels"@, Tool::ExceptionalIncome),
        ("simuler_revenus_remplacement"@, Tool::ReplacementIncome),
        ("calculer_revenus_remplacement"@, Tool::ReplacementIncome),
        ("simuler_droits_donation"@, Tool::Donation),
        ("calculer_succession"@, Tool::Succession),
        ("simuler_demembrement"@, Tool::BareOwnership),
        ("simuler_sci"@, Tool::Sci),
        ("simuler_cession_entreprise"@, Tool::BusinessSale),
        ("simuler_holding"@, Tool::Holding),
        ("calculer_revenu_etranger"@, Tool::ForeignIncome),
        ("calculer_exit_tax"@, Tool::ExitTax),
        ("optimiser_epargne_salariale"@, Tool::EmployeeSavings),
        ("simuler_rachat_trimestres"@, Tool::Retirement),
        ("simuler_depart_retraite"@, Tool::Retirement),
        ("simuler_reversion_pension"@, Tool::Retirement),
        ("optimiser_impots"@, Tool::Diagnostic),
        ("diagnostic_fiscal_complet"@, Tool::Diagnostic),
        ("optimiser_tns"@, Tool::Diagnostic),
        ("optimiser_remuneration_dirigeant"@, Tool::Diagnostic),
        ("guide_defiscalisation_solidaire"@, Tool::Diagnostic),
        ("comparer_statuts_professionnel"@, Tool::Diagnostic),
        ("diagnostiquer_passage_freelance"@, Tool::Diagnostic),
        ("lister_credits_impot"@, Tool::Guide),
        ("lister_reductions_impot"@, Tool::Guide),
        ("lister_deductions_revenu"@, Tool::Guide),
        ("lister_epargne_defiscalisante"@, Tool::Guide),
        ("guide_frais_reels"@, Tool::Guide),
        ("calendrier_fiscal"@, Tool::Guide),
        ("info_fiscalite_immobilier"@, Tool::Guide),
        ("analyser_declaration_revenus"@, Tool::Guide),
        ("guide_maprimerenov"@, Tool::Guide),
        ("checker_eligibilite_aides"@, Tool::Guide),
        ("comparer_scenarios"@, Tool::Guide),
        ("guide_fiscalite_internationale"@, Tool::Guide),
        ("guide_frontaliers"@, Tool::Guide),
        ("simuler_pacte_dutreil"@, Tool::Guide),
        ("guide_evenements_vie"@, Tool::Guide),
        ("guide_fiscalite_agricole"@, Tool::Guide),
        ("guide_fiscalite_outremer"@, Tool::Guide),
        ("guide_taxe_fonciere"@, Tool::Guide),
        ("guide_revision_declaration"@, Tool::Guide),
        ("guide_loc_avantages"@, Tool::Guide),
        ("verifier_actualite_fiscale"@, Tool::Freshness),
    ]
}

/// The handler of the first catalogue entry named `name`, if any.
pub open spec fn lookup_tool(table: Seq<(Seq<char>, Tool)>, name: Seq<char>) -> Option<Tool>
    decreases table.len(),
{
    if table.len() == 0 {
        None
    } else if table[0].0 == name {
        Some(table[0].1)
    } else {
        lookup_tool(table.drop_first(), name)
    }
}

/// The handler that serves `name`, if the engine answers to it: each name of
/// the catalogue, in the catalogue's order.
pub open spec fn tool_for(name: Seq<char>) -> Option<Tool> {
    if name == "calculer_impot_revenu"@ {
        Some(Tool::IncomeTax)
    } else if name == "simuler_tranches_imposition"@ {
        Some(Tool::Brackets)
    } else if name == "calculer_quotient_familial"@ {
        Some(Tool::FamilyQuotient)
    } else if name == "calculer_economie_per"@ {
        Some(Tool::PerSaving)
    } else if name == "calculer_ifi"@ {
        Some(Tool::Ifi)
    } else if name == "calculer_impot_societes"@ {
        Some(Tool::CorporateTax)
    } else if name == "calculer_tva"@ {
        Some(Tool::Vat)
    } else if name == "guide_auto_entrepreneur"@ {
        Some(Tool::Micro)
    } else if name == "comparer_pfu_bareme_capital"@ {
        Some(Tool::PfuComparison)
    } else if name == "calculer_plus_values"@ {
        Some(Tool::CapitalGain)
    } else if name == "calculer_fiscalite_crypto"@ {
        Some(Tool::Crypto)
    } else if name == "calculer_pv_immobiliere"@ {
        Some(Tool::PropertyGain)
    } else if name == "simuler_micro_foncier"@ {
        Some(Tool::MicroFoncier)
    } else if name == "simuler_lmnp"@ {
        Some(Tool::Lmnp)
    } else if name == "simuler_scpi"@ {
        Some(Tool::Scpi)
    } else if name == "simuler_investissement_pea"@ {
        Some(Tool::Pea)
    } else if name == "simuler_assurance_vie"@ {
        Some(Tool::LifeInsurance)
    } else if name == "simuler_sortie_per"@ {
        Some(Tool::PerExit)
    } else if name == "calculer_prelevement_source"@ {
        Some(Tool::Withholding)
    } else if name == "calculer_cfe"@ {
        Some(Tool::Cfe)
    } else if name == "simuler_revenus_exceptionnels"@ {
        Some(Tool::ExceptionalIncome)
    } else if name == "simuler_revenus_remplacement"@ {
        Some(Tool::ReplacementIncome)
    } else if name == "calculer_revenus_remplacement"@ {
        Some(Tool::ReplacementIncome)
    } else if name == "simuler_droits_donation"@ {
        Some(Tool::Donation)
    } else if name == "calculer_succession"@ {
        Some(Tool::Succession)
    } else if name == "simuler_demembrement"@ {
        Some(Tool::BareOwnership)
    } else if name == "simuler_sci"@ {
        Some(Tool::Sci)
    } else if name == "simuler_cession_entreprise"@ {
        Some(Tool::BusinessSale)
    } else if name == "simuler_holding"@ {
        Some(Tool::Holding)
    } else if name == "calculer_revenu_etranger"@ {
        Some(Tool::ForeignIncome)
    } else if name == "calculer_exit_tax"@ {
        Some(Tool::ExitTax)
    } else if name == "optimiser_epargne_salariale"@ {
        Some(Tool::EmployeeSavings)
    } else if name == "simuler_rachat_trimestres"@ {
        Some(Tool::Retirement)
    } else if name == "simuler_depart_retraite"@ {
        Some(Tool::Retirement)
    } else if name == "simuler_reversion_pension"@ {
        Some(Tool::Retirement)
    } else if name == "optimiser_impots"@ {
        Some(Tool::Diagnostic)
    } else if name == "diagnostic_fiscal_complet"@ {
        Some(Tool::Diagnostic)
    } else if name == "optimiser_tns"@ {
        Some(Tool::Diagnostic)
    } else if name == "optimiser_remuneration_dirigeant"@ {
        Some(Tool::Diagnostic)
    } else if name == "guide_defiscalisation_solidaire"@ {
        Some(Tool::Diagnostic)
    } else if name == "comparer_statuts_professionnel"@ {
        Some(Tool::Diagnostic)
    } else if name == "diagnostiquer_passage_freelance"@ {
        Some(Tool::Diagnostic)
    } else if name == "lister_credits_impot"@ {
        Some(Tool::Guide)
    } else if name == "lister_reductions_impot"@ {
        Some(Tool::Guide)
    } else if name == "lister_deductions_revenu"@ {
        Some(Tool::Guide)
    } else if name == "lister_epargne_defiscalisante"@ {
        Some(Tool::Guide)
    } else if name == "guide_frais_reels"@ {
        Some(Tool::Guide)
    } else if name == "calendrier_fiscal"@ {
        Some(Tool::Guide)
    } else if name == "info_fiscalite_immobilier"@ {
        Some(Tool::Guide)
    } else if name == "analyser_declaration_revenus"@ {
        Some(Tool::Guide)
    } else if name == "guide_maprimerenov"@ {
        Some(Tool::Guide)
    } else if name == "checker_eligibilite_aides"@ {
        Some(Tool::Guide)
    } else if name == "comparer_scenarios"@ {
        Some(Tool::Guide)
    } else if name == "guide_fiscalite_internationale"@ {
        Some(Tool::Guide)
    } else if name == "guide_frontaliers"@ {
        Some(Tool::Guide)
    } else if name == "simuler_pacte_dutreil"@ {
        Some(Tool::Guide)
    } else if name == "guide_evenements_vie"@ {
        Some(Tool::Guide)
    } else if name == "guide_fiscalite_agricole"@ {
        Some(Tool::Guide)
    } else if name == "guide_fiscalite_outremer"@ {
        Some(Tool::Guide)
    } else if name == "guide_taxe_fonciere"@ {
        Some(Tool::Guide)
    } else if name == "guide_revision_declaration"@ {
        Some(Tool::Guide)
    } else if name == "guide_loc_avantages"@ {
        Some(Tool::Guide)
    } else if name == "verifier_actualite_fiscale"@ {
        Some(Tool::Freshness)
    } else {
        None
    }
}

/// The catalogue as executable data: each name with its handler.
pub fn catalogue() -> (t: Vec<(&'static str, Tool)>)
    ensures
        t@.len() == tool_catalogue().len(),
        forall|k: int|
            0 <= k < t@.len() ==> (#[trigger] t@[k]).0@ == tool_catalogue()[k].0 && t@[k].1
                == tool_catalogue()[k].1,
{
    let t = vec![
        ("calculer_impot_revenu", Tool::IncomeTax),
        ("simuler_tranches_imposition", Tool::Brackets),
        ("calculer_quotient_familial", Tool::FamilyQuotient),
        ("calculer_economie_per", Tool::PerSaving),
        ("calculer_ifi", Tool::Ifi),
        ("calculer_impot_societes", Tool::CorporateTax),
        ("calculer_tva", Tool::Vat),
        ("guide_auto_entrepreneur", Tool::Micro),
        ("comparer_pfu_bareme_capital", Tool::PfuComparison),
        ("calculer_plus_values", Tool::CapitalGain),
        ("calculer_fiscalite_crypto", Tool::Crypto),
        ("calculer_pv_immobiliere", Tool::PropertyGain),
        ("simuler_micro_foncier", Tool::MicroFoncier),
        ("simuler_lmnp", Tool::Lmnp),
        ("simuler_scpi", Tool::Scpi),
        ("simuler_investissement_pea", Tool::Pea),
        ("simuler_assurance_vie", Tool::LifeInsurance),
        ("simuler_sortie_per", Tool::PerExit),
        ("calculer_prelevement_source", Tool::Withholding),
        ("calculer_cfe", Tool::Cfe),
        ("simuler_revenus_exceptionnels", Tool::ExceptionalIncome),
        ("simuler_revenus_remplacement", Tool::ReplacementIncome),
        ("calculer_revenus_remplacement", Tool::ReplacementIncome),
        ("simuler_droits_donation", Tool::Donation),
        ("calculer_succession", Tool::Succession),
        ("simuler_demembrement", Tool::BareOwnership),
        ("simuler_sci", Tool::Sci),
        ("simuler_cession_entreprise", Tool::BusinessSale),
        ("simuler_holding", Tool::Holding),
        ("calculer_revenu_etranger", Tool::ForeignIncome),
        ("calculer_exit_tax", Tool::ExitTax),
        ("optimiser_epargne_salariale", Tool::EmployeeSavings),
        ("simuler_rachat_trimestres", Tool::Retirement),
        ("simuler_depart_retraite", Tool::Retirement),
        ("simuler_reversion_pension", Tool::Retirement),
        ("optimiser_impots", Tool::Diagnostic),
        ("diagnostic_fiscal_complet", Tool::Diagnostic),
        ("optimiser_tns", Tool::Diagnostic),
        ("optimiser_remuneration_dirigeant", Tool::Diagnostic),
        ("guide_defiscalisation_solidaire", Tool::Diagnostic),
        ("comparer_statuts_professionnel", Tool::Diagnostic),
        ("diagnostiquer_passage_freelance", Tool::Diagnostic),
        ("lister_credits_impot", Tool::Guide),
        ("lister_reductions_impot", Tool::Guide),
        ("lister_deductions_revenu", Tool::Guide),
        ("lister_epargne_defiscalisante", Tool::Guide),
        ("guide_frais_reels", Tool::Guide),
        ("calendrier_fiscal", Tool::Guide),
        ("info_fiscalite_immobilier", Tool::Guide),
        ("analyser_declaration_revenus", Tool::Guide),
        ("guide_maprimerenov", Tool::Guide),
        ("checker_eligibilite_aides", Tool::Guide),
        ("comparer_scenarios", Tool::Guide),
        ("guide_fiscalite_internationale", Tool::Guide),
        ("guide_frontaliers", Tool::Guide),
        ("simuler_pacte_dutreil", Tool::Guide),
        ("guide_evenements_vie", Tool::Guide),
        ("guide_fiscalite_agricole", Tool::Guide),
        ("guide_fiscalite_outremer", Tool::Guide),
        ("guide_taxe_fonciere", Tool::Guide),
        ("guide_revision_declaration", Tool::Guide),
        ("guide_loc_avantages", Tool::Guide),
        ("verifier_actualite_fiscale", Tool::Freshness),
    ];
    t
}

/// Finds the handler of `name`, or refuses an unknown tool with its name.
#[verifier::rlimit(50)]
pub fn dispatch(name: &str) -> (r: Result<Tool, FiscalError>)
    ensures
        match tool_for(name@) {
            Some(t) => r == Ok::<Tool, FiscalError>(t),
            None => r matches Err(e) && e@ == FiscalErrorView::UnknownTool(name@),
        },
{
    if str_eq(name, "calculer_impot_revenu") {
        Ok(Tool::IncomeTax)
    } else if str_eq(name, "simuler_tranches_imposition") {
        Ok(Tool::Brackets)
    } else if str_eq(name, "calculer_quotient_familial") {
        Ok(Tool::FamilyQuotient)
    } else if str_eq(name, "calculer_economie_per") {
        Ok(Tool::PerSaving)
    } else if str_eq(name, "calculer_ifi") {
        Ok(Tool::Ifi)
    } else if str_eq(name, "calculer_impot_societes") {
        Ok(Tool::CorporateTax)
    } else if str_eq(name, "calculer_tva") {
        Ok(Tool::Vat)
    } else if str_eq(name, "guide_auto_entrepreneur") {
        Ok(Tool::Micro)
    } else if str_eq(name, "comparer_pfu_bareme_capital") {
        Ok(Tool::PfuComparison)
    } else if str_eq(name, "calculer_plus_values") {
        Ok(Tool::CapitalGain)
    } else if str_eq(name, "calculer_fiscalite_crypto") {
        Ok(Tool::Crypto)
    } else if str_eq(name, "calculer_pv_immobiliere") {
        Ok(Tool::PropertyGain)
    } else if str_eq(name, "simuler_micro_foncier") {
        Ok(Tool::MicroFoncier)
    } else if str_eq(name, "simuler_lmnp") {
        Ok(Tool::Lmnp)
    } else if str_eq(name, "simuler_scpi") {
        Ok(Tool::Scpi)
    } else if str_eq(name, "simuler_investissement_pea") {
        Ok(Tool::Pea)
    } else if str_eq(name, "simuler_assurance_vie") {
        Ok(Tool::LifeInsurance)
    } else if str_eq(name, "simuler_sortie_per") {
        Ok(Tool::PerExit)
    } else if str_eq(name, "calculer_prelevement_source") {
        Ok(Tool::Withholding)
    } else if str_eq(name, "calculer_cfe") {
        Ok(Tool::Cfe)
    } else if str_eq(name, "simuler_revenus_exceptionnels") {
        Ok(Tool::ExceptionalIncome)
    } else if str_eq(name, "simuler_revenus_remplacement") {
        Ok(Tool::ReplacementIncome)
    } else if str_eq(name, "calculer_revenus_remplacement") {
        Ok(Tool::ReplacementIncome)
    } else if str_eq(name, "simuler_droits_donation") {
        Ok(Tool::Donation)
    } else if str_eq(name, "calculer_succession") {
        Ok(Tool::Succession)
    } else if str_eq(name, "simuler_demembrement") {
        Ok(Tool::BareOwnership)
    } else if str_eq(name, "simuler_sci") {
        Ok(Tool::Sci)
    } else if str_eq(name, "simuler_cession_entreprise") {
        Ok(Tool::BusinessSale)
    } else if str_eq(name, "simuler_holding") {
        Ok(Tool::Holding)
    } else if str_eq(name, "calculer_revenu_etranger") {
        Ok(Tool::ForeignIncome)
    } else if str_eq(name, "calculer_exit_tax") {
        Ok(Tool::ExitTax)
    } else if str_eq(name, "optimiser_epargne_salariale") {
        Ok(Tool::EmployeeSavings)
    } else if str_eq(name, "simuler_rachat_trimestres") {
        Ok(Tool::Retirement)
    } else if str_eq(name, "simuler_depart_retraite") {
        Ok(Tool::Retirement)
    } else if str_eq(name, "simuler_reversion_pension") {
        Ok(Tool::Retirement)
    } else if str_eq(name, "optimiser_impots") {
        Ok(Tool::Diagnostic)
    } else if str_eq(name, "diagnostic_fiscal_complet") {
        Ok(Tool::Diagnostic)
    } else if str_eq(name, "optimiser_tns") {
        Ok(Tool::Diagnostic)
    } else if str_eq(name, "optimiser_remuneration_dirigeant") {
        Ok(Tool::Diagnostic)
    } else if str_eq(name, "guide_defiscalisation_solidaire") {
        Ok(Tool::Diagnostic)
    } else if str_eq(name, "comparer_statuts_professionnel") {
        Ok(Tool::Diagnostic)
    } else if str_eq(name, "diagnostiquer_passage_freelance") {
        Ok(Tool::Diagnostic)
    } else if str_eq(name, "lister_credits_impot") {
        Ok(Tool::Guide)
    } else if str_eq(name, "lister_reductions_impot") {
        Ok(Tool::Guide)
    } else if str_eq(name, "lister_deductions_revenu") {
        Ok(Tool::Guide)
    } else if str_eq(name, "lister_epargne_defiscalisante") {
        Ok(Tool::Guide)
    } else if str_eq(name, "guide_frais_reels") {
        Ok(Tool::Guide)
    } else if str_eq(name, "calendrier_fiscal") {
        Ok(Tool::Guide)
    } else if str_eq(name, "info_fiscalite_immobilier") {
        Ok(Tool::Guide)
    } else if str_eq(name, "analyser_declaration_revenus") {
        Ok(Tool::Guide)
    } else if str_eq(name, "guide_maprimerenov") {
        Ok(Tool::Guide)
    } else if str_eq(name, "checker_eligibilite_aides") {
        Ok(Tool::Guide)
    } else if str_eq(name, "comparer_scenarios") {
        Ok(Tool::Guide)
    } else if str_eq(name, "guide_fiscalite_internationale") {
        Ok(Tool::Guide)
    } else if str_eq(name, "guide_frontaliers") {
        Ok(Tool::Guide)
    } else if str_eq(name, "simuler_pacte_dutreil") {
        Ok(Tool::Guide)
    } else if str_eq(name, "guide_evenements_vie") {
        Ok(Tool::Guide)
    } else if str_eq(name, "guide_fiscalite_agricole") {
        Ok(Tool::Guide)
    } else if str_eq(name, "guide_fiscalite_outremer") {
        Ok(Tool::Guide)
    } else if str_eq(name, "guide_taxe_fonciere") {
        Ok(Tool::Guide)
    } else if str_eq(name, "guide_revision_declaration") {
        Ok(Tool::Guide)
    } else if str_eq(name, "guide_loc_avantages") {
        Ok(Tool::Guide)
    } else if str_eq(name, "verifier_actualite_fiscale") {
        Ok(Tool::Freshness)
    } else {
        Err(FiscalError::UnknownTool(String::from_str(name)))
    }
}

/// Each tool name is served by its own handler: income tax, brackets,
/// family quotient, retirement savings, wealth tax, corporate tax, VAT,
/// micro-enterprise, flat tax comparison, capital gains, crypto-assets,
/// property gains, rentals, savings plans, life insurance, withholding,
/// business property contribution, exceptional and replacement income, gifts,
/// estates, bare ownership, property companies, business sales, holdings,
/// foreign income, exit tax, employee savings, retirement, diagnostics,
/// guides and data freshness.
#[verifier::rlimit(100)]
pub proof fn lemma_tool_handlers()
    ensures
        tool_for("calculer_impot_revenu"@) == Some(Tool::IncomeTax),
        tool_for("simuler_tranches_imposition"@) == Some(Tool::Brackets),
        tool_for("calculer_quotient_familial"@) == Some(Tool::FamilyQuotient),
        tool_for("calculer_economie_per"@) == Some(Tool::PerSaving),
        tool_for("calculer_ifi"@) == Some(Tool::Ifi),
        tool_for("calculer_impot_societes"@) == Some(Tool::CorporateTax),
        tool_for("calculer_tva"@) == Some(Tool::Vat),
        tool_for("guide_auto_entrepreneur"@) == Some(Tool::Micro),
        tool_for("comparer_pfu_bareme_capital"@) == Some(Tool::PfuComparison),
        tool_for("calculer_plus_values"@) == Some(Tool::CapitalGain),
        tool_for("calculer_fiscalite_crypto"@) == Some(Tool::Crypto),
        tool_for("calculer_pv_immobiliere"@) == Some(Tool::PropertyGain),
        tool_for("simuler_micro_foncier"@) == Some(Tool::MicroFoncier),
        tool_for("simuler_lmnp"@) == Some(Tool::Lmnp),
        tool_for("simuler_scpi"@) == Some(Tool::Scpi),
        tool_for("simuler_investissement_pea"@) == Some(Tool::Pea),
        tool_for("simuler_assurance_vie"@) == Some(Tool::LifeInsurance),
        tool_for("simuler_sortie_per"@) == Some(Tool::PerExit),
        tool_for("calculer_prelevement_source"@) == Some(Tool::Withholding),
        tool_for("calculer_cfe"@) == Some(Tool::Cfe),
        tool_for("simuler_revenus_exceptionnels"@) == Some(Tool::ExceptionalIncome),
        tool_for("simuler_revenus_remplacement"@) == Some(Tool::ReplacementIncome),
        tool_for("calculer_revenus_remplacement"@) == Some(Tool::ReplacementIncome),
        tool_for("simuler_droits_donation"@) == Some(Tool::Donation),
        tool_for("calculer_succession"@) == Some(Tool::Succession),
        tool_for("simuler_demembrement"@) == Some(Tool::BareOwnership),
        tool_for("simuler_sci"@) == Some(Tool::Sci),
        tool_for("simuler_cession_entreprise"@) == Some(Tool::BusinessSale),
        tool_for("simuler_holding"@) == Some(Tool::Holding),
        tool_for("calculer_revenu_etranger"@) == Some(Tool::ForeignIncome),
        tool_for("calculer_exit_tax"@) == Some(Tool::ExitTax),
        tool_for("optimiser_epargne_salariale"@) == Some(Tool::EmployeeSavings),
        tool_for("simuler_rachat_trimestres"@) == Some(Tool::Retirement),
        tool_for("simuler_depart_retraite"@) == Some(Tool::Retirement),
        tool_for("simuler_reversion_pension"@) == Some(Tool::Retirement),
        tool_for("optimiser_impots"@) == Some(Tool::Diagnostic),
        tool_for("diagnostic_fiscal_complet"@) == Some(Tool::Diagnostic),
        tool_for("optimiser_tns"@) == Some(Tool::Diagnostic),
        tool_for("optimiser_remuneration_dirigeant"@) == Some(Tool::Diagnostic),
        tool_for("guide_defiscalisation_solidaire"@) == Some(Tool::Diagnostic),
        tool_for("comparer_statuts_professionnel"@) == Some(Tool::Diagnostic),
        tool_for("diagnostiquer_passage_freelance"@) == Some(Tool::Diagnostic),
        tool_for("lister_credits_impot"@) == Some(Tool::Guide),
        tool_for("lister_reductions_impot"@) == Some(Tool::Guide),
        tool_for("lister_deductions_revenu"@) == Some(Tool::Guide),
        tool_for("lister_epargne_defiscalisante"@) == Some(Tool::Guide),
        tool_for("guide_frais_reels"@) == Some(Tool::Guide),
        tool_for("calendrier_fiscal"@) == Some(Tool::Guide),
        tool_for("info_fiscalite_immobilier"@) == Some(Tool::Guide),
        tool_for("analyser_declaration_revenus"@) == Some(Tool::Guide),
        tool_for("guide_maprimerenov"@) == Some(Tool::Guide),
        tool_for("checker_eligibilite_aides"@) == Some(Tool::Guide),
        tool_for("comparer_scenarios"@) == Some(Tool::Guide),
        tool_for("guide_fiscalite_internationale"@) == Some(Tool::Guide),
        tool_for("guide_frontaliers"@) == Some(Tool::Guide),
        tool_for("simuler_pacte_dutreil"@) == Some(Tool::Guide),
        tool_for("guide_evenements_vie"@) == Some(Tool::Guide),
        tool_for("guide_fiscalite_agricole"@) == Some(Tool::Guide),
        tool_for("guide_fiscalite_outremer"@) == Some(Tool::Guide),
        tool_for("guide_taxe_fonciere"@) == Some(Tool::Guide),
        tool_for("guide_revision_declaration"@) == Some(Tool::Guide),
        tool_for("guide_loc_avantages"@) == Some(Tool::Guide),
        tool_for("verifier_actualite_fiscale"@) == Some(Tool::Freshness),
{
    reveal_strlit("calculer_impot_revenu");
    assert("calculer_impot_revenu"@.len() == 21);
    assert("calculer_impot_revenu"@[0] == 'c');
    assert("calculer_impot_revenu"@[11] == 'p');
    assert("calculer_impot_revenu"@[16] == 'e');
    reveal_strlit("simuler_tranches_imposition");
    assert("simuler_tranches_imposition"@.len() == 27);
    assert("simuler_tranches_imposition"@[0] == 's');
    assert("simuler_tranches_imposition"@[11] == 'n');
    assert("simuler_tranches_imposition"@[16] == '_');
    reveal_strlit("calculer_quotient_familial");
    assert("calculer_quotient_familial"@.len() == 26);
    assert("calculer_quotient_familial"@[0] == 'c');
    assert("calculer_quotient_familial"@[11] == 'o');
    assert("calculer_quotient_familial"@[16] == 't');
    reveal_strlit("calculer_economie_per");
    assert("calculer_economie_per"@.len() == 21);
    assert("calculer_economie_per"@[0] == 'c');
    assert("calculer_economie_per"@[11] == 'o');
    assert("calculer_economie_per"@[16] == 'e');
    reveal_strlit("calculer_ifi");
    assert("calculer_ifi"@.len() == 12);
    assert("calculer_ifi"@[0] == 'c');
    assert("calculer_ifi"@[11] == 'i');
    reveal_strlit("calculer_impot_societes");
    assert("calculer_impot_societes"@.len() == 23);
    assert("calculer_impot_societes"@[0] == 'c');
    assert("calculer_impot_societes"@[11] == 'p');
    assert("calculer_impot_societes"@[16] == 'o');
    reveal_strlit("calculer_tva");
    assert("calculer_tva"@.len() == 12);
    assert("calculer_tva"@[0] == 'c');
    assert("calculer_tva"@[11] == 'a');
    reveal_strlit("guide_auto_entrepreneur");
    assert("guide_auto_entrepreneur"@.len() == 23);
    assert("guide_auto_entrepreneur"@[0] == 'g');
    assert("guide_auto_entrepreneur"@[11] == 'e');
    assert("guide_auto_entrepreneur"@[16] == 'p');
    reveal_strlit("comparer_pfu_bareme_capital");
    assert("comparer_pfu_bareme_capital"@.len() == 27);
    assert("comparer_pfu_bareme_capital"@[0] == 'c');
    assert("comparer_pfu_bareme_capital"@[11] == 'u');
    assert("comparer_pfu_bareme_capital"@[16] == 'e');
    reveal_strlit("calculer_plus_values");
    assert("calculer_plus_values"@.len() == 20);
    assert("calculer_plus_values"@[0] == 'c');
    assert("calculer_plus_values"@[11] == 'u');
    assert("calculer_plus_values"@[16] == 'l');
    reveal_strlit("calculer_fiscalite_crypto");
    assert("calculer_fiscalite_crypto"@.len() == 25);
    assert("calculer_fiscalite_crypto"@[0] == 'c');
    assert("calculer_fiscalite_crypto"@[11] == 's');
    assert("calculer_fiscalite_crypto"@[16] == 't');
    reveal_strlit("calculer_pv_immobiliere");
    assert("calculer_pv_immobiliere"@.len() == 23);
    assert("calculer_pv_immobiliere"@[0] == 'c');
    assert("calculer_pv_immobiliere"@[11] == '_');
    assert("calculer_pv_immobiliere"@[16] == 'b');
    reveal_strlit("simuler_micro_foncier");
    assert("simuler_micro_foncier"@.len() == 21);
    assert("simuler_micro_foncier"@[0] == 's');
    assert("simuler_micro_foncier"@[11] == 'r');
    assert("simuler_micro_foncier"@[16] == 'n');
    reveal_strlit("simuler_lmnp");
    assert("simuler_lmnp"@.len() == 12);
    assert("simuler_lmnp"@[0] == 's');
    assert("simuler_lmnp"@[11] == 'p');
    reveal_strlit("simuler_scpi");
    assert("simuler_scpi"@.len() == 12);
    assert("simuler_scpi"@[0] == 's');
    assert("simuler_scpi"@[11] == 'i');
    reveal_strlit("simuler_investissement_pea");
    assert("simuler_investissement_pea"@.len() == 26);
    assert("simuler_investissement_pea"@[0] == 's');
    assert("simuler_investissement_pea"@[11] == 'e');
    assert("simuler_investissement_pea"@[16] == 's');
    reveal_strlit("simuler_assurance_vie");
    assert("simuler_assurance_vie"@.len() == 21);
    assert("simuler_assurance_vie"@[0] == 's');
    assert("simuler_assurance_vie"@[11] == 'u');
    assert("simuler_assurance_vie"@[16] == 'e');
    reveal_strlit("simuler_sortie_per");
    assert("simuler_sortie_per"@.len() == 18);
    assert("simuler_sortie_per"@[0] == 's');
    assert("simuler_sortie_per"@[11] == 't');
    assert("simuler_sortie_per"@[16] == 'e');
    reveal_strlit("calculer_prelevement_source");
    assert("calculer_prelevement_source"@.len() == 27);
    assert("calculer_prelevement_source"@[0] == 'c');
    assert("calculer_prelevement_source"@[11] == 'e');
    assert("calculer_prelevement_source"@[16] == 'm');
    reveal_strlit("calculer_cfe");
    assert("calculer_cfe"@.len() == 12);
    assert("calculer_cfe"@[0] == 'c');
    assert("calculer_cfe"@[11] == 'e');
    reveal_strlit("simuler_revenus_exceptionnels");
    assert("simuler_revenus_exceptionnels"@.len() == 29);
    assert("simuler_revenus_exceptionnels"@[0] == 's');
    assert("simuler_revenus_exceptionnels"@[11] == 'e');
    assert("simuler_revenus_exceptionnels"@[16] == 'e');
    reveal_strlit("simuler_revenus_remplacement");
    assert("simuler_revenus_remplacement"@.len() == 28);
    assert("simuler_revenus_remplacement"@[0] == 's');
    assert("simuler_revenus_remplacement"@[11] == 'e');
    assert("simuler_revenus_remplacement"@[16] == 'r');
    reveal_strlit("calculer_revenus_remplacement");
    assert("calculer_revenus_remplacement"@.len() == 29);
    assert("calculer_revenus_remplacement"@[0] == 'c');
    assert("calculer_revenus_remplacement"@[11] == 'v');
    assert("calculer_revenus_remplacement"@[16] == '_');
    reveal_strlit("simuler_droits_donation");
    assert("simuler_droits_donation"@.len() == 23);
    assert("simuler_droits_donation"@[0] == 's');
    assert("simuler_droits_donation"@[11] == 'i');
    assert("simuler_droits_donation"@[16] == 'o');
    reveal_strlit("calculer_succession");
    assert("calculer_succession"@.len() == 19);
    assert("calculer_succession"@[0] == 'c');
    assert("calculer_succession"@[11] == 'c');
    assert("calculer_succession"@[16] == 'i');
    reveal_strlit("simuler_demembrement");
    assert("simuler_demembrement"@.len() == 20);
    assert("simuler_demembrement"@[0] == 's');
    assert("simuler_demembrement"@[11] == 'e');
    assert("simuler_demembrement"@[16] == 'm');
    reveal_strlit("simuler_sci");
    assert("simuler_sci"@.len() == 11);
    assert("simuler_sci"@[0] == 's');
    reveal_strlit("simuler_cession_entreprise");
    assert("simuler_cession_entreprise"@.len() == 26);
    assert("simuler_cession_entreprise"@[0] == 's');
    assert("simuler_cession_entreprise"@[11] == 's');
    assert("simuler_cession_entreprise"@[16] == 'e');
    reveal_strlit("simuler_holding");
    assert("simuler_holding"@.len() == 15);
    assert("simuler_holding"@[0] == 's');
    assert("simuler_holding"@[11] == 'd');
    reveal_strlit("calculer_revenu_etranger");
    assert("calculer_revenu_etranger"@.len() == 24);
    assert("calculer_revenu_etranger"@[0] == 'c');
    assert("calculer_revenu_etranger"@[11] == 'v');
    assert("calculer_revenu_etranger"@[16] == 'e');
    reveal_strlit("calculer_exit_tax");
    assert("calculer_exit_tax"@.len() == 17);
    assert("calculer_exit_tax"@[0] == 'c');
    assert("calculer_exit_tax"@[11] == 'i');
    assert("calculer_exit_tax"@[16] == 'x');
    reveal_strlit("optimiser_epargne_salariale");
    assert("optimiser_epargne_salariale"@.len() == 27);
    assert("optimiser_epargne_salariale"@[0] == 'o');
    assert("optimiser_epargne_salariale"@[11] == 'p');
    assert("optimiser_epargne_salariale"@[16] == 'e');
    reveal_strlit("simuler_rachat_trimestres");
    assert("simuler_rachat_trimestres"@.len() == 25);
    assert("simuler_rachat_trimestres"@[0] == 's');
    assert("simuler_rachat_trimestres"@[11] == 'h');
    assert("simuler_rachat_trimestres"@[16] == 'r');
    reveal_strlit("simuler_depart_retraite");
    assert("simuler_depart_retraite"@.len() == 23);
    assert("simuler_depart_retraite"@[0] == 's');
    assert("simuler_depart_retraite"@[11] == 'a');
    assert("simuler_depart_retraite"@[16] == 'e');
    reveal_strlit("simuler_reversion_pension");
    assert("simuler_reversion_pension"@.len() == 25);
    assert("simuler_reversion_pension"@[0] == 's');
    assert("simuler_reversion_pension"@[11] == 'e');
    assert("simuler_reversion_pension"@[16] == 'n');
    reveal_strlit("optimiser_impots");
    assert("optimiser_impots"@.len() == 16);
    assert("optimiser_impots"@[0] == 'o');
    assert("optimiser_impots"@[11] == 'm');
    reveal_strlit("diagnostic_fiscal_complet");
    assert("diagnostic_fiscal_complet"@.len() == 25);
    assert("diagnostic_fiscal_complet"@[0] == 'd');
    assert("diagnostic_fiscal_complet"@[11] == 'f');
    assert("diagnostic_fiscal_complet"@[16] == 'l');
    reveal_strlit("optimiser_tns");
    assert("optimiser_tns"@.len() == 13);
    assert("optimiser_tns"@[0] == 'o');
    assert("optimiser_tns"@[11] == 'n');
    reveal_strlit("optimiser_remuneration_dirigeant");
    assert("optimiser_remuneration_dirigeant"@.len() == 32);
    assert("optimiser_remuneration_dirigeant"@[0] == 'o');
    assert("optimiser_remuneration_dirigeant"@[11] == 'e');
    assert("optimiser_remuneration_dirigeant"@[16] == 'r');
    reveal_strlit("guide_defiscalisation_solidaire");
    assert("guide_defiscalisation_solidaire"@.len() == 31);
    assert("guide_defiscalisation_solidaire"@[0] == 'g');
    assert("guide_defiscalisation_solidaire"@[11] == 'c');
    assert("guide_defiscalisation_solidaire"@[16] == 'a');
    reveal_strlit("comparer_statuts_professionnel");
    assert("comparer_statuts_professionnel"@.len() == 30);
    assert("comparer_statuts_professionnel"@[0] == 'c');
    assert("comparer_statuts_professionnel"@[11] == 'a');
    assert("comparer_statuts_professionnel"@[16] == '_');
    reveal_strlit("diagnostiquer_passage_freelance");
    assert("diagnostiquer_passage_freelance"@.len() == 31);
    assert("diagnostiquer_passage_freelance"@[0] == 'd');
    assert("diagnostiquer_passage_freelance"@[11] == 'e');
    assert("diagnostiquer_passage_freelance"@[16] == 's');
    reveal_strlit("lister_credits_impot");
    assert("lister_credits_impot"@.len() == 20);
    assert("lister_credits_impot"@[0] == 'l');
    assert("lister_credits_impot"@[11] == 'i');
    assert("lister_credits_impot"@[16] == 'm');
    reveal_strlit("lister_reductions_impot");
    assert("lister_reductions_impot"@.len() == 23);
    assert("lister_reductions_impot"@[0] == 'l');
    assert("lister_reductions_impot"@[11] == 'c');
    assert("lister_reductions_impot"@[16] == 's');
    reveal_strlit("lister_deductions_revenu");
    assert("lister_deductions_revenu"@.len() == 24);
    assert("lister_deductions_revenu"@[0] == 'l');
    assert("lister_deductions_revenu"@[11] == 'c');
    assert("lister_deductions_revenu"@[16] == 's');
    reveal_strlit("lister_epargne_defiscalisante");
    assert("lister_epargne_defiscalisante"@.len() == 29);
    assert("lister_epargne_defiscalisante"@[0] == 'l');
    assert("lister_epargne_defiscalisante"@[11] == 'g');
    assert("lister_epargne_defiscalisante"@[16] == 'e');
    reveal_strlit("guide_frais_reels");
    assert("guide_frais_reels"@.len() == 17);
    assert("guide_frais_reels"@[0] == 'g');
    assert("guide_frais_reels"@[11] == '_');
    assert("guide_frais_reels"@[16] == 's');
    reveal_strlit("calendrier_fiscal");
    assert("calendrier_fiscal"@.len() == 17);
    assert("calendrier_fiscal"@[0] == 'c');
    assert("calendrier_fiscal"@[11] == 'f');
    assert("calendrier_fiscal"@[16] == 'l');
    reveal_strlit("info_fiscalite_immobilier");
    assert("info_fiscalite_immobilier"@.len() == 25);
    assert("info_fiscalite_immobilier"@[0] == 'i');
    assert("info_fiscalite_immobilier"@[11] == 'i');
    assert("info_fiscalite_immobilier"@[16] == 'm');
    reveal_strlit("analyser_declaration_revenus");
    assert("analyser_declaration_revenus"@.len() == 28);
    assert("analyser_declaration_revenus"@[0] == 'a');
    assert("analyser_declaration_revenus"@[11] == 'c');
    assert("analyser_declaration_revenus"@[16] == 't');
    reveal_strlit("guide_maprimerenov");
    assert("guide_maprimerenov"@.len() == 18);
    assert("guide_maprimerenov"@[0] == 'g');
    assert("guide_maprimerenov"@[11] == 'm');
    assert("guide_maprimerenov"@[16] == 'o');
    reveal_strlit("checker_eligibilite_aides");
    assert("checker_eligibilite_aides"@.len() == 25);
    assert("checker_eligibilite_aides"@[0] == 'c');
    assert("checker_eligibilite_aides"@[11] == 'g');
    assert("checker_eligibilite_aides"@[16] == 'i');
    reveal_strlit("comparer_scenarios");
    assert("comparer_scenarios"@.len() == 18);
    assert("comparer_scenarios"@[0] == 'c');
    assert("comparer_scenarios"@[11] == 'e');
    assert("comparer_scenarios"@[16] == 'o');
    reveal_strlit("guide_fiscalite_internationale");
    assert("guide_fiscalite_internationale"@.len() == 30);
    assert("guide_fiscalite_internationale"@[0] == 'g');
    assert("guide_fiscalite_internationale"@[11] == 'l');
    assert("guide_fiscalite_internationale"@[16] == 'i');
    reveal_strlit("guide_frontaliers");
    assert("guide_frontaliers"@.len() == 17);
    assert("guide_frontaliers"@[0] == 'g');
    assert("guide_frontaliers"@[11] == 'a');
    assert("guide_frontaliers"@[16] == 's');
    reveal_strlit("simuler_pacte_dutreil");
    assert("simuler_pacte_dutreil"@.len() == 21);
    assert("simuler_pacte_dutreil"@[0] == 's');
    assert("simuler_pacte_dutreil"@[11] == 't');
    assert("simuler_pacte_dutreil"@[16] == 't');
    reveal_strlit("guide_evenements_vie");
    assert("guide_evenements_vie"@.len() == 20);
    assert("guide_evenements_vie"@[0] == 'g');
    assert("guide_evenements_vie"@[11] == 'm');
    assert("guide_evenements_vie"@[16] == '_');
    reveal_strlit("guide_fiscalite_agricole");
    assert("guide_fiscalite_agricole"@.len() == 24);
    assert("guide_fiscalite_agricole"@[0] == 'g');
    assert("guide_fiscalite_agricole"@[11] == 'l');
    assert("guide_fiscalite_agricole"@[16] == 'a');
    reveal_strlit("guide_fiscalite_outremer");
    assert("guide_fiscalite_outremer"@.len() == 24);
    assert("guide_fiscalite_outremer"@[0] == 'g');
    assert("guide_fiscalite_outremer"@[11] == 'l');
    assert("guide_fiscalite_outremer"@[16] == 'o');
    reveal_strlit("guide_taxe_fonciere");
    assert("guide_taxe_fonciere"@.len() == 19);
    assert("guide_taxe_fonciere"@[0] == 'g');
    assert("guide_taxe_fonciere"@[11] == 'f');
    assert("guide_taxe_fonciere"@[16] == 'e');
    reveal_strlit("guide_revision_declaration");
    assert("guide_revision_declaration"@.len() == 26);
    assert("guide_revision_declaration"@[0] == 'g');
    assert("guide_revision_declaration"@[11] == 'i');
    assert("guide_revision_declaration"@[16] == 'e');
    reveal_strlit("guide_loc_avantages");
    assert("guide_loc_avantages"@.len() == 19);
    assert("guide_loc_avantages"@[0] == 'g');
    assert("guide_loc_avantages"@[11] == 'v');
    assert("guide_loc_avantages"@[16] == 'g');
    reveal_strlit("verifier_actualite_fiscale");
    assert("verifier_actualite_fiscale"@.len() == 26);
    assert("verifier_actualite_fiscale"@[0] == 'v');
    assert("verifier_actualite_fiscale"@[11] == 't');
    assert("verifier_actualite_fiscale"@[16] == 't');
}

/// Every name outside the catalogue is refused: the engine serves exactly the
/// names listed in `lemma_tool_handlers`.
pub proof fn lemma_unknown_tools_refused(name: Seq<char>)
    ensures
        name != "calculer_impot_revenu"@ && name != "simuler_tranches_imposition"@ && name != "calculer_quotient_familial"@ && name != "calculer_economie_per"@ && name != "calculer_ifi"@ && name != "calculer_impot_societes"@ && name != "calculer_tva"@ && name != "guide_auto_entrepreneur"@ && name != "comparer_pfu_bareme_capital"@ && name != "calculer_plus_values"@ && name != "calculer_fiscalite_crypto"@ && name != "calculer_pv_immobiliere"@ && name != "simuler_micro_foncier"@ && name != "simuler_lmnp"@ && name != "simuler_scpi"@ && name != "simuler_investissement_pea"@ && name != "simuler_assurance_vie"@ && name != "simuler_sortie_per"@ && name != "calculer_prelevement_source"@ && name != "calculer_cfe"@ && name != "simuler_revenus_exceptionnels"@ && name != "simuler_revenus_remplacement"@ && name != "calculer_revenus_remplacement"@ && name != "simuler_droits_donation"@ && name != "calculer_succession"@ && name != "simuler_demembrement"@ && name != "simuler_sci"@ && name != "simuler_cession_entreprise"@ && name != "simuler_holding"@ && name != "calculer_revenu_etranger"@ && name != "calculer_exit_tax"@ && name != "optimiser_epargne_salariale"@ && name != "simuler_rachat_trimestres"@ && name != "simuler_depart_retraite"@ && name != "simuler_reversion_pension"@ && name != "optimiser_impots"@ && name != "diagnostic_fiscal_complet"@ && name != "optimiser_tns"@ && name != "optimiser_remuneration_dirigeant"@ && name != "guide_defiscalisation_solidaire"@ && name != "comparer_statuts_professionnel"@ && name != "diagnostiquer_passage_freelance"@ && name != "lister_credits_impot"@ && name != "lister_reductions_impot"@ && name != "lister_deductions_revenu"@ && name != "lister_epargne_defiscalisante"@ && name != "guide_frais_reels"@ && name != "calendrier_fiscal"@ && name != "info_fiscalite_immobilier"@ && name != "analyser_declaration_revenus"@ && name != "guide_maprimerenov"@ && name != "checker_eligibilite_aides"@ && name != "comparer_scenarios"@ && name != "guide_fiscalite_internationale"@ && name != "guide_frontaliers"@ && name != "simuler_pacte_dutreil"@ && name != "guide_evenements_vie"@ && name != "guide_fiscalite_agricole"@ && name != "guide_fiscalite_outremer"@ && name != "guide_taxe_fonciere"@ && name != "guide_revision_declaration"@ && name != "guide_loc_avantages"@ && name != "verifier_actualite_fiscale"@ ==> tool_for(name) is None,
{
}

/// Every name of the catalogue is served, by the handler the catalogue
/// pairs it with.
#[verifier::rlimit(100)]
pub proof fn lemma_catalogue_served()
    ensures
        forall|k: int|
            0 <= k < tool_catalogue().len() ==> tool_for((#[trigger] tool_catalogue()[k]).0)
                == Some(tool_catalogue()[k].1),
{
    lemma_tool_handlers();
    let table = tool_catalogue();
    assert(table.len() == 63);
    assert(table[0] == ("calculer_impot_revenu"@, Tool::IncomeTax));
    assert(table[1] == ("simuler_tranches_imposition"@, Tool::Brackets));
    assert(table[2] == ("calculer_quotient_familial"@, Tool::FamilyQuotient));
    assert(table[3] == ("calculer_economie_per"@, Tool::PerSaving));
    assert(table[4] == ("calculer_ifi"@, Tool::Ifi));
    assert(table[5] == ("calculer_impot_societes"@, Tool::CorporateTax));
    assert(table[6] == ("calculer_tva"@, Tool::Vat));
    assert(table[7] == ("guide_auto_entrepreneur"@, Tool::Micro));
    assert(table[8] == ("comparer_pfu_bareme_capital"@, Tool::PfuComparison));
    assert(table[9] == ("calculer_plus_values"@, Tool::CapitalGain));
    assert(table[10] == ("calculer_fiscalite_crypto"@, Tool::Crypto));
    assert(table[11] == ("calculer_pv_immobiliere"@, Tool::PropertyGain));
    assert(table[12] == ("simuler_micro_foncier"@, Tool::MicroFoncier));
    assert(table[13] == ("simuler_lmnp"@, Tool::Lmnp));
    assert(table[14] == ("simuler_scpi"@, Tool::Scpi));
    assert(table[15] == ("simuler_investissement_pea"@, Tool::Pea));
    assert(table[16] == ("simuler_assurance_vie"@, Tool::LifeInsurance));
    assert(table[17] == ("simuler_sortie_per"@, Tool::PerExit));
    assert(table[18] == ("calculer_prelevement_source"@, Tool::Withholding));
    assert(table[19] == ("calculer_cfe"@, Tool::Cfe));
    assert(table[20] == ("simuler_revenus_exceptionnels"@, Tool::ExceptionalIncome));
    assert(table[21] == ("simuler_revenus_remplacement"@, Tool::ReplacementIncome));
    assert(table[22] == ("calculer_revenus_remplacement"@, Tool::ReplacementIncome));
    assert(table[23] == ("simuler_droits_donation"@, Tool::Donation));
    assert(table[24] == ("calculer_succession"@, Tool::Succession));
    assert(table[25] == ("simuler_demembrement"@, Tool::BareOwnership));
    assert(table[26] == ("simuler_sci"@, Tool::Sci));
    assert(table[27] == ("simuler_cession_entreprise"@, Tool::BusinessSale));
    assert(table[28] == ("simuler_holding"@, Tool::Holding));
    assert(table[29] == ("calculer_revenu_etranger"@, Tool::ForeignIncome));
    assert(table[30] == ("calculer_exit_tax"@, Tool::ExitTax));
    assert(table[31] == ("optimiser_epargne_salariale"@, Tool::EmployeeSavings));
    assert(table[32] == ("simuler_rachat_trimestres"@, Tool::Retirement));
    assert(table[33] == ("simuler_depart_retraite"@, Tool::Retirement));
    assert(table[34] == ("simuler_reversion_pension"@, Tool::Retirement));
    assert(table[35] == ("optimiser_impots"@, Tool::Diagnostic));
    assert(table[36] == ("diagnostic_fiscal_complet"@, Tool::Diagnostic));
    assert(table[37] == ("optimiser_tns"@, Tool::Diagnostic));
    assert(table[38] == ("optimiser_remuneration_dirigeant"@, Tool::Diagnostic));
    assert(table[39] == ("guide_defiscalisation_solidaire"@, Tool::Diagnostic));
    assert(table[40] == ("comparer_statuts_professionnel"@, Tool::Diagnostic));
    assert(table[41] == ("diagnostiquer_passage_freelance"@, Tool::Diagnostic));
    assert(table[42] == ("lister_credits_impot"@, Tool::Guide));
    assert(table[43] == ("lister_reductions_impot"@, Tool::Guide));
    assert(table[44] == ("lister_deductions_revenu"@, Tool::Guide));
    assert(table[45] == ("lister_epargne_defiscalisante"@, Tool::Guide));
    assert(table[46] == ("guide_frais_reels"@, Tool::Guide));
    assert(table[47] == ("calendrier_fiscal"@, Tool::Guide));
    assert(table[48] == ("info_fiscalite_immobilier"@, Tool::Guide));
    assert(table[49] == ("analyser_declaration_revenus"@, Tool::Guide));
    assert(table[50] == ("guide_maprimerenov"@, Tool::Guide));
    assert(table[51] == ("checker_eligibilite_aides"@, Tool::Guide));
    assert(table[52] == ("comparer_scenarios"@, Tool::Guide));
    assert(table[53] == ("guide_fiscalite_internationale"@, Tool::Guide));
    assert(table[54] == ("guide_frontaliers"@, Tool::Guide));
    assert(table[55] == ("simuler_pacte_dutreil"@, Tool::Guide));
    assert(table[56] == ("guide_evenements_vie"@, Tool::Guide));
    assert(table[57] == ("guide_fiscalite_agricole"@, Tool::Guide));
    assert(table[58] == ("guide_fiscalite_outremer"@, Tool::Guide));
    assert(table[59] == ("guide_taxe_fonciere"@, Tool::Guide));
    assert(table[60] == ("guide_revision_declaration"@, Tool::Guide));
    assert(table[61] == ("guide_loc_avantages"@, Tool::Guide));
    assert(table[62] == ("verifier_actualite_fiscale"@, Tool::Freshness));
}

/// A name is refused exactly when no catalogue entry carries it; a name that
/// is served gets the handler of the first entry that carries it.
pub proof fn lemma_lookup_tool(table: Seq<(Seq<char>, Tool)>, name: Seq<char>)
    ensures
        lookup_tool(table, name) is None <==> forall|k: int|
            0 <= k < table.len() ==> (#[trigger] table[k]).0 != name,
        lookup_tool(table, name) matches Some(t) ==> exists|k: int|
            0 <= k < table.len() && (#[trigger] table[k]) == (name, t) && forall|j: int|
                0 <= j < k ==> (#[trigger] table[j]).0 != name,
    decreases table.len(),
{
    if table.len() > 0 {
        let rest = table.drop_first();
        lemma_lookup_tool(rest, name);
        if table[0].0 == name {
            assert(table[0] == (name, table[0].1));
        } else {
            assert forall|k: int| 0 <= k < rest.len() implies (#[trigger] rest[k]) == table[k + 1] by {}
            if lookup_tool(rest, name) is None {
                assert forall|k: int| 0 <= k < table.len() implies (#[trigger] table[k]).0 != name by {
                    if k > 0 {
                        assert(table[k] == rest[k - 1]);
                    }
                }
            } else {
                let t = lookup_tool(rest, name)->Some_0;
                let k = choose|k: int|
                    0 <= k < rest.len() && (#[trigger] rest[k]) == (name, t) && forall|j: int|
                        0 <= j < k ==> (#[trigger] rest[j]).0 != name;
                assert(table[k + 1] == (name, t));
                assert forall|j: int| 0 <= j < k + 1 implies (#[trigger] table[j]).0 != name by {
                    if j > 0 {
                        assert(table[j] == rest[j - 1]);
                    }
                }
            }
        }
    }
}

} // verus!
