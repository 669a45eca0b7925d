//! Identifiers of the registry rules that each computation relies on, and the
//! small tables that pick a rule or a rate from a caller's answers.

use vstd::prelude::*;
use vstd::string::StringExecFns;

use crate::arguments::is_couple;
use crate::arguments::couple;
use crate::text::{contains, decimal, decimal_string, digit_char, digits_value, has_infix, spaced, str_eq, underscores_to_spaces};

verus! {

/// The identifier of the ceiling of bracket `index` of the income tax scale of `year`.
pub open spec fn bracket_id(year: u16, index: nat) -> Seq<char> {
    "ir."@ + decimal(year as nat) + ".bracket."@ + decimal(index) + ".ceiling"@
}

/// The identifier of the ceiling of bracket `index` of the scale of `year`.
pub fn bracket_id_string(year: u16, index: u64) -> (r: String)
    ensures
        r@ == bracket_id(year, index as nat),
{
    let s = String::from_str("ir.");
    let s = s.concat(decimal_string(year as u64).as_str());
    let s = s.concat(".bracket.");
    let s = s.concat(decimal_string(index).as_str());
    s.concat(".ceiling")
}

/// The identifiers of the four bracket ceilings of the income tax scale of `year`.
pub fn bracket_ids(year: u16) -> (ids: [String; 4])
    ensures
        forall|i: int| 0 <= i < 4 ==> (#[trigger] ids@[i])@ == bracket_id(year, i as nat),
{
    [
        bracket_id_string(year, 0),
        bracket_id_string(year, 1),
        bracket_id_string(year, 2),
        bracket_id_string(year, 3),
    ]
}

/// The rules an income tax computation for `year` cites: its four bracket
/// ceilings, the four rates of the scale and, for 2026, the family quotient
/// cap and the discount parameters.
pub open spec fn income_tax_rule_ids(year: u16) -> Seq<Seq<char>> {
    let scale = seq![
        bracket_id(year, 0),
        bracket_id(year, 1),
        bracket_id(year, 2),
        bracket_id(year, 3),
        "ir.scale.rate.1"@,
        "ir.scale.rate.2"@,
        "ir.scale.rate.3"@,
        "ir.scale.rate.4"@,
    ];
    if year == 2026 {
        scale + seq![
            "ir.2026.family_quotient.half_share_cap"@,
            "ir.2026.decote.single.threshold"@,
            "ir.2026.decote.couple.threshold"@,
            "ir.2026.decote.rate"@,
        ]
    } else {
        scale
    }
}

/// The rules an income tax computation for `year` cites.
pub fn income_tax_rules(year: u16) -> (ids: Vec<String>)
    ensures
        ids@.len() == income_tax_rule_ids(year).len(),
        forall|i: int| 0 <= i < ids@.len() ==> (#[trigger] ids@[i])@ == income_tax_rule_ids(year)[i],
{
    let mut ids: Vec<String> = Vec::new();
    ids.push(bracket_id_string(year, 0));
    ids.push(bracket_id_string(year, 1));
    ids.push(bracket_id_string(year, 2));
    ids.push(bracket_id_string(year, 3));
    ids.push(String::from_str("ir.scale.rate.1"));
    ids.push(String::from_str("ir.scale.rate.2"));
    ids.push(String::from_str("ir.scale.rate.3"));
    ids.push(String::from_str("ir.scale.rate.4"));
    if year == 2026 {
        ids.push(String::from_str("ir.2026.family_quotient.half_share_cap"));
        ids.push(String::from_str("ir.2026.decote.single.threshold"));
        ids.push(String::from_str("ir.2026.decote.couple.threshold"));
        ids.push(String::from_str("ir.2026.decote.rate"));
    }
    ids
}

/// An activity of sales, trade or accommodation, as opposed to services.
pub open spec fn is_sales_activity(activity: Seq<char>) -> bool {
    has_infix(activity, "vente"@) || has_infix(activity, "commerce"@) || has_infix(
        activity,
        "hebergement"@,
    )
}

/// Whether the activity is one of sales, trade or accommodation.
pub fn sales_activity(activity: &str) -> (r: bool)
    ensures
        r == is_sales_activity(activity@),
{
    contains(activity, "vente") || contains(activity, "commerce") || contains(
        activity,
        "hebergement",
    )
}

/// The rule holding the VAT franchise threshold for an activity.
pub open spec fn vat_threshold_rule(activity: Seq<char>) -> Seq<char> {
    if is_sales_activity(activity) {
        "vat.2026.sales.base_threshold"@
    } else {
        "vat.2026.services.base_threshold"@
    }
}

/// The rule holding the VAT franchise threshold for `activity`.
pub fn vat_threshold_id(activity: &str) -> (id: &'static str)
    ensures
        id@ == vat_threshold_rule(activity@),
{
    if sales_activity(activity) {
        "vat.2026.sales.base_threshold"
    } else {
        "vat.2026.services.base_threshold"
    }
}

/// The rules holding the micro-enterprise turnover threshold and social rate
/// for an activity.
pub open spec fn micro_rules(kind: Seq<char>) -> (Seq<char>, Seq<char>) {
    let sales = is_sales_activity(kind);
    let threshold = if sales {
        "micro.2026.sales.threshold"@
    } else {
        "micro.2026.services.threshold"@
    };
    let rate = if sales {
        "micro.2026.social.sales_rate"@
    } else if has_infix(kind, "bic"@) {
        "micro.2026.social.services_bic_rate"@
    } else if has_infix(kind, "cipav"@) {
        "micro.2026.social.cipav_rate"@
    } else {
        "micro.2026.social.bnc_rate"@
    };
    (threshold, rate)
}

/// The rules holding the micro-enterprise threshold and social rate for `kind`.
pub fn micro_rule_ids(kind: &str) -> (ids: (&'static str, &'static str))
    ensures
        (ids.0@, ids.1@) == micro_rules(kind@),
{
    let sales = sales_activity(kind);
    let threshold = if sales {
        "micro.2026.sales.threshold"
    } else {
        "micro.2026.services.threshold"
    };
    let rate = if sales {
        "micro.2026.social.sales_rate"
    } else if contains(kind, "bic") {
        "micro.2026.social.services_bic_rate"
    } else if contains(kind, "cipav") {
        "micro.2026.social.cipav_rate"
    } else {
        "micro.2026.social.bnc_rate"
    };
    (threshold, rate)
}

/// The position, in the share savings plan payment limits, of the limit that
/// applies to a plan type: the SME plan's second, the classic plan's first.
pub open spec fn pea_limit_position(plan: Seq<char>) -> nat {
    if has_infix(plan, "pme"@) {
        1
    } else {
        0
    }
}

/// The position of the payment limit that applies to the plan type `plan`.
pub fn pea_limit_index(plan: &str) -> (i: usize)
    ensures
        i == pea_limit_position(plan@),
{
    if contains(plan, "pme") {
        1
    } else {
        0
    }
}

/// The position, in the life insurance allowances, of the allowance of a
/// household: the couple's second, the single person's first.
pub open spec fn life_insurance_allowance_position(situation: Seq<char>) -> nat {
    if is_couple(situation) {
        1
    } else {
        0
    }
}

/// The position of the life insurance allowance of the household.
pub fn life_insurance_allowance_index(situation: &str) -> (i: usize)
    ensures
        i == life_insurance_allowance_position(situation@),
{
    if couple(situation) {
        1
    } else {
        0
    }
}

/// The position, in the gift allowances, of the allowance for a relationship
/// between donor and recipient.
pub open spec fn donation_allowance_position(relationship: Seq<char>) -> nat {
    if relationship == "enfant"@ || relationship == "parent"@ {
        0
    } else if relationship == "petit_enfant"@ {
        1
    } else if relationship == "frere_soeur"@ {
        2
    } else if relationship == "neveu_niece"@ {
        3
    } else if relationship == "epoux"@ || relationship == "pacse"@ {
        4
    } else {
        5
    }
}

/// The position of the gift allowance for `relationship`.
pub fn donation_allowance_index(relationship: &str) -> (i: usize)
    ensures
        i == donation_allowance_position(relationship@),
{
    if str_eq(relationship, "enfant") || str_eq(relationship, "parent") {
        0
    } else if str_eq(relationship, "petit_enfant") {
        1
    } else if str_eq(relationship, "frere_soeur") {
        2
    } else if str_eq(relationship, "neveu_niece") {
        3
    } else if str_eq(relationship, "epoux") || str_eq(relationship, "pacse") {
        4
    } else {
        5
    }
}

/// The share, in percent, of the full value that the usufruct of a person
/// of `age` is worth: 90 up to 20, ten points less for each further decade,
/// down to 10 beyond 90 (and for an age below zero, which no band covers).
pub open spec fn usufruct_share(age: int) -> nat {
    if age < 0 {
        10
    } else if age <= 20 {
        90
    } else if age <= 30 {
        80
    } else if age <= 40 {
        70
    } else if age <= 50 {
        60
    } else if age <= 60 {
        50
    } else if age <= 70 {
        40
    } else if age <= 80 {
        30
    } else if age <= 90 {
        20
    } else {
        10
    }
}

/// The usufruct share in percent for an usufructuary of `age`.
pub fn usufruct_percent(age: i64) -> (p: u64)
    ensures
        p == usufruct_share(age as int),
{
    if age < 0 {
        10
    } else if age <= 20 {
        90
    } else if age <= 30 {
        80
    } else if age <= 40 {
        70
    } else if age <= 50 {
        60
    } else if age <= 60 {
        50
    } else if age <= 70 {
        40
    } else if age <= 80 {
        30
    } else if age <= 90 {
        20
    } else {
        10
    }
}

/// An older usufructuary never holds a larger usufruct share.
pub proof fn lemma_usufruct_share_decreasing(younger: int, older: int)
    requires
        0 <= younger <= older,
    ensures
        usufruct_share(older) <= usufruct_share(younger),
        10 <= usufruct_share(older) <= 90,
{
}

/// The four bracket identifiers of a year are pairwise distinct.
pub proof fn lemma_bracket_ids_distinct(year: u16, i: nat, j: nat)
    requires
        i < 4,
        j < 4,
        i != j,
    ensures
        bracket_id(year, i) != bracket_id(year, j),
{
    let prefix = "ir."@ + decimal(year as nat) + ".bracket."@;
    reveal_strlit(".bracket.");
    reveal_strlit("0123456789");
    assert(decimal(i) == seq![digit_char(i)]);
    assert(decimal(j) == seq![digit_char(j)]);
    let a = bracket_id(year, i);
    let b = bracket_id(year, j);
    let k = prefix.len() as int;
    assert(a[k] == decimal(i)[0]);
    assert(b[k] == decimal(j)[0]);
}

/// The rules a guide cites, by guide name (none for the guides not listed).
pub open spec fn guide_rules(tool: Seq<char>) -> Seq<Seq<char>> {
    if tool == "lister_credits_impot"@ {
        seq!["tax_credit.2026.home_employment"@, "tax_credit.2026.childcare"@]
    } else if tool == "lister_reductions_impot"@ {
        seq!["tax_reduction.2026.donations"@, "tax_advantages.2026.global_cap"@]
    } else if tool == "lister_deductions_revenu"@ {
        seq!["per.2026.minimum"@, "per.2026.maximum"@]
    } else if tool == "lister_epargne_defiscalisante"@ {
        seq!["savings.2026.livret_a_rate"@, "savings.2026.lep_rate"@, "pea.2026.payment_limits"@, "per.2026.minimum"@, "per.2026.maximum"@]
    } else if tool == "calendrier_fiscal"@ {
        seq!["calendar.2026.income_tax"@]
    } else if tool == "info_fiscalite_immobilier"@ {
        seq!["rental.micro_foncier.threshold"@, "rental.micro_foncier.allowance"@, "micro.2026.services.threshold"@]
    } else if tool == "analyser_declaration_revenus"@ {
        seq!["per.2026.minimum"@, "per.2026.maximum"@]
    } else if tool == "simuler_pacte_dutreil"@ {
        seq!["dutreil.2026.exempt_share"@]
    } else if tool == "guide_revision_declaration"@ {
        seq!["calendar.2026.income_tax"@]
    } else {
        Seq::empty()
    }
}

/// The rules the guide `tool` cites.
pub fn guide_rule_ids(tool: &str) -> (ids: Vec<&'static str>)
    ensures
        ids@.len() == guide_rules(tool@).len(),
        forall|i: int| 0 <= i < ids@.len() ==> (#[trigger] ids@[i])@ == guide_rules(tool@)[i],
{
    if str_eq(tool, "lister_credits_impot") {
        vec!["tax_credit.2026.home_employment", "tax_credit.2026.childcare"]
    } else if str_eq(tool, "lister_reductions_impot") {
        vec!["tax_reduction.2026.donations", "tax_advantages.2026.global_cap"]
    } else if str_eq(tool, "lister_deductions_revenu") {
        vec!["per.2026.minimum", "per.2026.maximum"]
    } else if str_eq(tool, "lister_epargne_defiscalisante") {
        vec!["savings.2026.livret_a_rate", "savings.2026.lep_rate", "pea.2026.payment_limits", "per.2026.minimum", "per.2026.maximum"]
    } else if str_eq(tool, "calendrier_fiscal") {
        vec!["calendar.2026.income_tax"]
    } else if str_eq(tool, "info_fiscalite_immobilier") {
        vec!["rental.micro_foncier.threshold", "rental.micro_foncier.allowance", "micro.2026.services.threshold"]
    } else if str_eq(tool, "analyser_declaration_revenus") {
        vec!["per.2026.minimum", "per.2026.maximum"]
    } else if str_eq(tool, "simuler_pacte_dutreil") {
        vec!["dutreil.2026.exempt_share"]
    } else if str_eq(tool, "guide_revision_declaration") {
        vec!["calendar.2026.income_tax"]
    } else {
        Vec::new()
    }
}

/// The title of a guide: its name with spaces for underscores.
pub fn guide_title(tool: &str) -> (t: String)
    ensures
        t@ == underscores_to_spaces(tool@),
{
    spaced(tool)
}

/// The VAT franchise threshold of an activity is the sales threshold exactly
/// when its name mentions sales ("vente"), trade ("commerce") or
/// accommodation ("hebergement"), and the services threshold otherwise.
pub proof fn lemma_vat_threshold_by_activity(activity: Seq<char>)
    ensures
        vat_threshold_rule(activity) == if has_infix(activity, "vente"@) || has_infix(
            activity,
            "commerce"@,
        ) || has_infix(activity, "hebergement"@) {
            "vat.2026.sales.base_threshold"@
        } else {
            "vat.2026.services.base_threshold"@
        },
{
}

/// A micro-enterprise of sales, trade or accommodation has the sales
/// threshold and social rate; any other has the services threshold, with the
/// commercial services rate when its name mentions "bic", the CIPAV rate when
/// it mentions "cipav", and the non-commercial rate otherwise.
pub proof fn lemma_micro_rules_by_activity(kind: Seq<char>)
    ensures
        ({
            let sales = has_infix(kind, "vente"@) || has_infix(kind, "commerce"@) || has_infix(
                kind,
                "hebergement"@,
            );
            &&& micro_rules(kind).0 == if sales {
                "micro.2026.sales.threshold"@
            } else {
                "micro.2026.services.threshold"@
            }
            &&& sales ==> micro_rules(kind).1 == "micro.2026.social.sales_rate"@
            &&& !sales && has_infix(kind, "bic"@) ==> micro_rules(kind).1
                == "micro.2026.social.services_bic_rate"@
            &&& !sales && !has_infix(kind, "bic"@) && has_infix(kind, "cipav"@) ==> micro_rules(
                kind,
            ).1 == "micro.2026.social.cipav_rate"@
            &&& !sales && !has_infix(kind, "bic"@) && !has_infix(kind, "cipav"@) ==> micro_rules(
                kind,
            ).1 == "micro.2026.social.bnc_rate"@
        }),
{
}

/// The SME share savings plan limit applies exactly to plan types that
/// mention "pme".
pub proof fn lemma_pea_limit_by_plan(plan: Seq<char>)
    ensures
        pea_limit_position(plan) == if has_infix(plan, "pme"@) {
            1nat
        } else {
            0nat
        },
{
}

/// Married and civil-partnered households get the couple's life insurance
/// allowance, everyone else the single person's.
pub proof fn lemma_life_insurance_allowance_by_situation(situation: Seq<char>)
    ensures
        life_insurance_allowance_position(situation) == if situation == "marie"@ || situation
            == "pacse"@ {
            1nat
        } else {
            0nat
        },
{
}

/// Gift allowances by relationship: children and parents share the first,
/// grandchildren the second, siblings the third, nephews and nieces the
/// fourth, spouses and civil partners the fifth, anyone else the last.
pub proof fn lemma_donation_allowance_by_relationship(relationship: Seq<char>)
    ensures
        donation_allowance_position("enfant"@) == 0,
        donation_allowance_position("parent"@) == 0,
        donation_allowance_position("petit_enfant"@) == 1,
        donation_allowance_position("frere_soeur"@) == 2,
        donation_allowance_position("neveu_niece"@) == 3,
        donation_allowance_position("epoux"@) == 4,
        donation_allowance_position("pacse"@) == 4,
        relationship != "enfant"@ && relationship != "parent"@ && relationship != "petit_enfant"@ && relationship != "frere_soeur"@ && relationship != "neveu_niece"@ && relationship != "epoux"@ && relationship != "pacse"@ ==> donation_allowance_position(relationship) == 5,
{
    reveal_strlit("enfant");
    assert("enfant"@.len() == 6);
    assert("enfant"@[0] == 'e');
    reveal_strlit("parent");
    assert("parent"@.len() == 6);
    assert("parent"@[0] == 'p');
    reveal_strlit("petit_enfant");
    assert("petit_enfant"@.len() == 12);
    assert("petit_enfant"@[0] == 'p');
    reveal_strlit("frere_soeur");
    assert("frere_soeur"@.len() == 11);
    assert("frere_soeur"@[0] == 'f');
    reveal_strlit("neveu_niece");
    assert("neveu_niece"@.len() == 11);
    assert("neveu_niece"@[0] == 'n');
    reveal_strlit("epoux");
    assert("epoux"@.len() == 5);
    assert("epoux"@[0] == 'e');
    reveal_strlit("pacse");
    assert("pacse"@.len() == 5);
    assert("pacse"@[0] == 'p');
}

/// The usufruct share by age: 90 % up to 20, then ten points less for each
/// further started decade (80 % from 21 to 30, 70 % from 31 to 40, ...,
/// 20 % from 81 to 90), 10 % beyond 90 and for an age below zero.
pub proof fn lemma_usufruct_share_by_decade(age: int)
    ensures
        age < 0 ==> usufruct_share(age) == 10,
        0 <= age <= 20 ==> usufruct_share(age) == 90,
        21 <= age <= 90 ==> usufruct_share(age) == 90 - 10 * ((age - 11) / 10),
        90 < age ==> usufruct_share(age) == 10,
{
}

/// The rules each guide cites; guides not listed cite none.
pub proof fn lemma_guide_rules_by_guide(tool: Seq<char>)
    ensures
        guide_rules("lister_credits_impot"@) == seq!["tax_credit.2026.home_employment"@, "tax_credit.2026.childcare"@],
        guide_rules("lister_reductions_impot"@) == seq!["tax_reduction.2026.donations"@, "tax_advantages.2026.global_cap"@],
        guide_rules("lister_deductions_revenu"@) == seq!["per.2026.minimum"@, "per.2026.maximum"@],
        guide_rules("lister_epargne_defiscalisante"@) == seq!["savings.2026.livret_a_rate"@, "savings.2026.lep_rate"@, "pea.2026.payment_limits"@, "per.2026.minimum"@, "per.2026.maximum"@],
        guide_rules("calendrier_fiscal"@) == seq!["calendar.2026.income_tax"@],
        guide_rules("info_fiscalite_immobilier"@) == seq!["rental.micro_foncier.threshold"@, "rental.micro_foncier.allowance"@, "micro.2026.services.threshold"@],
        guide_rules("analyser_declaration_revenus"@) == seq!["per.2026.minimum"@, "per.2026.maximum"@],
        guide_rules("simuler_pacte_dutreil"@) == seq!["dutreil.2026.exempt_share"@],
        guide_rules("guide_revision_declaration"@) == seq!["calendar.2026.income_tax"@],
        tool != "lister_credits_impot"@ && tool != "lister_reductions_impot"@ && tool != "lister_deductions_revenu"@ && tool != "lister_epargne_defiscalisante"@ && tool != "calendrier_fiscal"@ && tool != "info_fiscalite_immobilier"@ && tool != "analyser_declaration_revenus"@ && tool != "simuler_pacte_dutreil"@ && tool != "guide_revision_declaration"@ ==> guide_rules(tool) == Seq::<Seq<char>>::empty(),
{
    reveal_strlit("lister_credits_impot");
    assert("lister_credits_impot"@.len() == 20);
    reveal_strlit("lister_reductions_impot");
    assert("lister_reductions_impot"@.len() == 23);
    reveal_strlit("lister_deductions_revenu");
    assert("lister_deductions_revenu"@.len() == 24);
    reveal_strlit("lister_epargne_defiscalisante");
    assert("lister_epargne_defiscalisante"@.len() == 29);
    reveal_strlit("calendrier_fiscal");
    assert("calendrier_fiscal"@.len() == 17);
    reveal_strlit("info_fiscalite_immobilier");
    assert("info_fiscalite_immobilier"@.len() == 25);
    reveal_strlit("analyser_declaration_revenus");
    assert("analyser_declaration_revenus"@.len() == 28);
    reveal_strlit("simuler_pacte_dutreil");
    assert("simuler_pacte_dutreil"@.len() == 21);
    reveal_strlit("guide_revision_declaration");
    assert("guide_revision_declaration"@.len() == 26);
}

/// An income tax computation cites the four bracket ceilings of its year,
/// then the four rates of the scale; for 2026 only, it also cites the family
/// quotient cap and the three discount parameters.
pub proof fn lemma_income_tax_rules_cited(year: u16)
    ensures
        income_tax_rule_ids(year).len() == if year == 2026 {
            12nat
        } else {
            8nat
        },
        forall|i: int| 0 <= i < 4 ==> #[trigger] income_tax_rule_ids(year)[i] == bracket_id(year, i as nat),
        income_tax_rule_ids(year)[4] == "ir.scale.rate.1"@,
        income_tax_rule_ids(year)[5] == "ir.scale.rate.2"@,
        income_tax_rule_ids(year)[6] == "ir.scale.rate.3"@,
        income_tax_rule_ids(year)[7] == "ir.scale.rate.4"@,
        year == 2026 ==> income_tax_rule_ids(year)[8] == "ir.2026.family_quotient.half_share_cap"@,
        year == 2026 ==> income_tax_rule_ids(year)[9] == "ir.2026.decote.single.threshold"@,
        year == 2026 ==> income_tax_rule_ids(year)[10] == "ir.2026.decote.couple.threshold"@,
        year == 2026 ==> income_tax_rule_ids(year)[11] == "ir.2026.decote.rate"@,
{
}

/// The ceiling of bracket `index` (below ten) of `year` is identified as
/// "ir.", the year in decimal, ".bracket.", the index's digit and ".ceiling".
pub proof fn lemma_bracket_id_digits(year: u16, index: nat)
    requires
        index < 10,
    ensures
        bracket_id(year, index) == "ir."@ + decimal(year as nat) + ".bracket."@ + seq![
            ('0' as int + index) as char,
        ] + ".ceiling"@,
        digits_value(decimal(year as nat)) == year,
{
    crate::text::lemma_digit_char(index);
    crate::text::lemma_decimal_writes_number(year as nat);
    assert(decimal(index) == seq![('0' as int + index) as char]);
}

} // verus!
