use fiscal_core::arguments::{
    base_parts_in_quarters, couple, household_parts_in_quarters, income_tax_year, integer,
    single, tax_parts_in_quarters,
};
use fiscal_core::error::FiscalError;

fn refusal(name: &str, reason: &str) -> FiscalError {
    FiscalError::InvalidArgument { name: name.to_owned(), reason: reason.to_owned() }
}

#[test]
fn integer_takes_supplied_or_default() {
    assert_eq!(integer("nb_enfants", Some(3), 0), Ok(3));
    assert_eq!(integer("nb_enfants", None, 7), Ok(7));
    assert_eq!(integer("nb_enfants", Some(0), 7), Ok(0));
    assert_eq!(integer("nb_enfants", Some(1_000_000), 0), Ok(1_000_000));
}

#[test]
fn integer_rejects_out_of_bounds() {
    assert_eq!(integer("nb_enfants", Some(-1), 0), Err(refusal("nb_enfants", "entier hors limites")));
    assert_eq!(integer("annee", Some(1_000_001), 0), Err(refusal("annee", "entier hors limites")));
    assert_eq!(integer("x", None, -5), Err(refusal("x", "entier hors limites")));
}

#[test]
fn situations() {
    assert!(couple("marie"));
    assert!(couple("pacse"));
    assert!(!couple("celibataire"));
    assert!(single("celibataire"));
    assert!(single("divorce"));
    assert!(!single("veuf"));
    assert_eq!(base_parts_in_quarters("marie"), 8);
    assert_eq!(base_parts_in_quarters("veuf"), 4);
}

#[test]
fn shares_of_households() {
    // Single, no child: one share.
    assert_eq!(tax_parts_in_quarters("celibataire", None, None, None), Ok(4));
    // Single parent with one child: 1 + 0.5 + 0.5 = 2 shares.
    assert_eq!(tax_parts_in_quarters("celibataire", Some(1), None, None), Ok(8));
    // Married, three children: 2 + 0.5 + 0.5 + 1 = 4 shares.
    assert_eq!(tax_parts_in_quarters("marie", Some(3), None, None), Ok(16));
    // Married, one child in full custody, two alternating: 2 + 0.5 + 0.25 + 0.5.
    assert_eq!(tax_parts_in_quarters("marie", Some(1), Some(2), None), Ok(13));
    // Divorced, two alternating: 1 + 0.25 + 0.25 + 0.5 (single parent).
    assert_eq!(tax_parts_in_quarters("divorce", None, Some(2), None), Ok(8));
    // Widowed, one disabled child counted as a child too.
    assert_eq!(tax_parts_in_quarters("veuf", Some(1), None, Some(1)), Ok(8));
}

#[test]
fn shares_refuse_first_bad_count() {
    assert_eq!(
        tax_parts_in_quarters("marie", Some(-1), Some(-1), None),
        Err(refusal("nb_enfants", "entier hors limites"))
    );
    assert_eq!(
        tax_parts_in_quarters("marie", Some(1), Some(-1), Some(-1)),
        Err(refusal("nb_enfants_garde_alternee", "entier hors limites"))
    );
    assert_eq!(
        tax_parts_in_quarters("marie", Some(1), Some(1), Some(2_000_000)),
        Err(refusal("enfants_handicap", "entier hors limites"))
    );
}

#[test]
fn more_children_never_fewer_shares() {
    let mut previous = household_parts_in_quarters("celibataire", 0, 0, 0);
    for c in 1..50 {
        let current = household_parts_in_quarters("celibataire", c, 0, 0);
        assert!(current >= previous + 2);
        previous = current;
    }
}

#[test]
fn income_tax_years() {
    assert_eq!(income_tax_year(None), Ok(2026));
    assert_eq!(income_tax_year(Some(2025)), Ok(2025));
    assert_eq!(
        income_tax_year(Some(2024)),
        Err(refusal("annee", "seules 2025 et 2026 sont prises en charge"))
    );
    assert_eq!(income_tax_year(Some(-1)), Err(refusal("annee", "entier hors limites")));
    // Years are kept on 16 bits: 67561 = 65536 + 2025.
    assert_eq!(income_tax_year(Some(67561)), Ok(2025));
}
