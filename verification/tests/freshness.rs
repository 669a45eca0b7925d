use fiscal_core::error::FiscalError;
use fiscal_core::freshness::{assess_freshness, freshness, COVERED_YEAR, STALE_AFTER_DAYS};

#[test]
fn freshness_uses_real_audit_date_and_183_days() {
    let assessed = assess_freshness("2026-08-01", "2026-08-01", Some(2026))
        .unwrap()
        .unwrap();
    assert_eq!(STALE_AFTER_DAYS, 183);
    assert_eq!(assessed.age_days, 0);
    assert!(!assessed.stale);
    assert_eq!(assessed.target_year, 2026);
}

#[test]
fn freshness_becomes_stale_after_183_days() {
    let assessed = assess_freshness("2026-08-01", "2027-02-01", Some(2026))
        .unwrap()
        .unwrap();
    assert!(assessed.stale);
    assert!(assessed.age_days > 183);
    assert_eq!(assessed.age_days, 184);
}

#[test]
fn freshness_default_target_is_covered_year() {
    let assessed = assess_freshness("2026-08-01", "2026-09-01", None).unwrap().unwrap();
    assert_eq!(assessed.target_year, COVERED_YEAR);
    assert_eq!(assessed.age_days, 31);
    assert!(!assessed.stale);
}

#[test]
fn freshness_on_the_last_fresh_day() {
    // 2027-01-31 is 183 days after 2026-08-01: still fresh.
    let assessed = assess_freshness("2026-08-01", "2027-01-31", Some(2026))
        .unwrap()
        .unwrap();
    assert_eq!(assessed.age_days, 183);
    assert!(!assessed.stale);
}

#[test]
fn freshness_other_target_year_is_stale() {
    let assessed = assess_freshness("2026-08-01", "2026-08-02", Some(2027))
        .unwrap()
        .unwrap();
    assert!(assessed.stale);
    assert_eq!(assessed.age_days, 1);
}

#[test]
fn freshness_reference_before_audit_has_no_age() {
    let assessed = assess_freshness("2026-08-01", "2025-01-01", Some(2026))
        .unwrap()
        .unwrap();
    assert_eq!(assessed.age_days, 0);
    assert!(!assessed.stale);
}

#[test]
fn freshness_target_year_is_taken_on_sixteen_bits() {
    // 67562 = 65536 + 2026
    let assessed = assess_freshness("2026-08-01", "2026-08-01", Some(67562))
        .unwrap()
        .unwrap();
    assert_eq!(assessed.target_year, 2026);
    assert!(!assessed.stale);
}

#[test]
fn freshness_rejects_unreadable_reference_date() {
    let refused = assess_freshness("2026-08-01", "demain", Some(2026)).unwrap();
    assert_eq!(
        refused,
        Err(FiscalError::InvalidArgument {
            name: "_current_date".to_owned(),
            reason: "date interne invalide".to_owned(),
        })
    );
}

#[test]
fn freshness_rejects_out_of_bounds_target() {
    let refused = assess_freshness("2026-08-01", "2026-08-01", Some(-3)).unwrap();
    assert_eq!(
        refused,
        Err(FiscalError::InvalidArgument {
            name: "annee_cible".to_owned(),
            reason: "entier hors limites".to_owned(),
        })
    );
}

#[test]
fn freshness_gives_nothing_for_unreadable_audit_date() {
    assert!(assess_freshness("2026-13-01", "2026-08-01", Some(2026)).is_none());
}

#[test]
fn freshness_from_day_numbers() {
    let f = freshness(1000, 1184, 2026);
    assert_eq!(f.age_days, 184);
    assert!(f.stale);
    let f = freshness(1000, 1183, 2026);
    assert_eq!(f.age_days, 183);
    assert!(!f.stale);
    let later = freshness(1000, 1500, 2026);
    assert!(later.age_days >= f.age_days);
}
