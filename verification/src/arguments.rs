//! Checks on integer arguments and the count of family tax shares.
//!
//! Shares are counted in quarters: every share the engine grants is a
//! multiple of a quarter share, so the count is exact in integers.

use vstd::prelude::*;

use crate::error::{invalid, FiscalError, FiscalErrorView};
use crate::text::str_eq;

verus! {

/// The largest integer argument the engine accepts.
pub const MAX_INTEGER_ARGUMENT: i64 = 1_000_000;

/// The value an integer argument takes: the one supplied, else the default.
pub open spec fn supplied_or(found: Option<i64>, default: i64) -> i64 {
    match found {
        Some(v) => v,
        None => default,
    }
}

/// What checking the integer argument `name` gives: its value when it lies
/// in `0..=1_000_000`, else the refusal of that argument.
pub open spec fn integer_outcome(name: Seq<char>, found: Option<i64>, default: i64) -> Result<
    i64,
    FiscalErrorView,
> {
    let v = supplied_or(found, default);
    if 0 <= v <= 1_000_000 {
        Ok(v)
    } else {
        Err(FiscalErrorView::InvalidArgument { name, reason: "entier hors limites"@ })
    }
}

/// The view of a checked result.
pub open spec fn result_view<T>(r: Result<T, FiscalError>) -> Result<T, FiscalErrorView> {
    match r {
        Ok(v) => Ok(v),
        Err(e) => Err(e@),
    }
}

/// Checks the integer argument `name`, whose supplied value (if any) is
/// `found`, falling back to `default`.
pub fn integer(name: &str, found: Option<i64>, default: i64) -> (r: Result<i64, FiscalError>)
    ensures
        result_view(r) == integer_outcome(name@, found, default),
{
    let value = match found {
        Some(v) => v,
        None => default,
    };
    if value < 0 || value > MAX_INTEGER_ARGUMENT {
        return Err(invalid(name, "entier hors limites"));
    }
    Ok(value)
}

/// A married or civil-partnered household.
pub open spec fn is_couple(situation: Seq<char>) -> bool {
    situation == "marie"@ || situation == "pacse"@
}

/// A single or divorced taxpayer.
pub open spec fn is_single(situation: Seq<char>) -> bool {
    situation == "celibataire"@ || situation == "divorce"@
}

/// Base shares of a household, in quarters: two shares for a couple, one otherwise.
pub open spec fn base_quarters(situation: Seq<char>) -> nat {
    if is_couple(situation) {
        8
    } else {
        4
    }
}

/// Quarters granted for `c` children in full custody: half a share for each
/// of the first two, a full share from the third on.
pub open spec fn custody_quarters(c: nat) -> nat {
    if c <= 2 {
        2 * c
    } else {
        4 + 4 * (c - 2) as nat
    }
}

/// How many of `a` children in alternating custody, ranked after `c`
/// children in full custody, are among the first two children.
pub open spec fn early_alternating(c: nat, a: nat) -> nat {
    if c >= 2 {
        0
    } else if a <= 2 - c {
        a
    } else {
        (2 - c) as nat
    }
}

/// Quarters granted for `a` children in alternating custody ranked after
/// `c` children in full custody: a quarter share each among the first two
/// children, half a share each from the third on.
pub open spec fn alternating_quarters(c: nat, a: nat) -> nat {
    early_alternating(c, a) + 2 * (a - early_alternating(c, a)) as nat
}

/// The half share of a single parent.
pub open spec fn single_parent_quarters(situation: Seq<char>, c: nat, a: nat) -> nat {
    if is_single(situation) && c + a > 0 {
        2
    } else {
        0
    }
}

/// Household tax shares in quarters for `c` children in full custody, `a`
/// in alternating custody and `d` disabled children (half a share each).
pub open spec fn household_quarters(situation: Seq<char>, c: nat, a: nat, d: nat) -> nat {
    base_quarters(situation) + custody_quarters(c) + alternating_quarters(c, a) + 2 * d
        + single_parent_quarters(situation, c, a)
}

/// Whether the household is a couple.
pub fn couple(situation: &str) -> (r: bool)
    ensures
        r == is_couple(situation@),
{
    str_eq(situation, "marie") || str_eq(situation, "pacse")
}

/// Whether the taxpayer is single or divorced.
pub fn single(situation: &str) -> (r: bool)
    ensures
        r == is_single(situation@),
{
    str_eq(situation, "celibataire") || str_eq(situation, "divorce")
}

/// Base shares of the household, in quarters.
pub fn base_parts_in_quarters(situation: &str) -> (q: u64)
    ensures
        q == base_quarters(situation@),
{
    if couple(situation) {
        8
    } else {
        4
    }
}

/// Counts the household's tax shares in quarters, children ranked in full
/// custody first, then in alternating custody.
pub fn household_parts_in_quarters(situation: &str, children: u64, alternating: u64, disabled: u64) -> (q: u64)
    requires
        children <= 1_000_000,
        alternating <= 1_000_000,
        disabled <= 1_000_000,
    ensures
        q == household_quarters(situation@, children as nat, alternating as nat, disabled as nat),
{
    let mut parts = base_parts_in_quarters(situation);
    let mut rank: u64 = 0;
    let mut i: u64 = 0;
    while i < children
        invariant
            i <= children <= 1_000_000,
            rank == i,
            parts == base_quarters(situation@) + custody_quarters(i as nat),
        decreases children - i,
    {
        rank = rank + 1;
        parts = parts + if rank <= 2 { 2 } else { 4 };
        i = i + 1;
    }
    let mut j: u64 = 0;
    while j < alternating
        invariant
            j <= alternating <= 1_000_000,
            children <= 1_000_000,
            rank == children + j,
            parts == base_quarters(situation@) + custody_quarters(children as nat)
                + alternating_quarters(children as nat, j as nat),
        decreases alternating - j,
    {
        rank = rank + 1;
        parts = parts + if rank <= 2 { 1 } else { 2 };
        j = j + 1;
    }
    parts = parts + disabled * 2;
    if single(situation) && children + alternating > 0 {
        parts = parts + 2;
    }
    parts
}

/// What counting the household's shares gives from the supplied counts:
/// the first count out of bounds is refused, else the shares in quarters.
pub open spec fn parts_outcome(
    situation: Seq<char>,
    children: Option<i64>,
    alternating: Option<i64>,
    disabled: Option<i64>,
) -> Result<nat, FiscalErrorView> {
    match integer_outcome("nb_enfants"@, children, 0) {
        Err(e) => Err(e),
        Ok(c) => match integer_outcome("nb_enfants_garde_alternee"@, alternating, 0) {
            Err(e) => Err(e),
            Ok(a) => match integer_outcome("enfants_handicap"@, disabled, 0) {
                Err(e) => Err(e),
                Ok(d) => Ok(household_quarters(situation, c as nat, a as nat, d as nat)),
            },
        },
    }
}

/// Checks the counts of children and counts the household's tax shares, in
/// quarters.
pub fn tax_parts_in_quarters(
    situation: &str,
    children: Option<i64>,
    alternating: Option<i64>,
    disabled: Option<i64>,
) -> (r: Result<u64, FiscalError>)
    ensures
        match (r, parts_outcome(situation@, children, alternating, disabled)) {
            (Ok(q), Ok(expected)) => q == expected,
            (Err(e), Err(expected)) => e@ == expected,
            _ => false,
        },
{
    let c = integer("nb_enfants", children, 0)?;
    let a = integer("nb_enfants_garde_alternee", alternating, 0)?;
    let d = integer("enfants_handicap", disabled, 0)?;
    Ok(household_parts_in_quarters(situation, c as u64, a as u64, d as u64))
}

/// What checking the income tax year gives: the supplied year (taken modulo
/// 2^16, as the engine stores years in 16 bits) when it is 2025 or 2026.
pub open spec fn income_tax_year_outcome(found: Option<i64>) -> Result<u16, FiscalErrorView> {
    match integer_outcome("annee"@, found, 2026) {
        Err(e) => Err(e),
        Ok(v) => if v as u16 == 2025 || v as u16 == 2026 {
            Ok(v as u16)
        } else {
            Err(
                FiscalErrorView::InvalidArgument {
                    name: "annee"@,
                    reason: "seules 2025 et 2026 sont prises en charge"@,
                },
            )
        },
    }
}

/// Checks the year of an income tax computation.
pub fn income_tax_year(found: Option<i64>) -> (r: Result<u16, FiscalError>)
    ensures
        result_view(r) == income_tax_year_outcome(found),
{
    let year = integer("annee", found, 2026)? as u16;
    if year != 2025 && year != 2026 {
        return Err(invalid("annee", "seules 2025 et 2026 sont prises en charge"));
    }
    Ok(year)
}

/// A couple starts from two shares, anyone else from one.
pub proof fn lemma_base_shares(situation: Seq<char>)
    ensures
        household_quarters(situation, 0, 0, 0) == if is_couple(situation) {
            8nat
        } else {
            4nat
        },
{
}

/// One more child in full custody adds at least half a share, and a full
/// share from the third child on.
pub proof fn lemma_child_adds_shares(situation: Seq<char>, c: nat, a: nat, d: nat)
    ensures
        household_quarters(situation, c + 1, a, d) >= household_quarters(situation, c, a, d) + 2,
        c >= 2 ==> household_quarters(situation, c + 1, a, d) == household_quarters(situation, c, a, d)
            + 4,
{
}

/// One more child in alternating custody adds at least a quarter share, and
/// exactly half a share once two children in full custody rank before it.
pub proof fn lemma_alternating_child_adds_shares(situation: Seq<char>, c: nat, a: nat, d: nat)
    ensures
        household_quarters(situation, c, a + 1, d) >= household_quarters(situation, c, a, d) + 1,
        c >= 2 ==> household_quarters(situation, c, a + 1, d) == household_quarters(situation, c, a, d)
            + 2,
{
}

/// Each disabled child adds exactly half a share.
pub proof fn lemma_disabled_child_adds_half_share(situation: Seq<char>, c: nat, a: nat, d: nat)
    ensures
        household_quarters(situation, c, a, d + 1) == household_quarters(situation, c, a, d) + 2,
{
}

/// A single parent has half a share more than the children alone give.
pub proof fn lemma_single_parent_half_share(situation: Seq<char>, c: nat, a: nat, d: nat)
    requires
        is_single(situation),
        c + a > 0,
    ensures
        household_quarters(situation, c, a, d) == 4 + custody_quarters(c) + alternating_quarters(
            c,
            a,
        ) + 2 * d + 2,
{
    reveal_strlit("celibataire");
    reveal_strlit("divorce");
    reveal_strlit("marie");
    reveal_strlit("pacse");
    assert("celibataire"@.len() == 11);
    assert("divorce"@.len() == 7);
    assert("marie"@.len() == 5);
    assert("pacse"@.len() == 5);
}

/// Without children, a married or civil-partnered household has two shares,
/// anyone else one, and each disabled child half a share more.
pub proof fn lemma_shares_without_children(situation: Seq<char>, d: nat)
    ensures
        household_quarters(situation, 0, 0, d) == (if situation == "marie"@ || situation == "pacse"@ {
            8nat
        } else {
            4nat
        }) + 2 * d,
{
}

/// A child in full custody, ranked after `c` others, adds half a share when
/// it is the first or second child and a full share from the third on; the
/// first child of a single or divorced taxpayer adds the single parent's
/// half share as well.
pub proof fn lemma_full_custody_child_share(situation: Seq<char>, c: nat, d: nat)
    ensures
        household_quarters(situation, c + 1, 0, d) == household_quarters(situation, c, 0, d) + (if c
            + 1 <= 2 {
            2nat
        } else {
            4nat
        }) + (if (situation == "celibataire"@ || situation == "divorce"@) && c == 0 {
            2nat
        } else {
            0nat
        }),
{
}

/// A child in alternating custody, ranked after the `c` children in full
/// custody and `a` others in alternating custody, adds a quarter share when it
/// is the first or second child and half a share from the third on; the first
/// child of a single or divorced taxpayer adds the single parent's half share
/// as well.
pub proof fn lemma_alternating_child_share(situation: Seq<char>, c: nat, a: nat, d: nat)
    ensures
        household_quarters(situation, c, a + 1, d) == household_quarters(situation, c, a, d) + (if c
            + a + 1 <= 2 {
            1nat
        } else {
            2nat
        }) + (if (situation == "celibataire"@ || situation == "divorce"@) && c + a == 0 {
            2nat
        } else {
            0nat
        }),
{
}

/// An integer argument is accepted exactly when its value (the one supplied,
/// else the default) lies between 0 and one million, and is then taken as is;
/// otherwise the argument is refused by name as out of bounds.
pub proof fn lemma_integer_bounds(name: Seq<char>, found: Option<i64>, default: i64)
    ensures
        ({
            let v = match found {
                Some(x) => x,
                None => default,
            };
            &&& 0 <= v && v <= 1_000_000 ==> integer_outcome(name, found, default) == Ok::<
                i64,
                FiscalErrorView,
            >(v)
            &&& (v < 0 || v > 1_000_000) ==> integer_outcome(name, found, default) == Err::<
                i64,
                FiscalErrorView,
            >(FiscalErrorView::InvalidArgument { name, reason: "entier hors limites"@ })
        }),
{
}

/// The income tax year is 2026 unless supplied; a supplied year within the
/// integer bounds is accepted exactly when, kept on sixteen bits, it is 2025
/// or 2026.
pub proof fn lemma_income_tax_year(v: i64)
    ensures
        income_tax_year_outcome(None) == Ok::<u16, FiscalErrorView>(2026),
        0 <= v <= 1_000_000 ==> (income_tax_year_outcome(Some(v)) is Ok <==> (v % 65536 == 2025
            || v % 65536 == 2026)),
        0 <= v <= 1_000_000 && (v % 65536 == 2025 || v % 65536 == 2026) ==> income_tax_year_outcome(
            Some(v),
        ) == Ok::<u16, FiscalErrorView>((v % 65536) as u16),
        (v < 0 || v > 1_000_000) ==> income_tax_year_outcome(Some(v)) == Err::<u16, FiscalErrorView>(
            FiscalErrorView::InvalidArgument { name: "annee"@, reason: "entier hors limites"@ },
        ),
{
    if 0 <= v <= 1_000_000 {
        assert((v as u16) as int == v % 65536) by (bit_vector)
            requires
                0 <= v <= 1_000_000,
        ;
    }
}

/// The counts of children are checked in order (full custody, alternating
/// custody, disabled) and the first out of bounds is the one refused; when all
/// are within bounds the household's shares are counted.
pub proof fn lemma_parts_refusal_order(
    situation: Seq<char>,
    children: Option<i64>,
    alternating: Option<i64>,
    disabled: Option<i64>,
)
    ensures
        ({
            let c = match children {
                Some(x) => x,
                None => 0,
            };
            let a = match alternating {
                Some(x) => x,
                None => 0,
            };
            let d = match disabled {
                Some(x) => x,
                None => 0,
            };
            let bad = |v: i64| v < 0 || v > 1_000_000;
            &&& bad(c) ==> parts_outcome(situation, children, alternating, disabled) == Err::<
                nat,
                FiscalErrorView,
            >(FiscalErrorView::InvalidArgument { name: "nb_enfants"@, reason: "entier hors limites"@ })
            &&& !bad(c) && bad(a) ==> parts_outcome(situation, children, alternating, disabled)
                == Err::<nat, FiscalErrorView>(
                FiscalErrorView::InvalidArgument {
                    name: "nb_enfants_garde_alternee"@,
                    reason: "entier hors limites"@,
                },
            )
            &&& !bad(c) && !bad(a) && bad(d) ==> parts_outcome(situation, children, alternating, disabled)
                == Err::<nat, FiscalErrorView>(
                FiscalErrorView::InvalidArgument { name: "enfants_handicap"@, reason: "entier hors limites"@ },
            )
            &&& !bad(c) && !bad(a) && !bad(d) ==> parts_outcome(situation, children, alternating, disabled)
                == Ok::<nat, FiscalErrorView>(household_quarters(situation, c as nat, a as nat, d as nat))
        }),
{
}

} // verus!
