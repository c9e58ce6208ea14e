//! Interest-rate and exchange-rate formulas of a money market, on plain
//! integers: `cash` is what the market holds, `lent` what is lent out
//! (principal plus accrued interest), `supply` the claim tokens outstanding.
use vstd::prelude::*;

verus! {

/// Fixed-point scale of the reported rates: `RATE_SCALE` stands for 1.
pub const RATE_SCALE: u64 = 1_000_000_000;

/// The exchange rate of an empty market, 0.02, as numerator and denominator.
pub const INIT_EX_RATE_NUM: u64 = 1;

pub const INIT_EX_RATE_DEN: u64 = 50;

/// Yearly borrow rate at zero utilisation, 0.025, scaled.
pub const BASE_BORROW_RATE: u64 = 25_000_000;

/// Slope of the borrow rate in the utilisation ratio, 0.2, as a fraction.
pub const SLOPE_NUM: u64 = 2;

pub const SLOPE_DEN: u64 = 10;

/// Seconds in the 364.25-day year used for accrual.
pub const YEAR_SECS: u64 = 31_471_200;

/// The exchange rate (underlying per claim token) as a fraction.
pub open spec fn exchange_rate_spec(cash: nat, lent: nat, supply: nat) -> (nat, nat) {
    if supply == 0 || (cash == 0 && lent == 0) {
        (INIT_EX_RATE_NUM as nat, INIT_EX_RATE_DEN as nat)
    } else {
        (cash + lent, supply)
    }
}

/// Claim tokens worth `amount` of underlying at the given rate, rounded down.
pub open spec fn claims_for(amount: nat, rate: (nat, nat)) -> nat {
    amount * rate.1 / rate.0
}

/// The share of the pool that is lent out, scaled.
pub open spec fn utilization_spec(cash: nat, lent: nat) -> nat {
    if lent + cash == 0 {
        0
    } else {
        lent * (RATE_SCALE as nat) / (lent + cash)
    }
}

/// The yearly borrow rate, scaled: base plus slope times utilisation.
pub open spec fn borrow_rate_spec(cash: nat, lent: nat) -> nat {
    BASE_BORROW_RATE as nat + utilization_spec(cash, lent) * (SLOPE_NUM as nat) / (SLOPE_DEN as nat)
}

/// The yearly rate that suppliers earn, scaled: borrow rate times utilisation.
pub open spec fn earn_rate_spec(cash: nat, lent: nat) -> nat {
    borrow_rate_spec(cash, lent) * utilization_spec(cash, lent) / (RATE_SCALE as nat)
}

/// Interest on `lent` at the scaled yearly `rate` over `elapsed` seconds.
pub open spec fn interest_spec(lent: nat, rate: nat, elapsed: nat) -> nat {
    lent * rate * elapsed / ((RATE_SCALE as nat) * (YEAR_SECS as nat))
}

pub fn exchange_rate(cash: u64, lent: u64, supply: u64) -> (r: (u128, u128))
    ensures
        (r.0 as nat, r.1 as nat) == exchange_rate_spec(cash as nat, lent as nat, supply as nat),
        r.0 > 0,
        r.1 > 0,
        r.1 <= u64::MAX,
{
    if supply == 0 || (cash == 0 && lent == 0) {
        (INIT_EX_RATE_NUM as u128, INIT_EX_RATE_DEN as u128)
    } else {
        (cash as u128 + lent as u128, supply as u128)
    }
}

pub fn utilization_ratio(cash: u64, lent: u64) -> (r: u64)
    ensures
        r == utilization_spec(cash as nat, lent as nat),
        r <= RATE_SCALE,
{
    let total: u128 = lent as u128 + cash as u128;
    if total == 0 {
        return 0;
    }
    let scaled: u128 = lent as u128 * RATE_SCALE as u128;
    proof {
        assert(lent * RATE_SCALE <= total * RATE_SCALE) by (nonlinear_arith)
            requires
                lent <= total,
        ;
        vstd::arithmetic::div_mod::lemma_div_is_ordered(
            lent * RATE_SCALE as int,
            total * RATE_SCALE as int,
            total as int,
        );
        vstd::arithmetic::div_mod::lemma_div_multiples_vanish(RATE_SCALE as int, total as int);
    }
    (scaled / total) as u64
}

pub fn borrow_rate(cash: u64, lent: u64) -> (r: u64)
    ensures
        r == borrow_rate_spec(cash as nat, lent as nat),
        r <= BASE_BORROW_RATE + RATE_SCALE,
{
    BASE_BORROW_RATE + utilization_ratio(cash, lent) * SLOPE_NUM / SLOPE_DEN
}

pub fn earn_rate(cash: u64, lent: u64) -> (r: u64)
    ensures
        r == earn_rate_spec(cash as nat, lent as nat),
{
    let b = borrow_rate(cash, lent) as u128;
    let u = utilization_ratio(cash, lent) as u128;
    proof {
        assert(b * u <= (BASE_BORROW_RATE + RATE_SCALE) * RATE_SCALE) by (nonlinear_arith)
            requires
                b <= BASE_BORROW_RATE + RATE_SCALE,
                u <= RATE_SCALE,
        ;
        vstd::arithmetic::div_mod::lemma_div_is_ordered(
            b * u as int,
            (BASE_BORROW_RATE + RATE_SCALE) * RATE_SCALE as int,
            RATE_SCALE as int,
        );
        vstd::arithmetic::div_mod::lemma_div_multiples_vanish(
            (BASE_BORROW_RATE + RATE_SCALE) as int,
            RATE_SCALE as int,
        );
    }
    (b * u / RATE_SCALE as u128) as u64
}

/// Interest on `lent` at `rate` over `elapsed` seconds; `None` where the
/// product `lent * rate * elapsed` does not fit in `u128`.
pub fn interest(lent: u64, rate: u64, elapsed: u64) -> (r: Option<u128>)
    ensures
        r is Some <==> lent * rate * elapsed <= u128::MAX,
        r matches Some(v) ==> v == interest_spec(lent as nat, rate as nat, elapsed as nat),
{
    proof {
        assert(lent * rate <= u64::MAX * u64::MAX) by (nonlinear_arith)
            requires
                lent <= u64::MAX,
                rate <= u64::MAX,
        ;
    }
    let p: u128 = lent as u128 * rate as u128;
    match p.checked_mul(elapsed as u128) {
        Some(q) => Some(q / (RATE_SCALE as u128 * YEAR_SECS as u128)),
        None => None,
    }
}

} // verus!
