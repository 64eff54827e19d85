//! Reserve accounting engine: pure integer arithmetic over the reserves
//! `(Ra, Rb)`, the outstanding share supply `S`, and caller-supplied amounts.
//!
//! Every quote is total over its inputs: each spec function below fixes, for
//! every input, either the exact amounts of a successful quote or the exact
//! error code, and the executable functions return precisely that outcome.
//! Integer division truncates toward zero, deliberately biased in the pool's
//! favor: rounding may only lose value to the pool, never create it.

use vstd::prelude::*;
use crate::errors::ErrorCode;

verus! {

/// A successful deposit quote: the accepted amounts of each asset and the
/// share units minted for them.
#[derive(Clone, Copy, Debug, PartialEq, Eq, Structural)]
pub struct DepositQuote {
    /// Amount of asset A the pool accepts from the caller.
    pub amount_a_optimal: u64,
    /// Amount of asset B the pool accepts from the caller.
    pub amount_b_optimal: u64,
    /// Share units minted in exchange.
    pub liquidity_minted: u64,
}

/// A successful withdrawal quote: the amounts of each asset paid out for the
/// burned share units.
#[derive(Clone, Copy, Debug, PartialEq, Eq, Structural)]
pub struct WithdrawalQuote {
    /// Amount of asset A returned to the caller.
    pub amount_a_out: u64,
    /// Amount of asset B returned to the caller.
    pub amount_b_out: u64,
}

/// The accepted deposit pair for desired amounts `(da, db)` against reserves
/// `(ra, rb)` with supply `s`.  The first deposit is taken as offered; later
/// deposits are trimmed to the current reserve ratio: whichever desired
/// amount is over-supplied relative to `rb/ra` is cut back.  A product past
/// the machine word, or a division by a zero reserve, is an arithmetic fault.
pub open spec fn spec_optimal_pair(
    ra: int,
    rb: int,
    s: int,
    da: int,
    db: int,
) -> Result<(int, int), ErrorCode> {
    if s == 0 {
        Ok((da, db))
    } else if da * rb > u64::MAX {
        Err(ErrorCode::Overflow)
    } else if ra == 0 {
        Err(ErrorCode::Overflow)
    } else if da * rb / ra <= db {
        Ok((da, da * rb / ra))
    } else if db * ra > u64::MAX {
        Err(ErrorCode::Overflow)
    } else if rb == 0 {
        Err(ErrorCode::Overflow)
    } else {
        Ok((db * ra / rb, db))
    }
}

/// Share units minted for an accepted pair `(a_opt, b_opt)`.  The first
/// deposit mints share units equal to the accepted amount of asset A — a
/// deliberate simplification over a geometric mean; later deposits mint the
/// minimum of the two ratio-implied amounts, so a caller can never mint more
/// than either side of the deposit justifies.
pub open spec fn spec_shares_minted(
    ra: int,
    rb: int,
    s: int,
    a_opt: int,
    b_opt: int,
) -> Result<int, ErrorCode> {
    if s == 0 {
        Ok(a_opt)
    } else if a_opt * s > u64::MAX {
        Err(ErrorCode::Overflow)
    } else if b_opt * s > u64::MAX {
        Err(ErrorCode::Overflow)
    } else if ra == 0 || rb == 0 {
        Err(ErrorCode::Overflow)
    } else if a_opt * s / ra <= b_opt * s / rb {
        Ok(a_opt * s / ra)
    } else {
        Ok(b_opt * s / rb)
    }
}

/// The complete deposit quote: pair selection, then the slippage floors,
/// then the mint amount, refused in exactly that order.
pub open spec fn spec_quote_deposit(
    ra: int,
    rb: int,
    s: int,
    da: int,
    db: int,
    min_a: int,
    min_b: int,
) -> Result<(int, int, int), ErrorCode> {
    match spec_optimal_pair(ra, rb, s, da, db) {
        Err(e) => Err(e),
        Ok((a_opt, b_opt)) => if a_opt < min_a || b_opt < min_b {
            Err(ErrorCode::SlippageExceeded)
        } else {
            match spec_shares_minted(ra, rb, s, a_opt, b_opt) {
                Err(e) => Err(e),
                Ok(m) => if m > 0 {
                    Ok((a_opt, b_opt, m))
                } else {
                    Err(ErrorCode::ZeroLiquidityMinted)
                },
            }
        },
    }
}

/// The complete withdrawal quote for burning `burn` share units out of a
/// holding of `balance`, against reserves `(ra, rb)` and supply `s`.  Each
/// payout is the burned share's truncated proportional claim on one reserve;
/// the pool keeps the remainder dust.
pub open spec fn spec_quote_withdrawal(
    ra: int,
    rb: int,
    s: int,
    burn: int,
    balance: int,
    min_a: int,
    min_b: int,
) -> Result<(int, int), ErrorCode> {
    if burn <= 0 {
        Err(ErrorCode::ZeroLiquidityBurned)
    } else if s == 0 {
        Err(ErrorCode::PoolEmpty)
    } else if burn > balance {
        Err(ErrorCode::InsufficientLpTokens)
    } else if burn * ra > u64::MAX {
        Err(ErrorCode::Overflow)
    } else if burn * rb > u64::MAX {
        Err(ErrorCode::Overflow)
    } else if burn * ra / s < min_a || burn * rb / s < min_b {
        Err(ErrorCode::SlippageExceeded)
    } else {
        Ok((burn * ra / s, burn * rb / s))
    }
}

/// When the desired amount of asset B is the over-supplied side (the
/// ratio-implied `da * rb / ra` exceeds `db`), the trimmed amount of asset A
/// never exceeds what the caller offered.
proof fn lemma_trimmed_a_below_desired(ra: int, rb: int, da: int, db: int)
    requires
        0 < ra,
        0 < rb,
        0 <= da,
        0 <= db,
        da * rb / ra > db,
    ensures
        db * ra / rb <= da,
{
    let q = da * rb / ra;
    let r = (da * rb) % ra;
    vstd::arithmetic::div_mod::lemma_fundamental_div_mod(da * rb, ra);
    vstd::arithmetic::div_mod::lemma_mod_division_less_than_divisor(da * rb, ra);
    assert(db * ra < da * rb) by (nonlinear_arith)
        requires
            da * rb == ra * q + r,
            q > db,
            r >= 0,
            ra > 0,
    ;
    vstd::arithmetic::div_mod::lemma_div_is_ordered(db * ra, da * rb, rb);
    vstd::arithmetic::div_mod::lemma_div_by_multiple(da, rb);
}

/// Quotes a deposit of desired amounts `(amount_a_desired, amount_b_desired)`
/// with slippage floors `(amount_a_min, amount_b_min)` against the reserves
/// and supply read from the asset ledger.  Returns exactly the outcome of
/// [`spec_quote_deposit`] on the same values.
pub fn quote_deposit(
    reserve_a: u64,
    reserve_b: u64,
    lp_supply: u64,
    amount_a_desired: u64,
    amount_b_desired: u64,
    amount_a_min: u64,
    amount_b_min: u64,
) -> (r: Result<DepositQuote, ErrorCode>)
    ensures
        match r {
            Ok(q) => spec_quote_deposit(
                reserve_a as int,
                reserve_b as int,
                lp_supply as int,
                amount_a_desired as int,
                amount_b_desired as int,
                amount_a_min as int,
                amount_b_min as int,
            ) == Ok::<_, ErrorCode>((
                q.amount_a_optimal as int,
                q.amount_b_optimal as int,
                q.liquidity_minted as int,
            )),
            Err(e) => spec_quote_deposit(
                reserve_a as int,
                reserve_b as int,
                lp_supply as int,
                amount_a_desired as int,
                amount_b_desired as int,
                amount_a_min as int,
                amount_b_min as int,
            ) == Err::<(int, int, int), _>(e),
        },
        r is Ok ==> r->Ok_0.liquidity_minted > 0,
        r is Ok ==> r->Ok_0.amount_a_optimal <= amount_a_desired
            && r->Ok_0.amount_b_optimal <= amount_b_desired,
{
    let (amount_a_optimal, amount_b_optimal): (u64, u64) = if lp_supply == 0 {
        (amount_a_desired, amount_b_desired)
    } else {
        let prod_ab = match amount_a_desired.checked_mul(reserve_b) {
            Some(p) => p,
            None => {
                return Err(ErrorCode::Overflow);
            },
        };
        if reserve_a == 0 {
            return Err(ErrorCode::Overflow);
        }
        let amount_b_optimal_calc = prod_ab / reserve_a;
        if amount_b_optimal_calc <= amount_b_desired {
            (amount_a_desired, amount_b_optimal_calc)
        } else {
            let prod_ba = match amount_b_desired.checked_mul(reserve_a) {
                Some(p) => p,
                None => {
                    return Err(ErrorCode::Overflow);
                },
            };
            if reserve_b == 0 {
                return Err(ErrorCode::Overflow);
            }
            proof {
                lemma_trimmed_a_below_desired(
                    reserve_a as int,
                    reserve_b as int,
                    amount_a_desired as int,
                    amount_b_desired as int,
                );
            }
            (prod_ba / reserve_b, amount_b_desired)
        }
    };
    if amount_a_optimal < amount_a_min || amount_b_optimal < amount_b_min {
        return Err(ErrorCode::SlippageExceeded);
    }
    let liquidity_minted: u64 = if lp_supply == 0 {
        amount_a_optimal
    } else {
        let prod_a = match amount_a_optimal.checked_mul(lp_supply) {
            Some(p) => p,
            None => {
                return Err(ErrorCode::Overflow);
            },
        };
        let prod_b = match amount_b_optimal.checked_mul(lp_supply) {
            Some(p) => p,
            None => {
                return Err(ErrorCode::Overflow);
            },
        };
        if reserve_a == 0 || reserve_b == 0 {
            return Err(ErrorCode::Overflow);
        }
        let mint_a = prod_a / reserve_a;
        let mint_b = prod_b / reserve_b;
        if mint_a <= mint_b {
            mint_a
        } else {
            mint_b
        }
    };
    if liquidity_minted > 0 {
        Ok(DepositQuote { amount_a_optimal, amount_b_optimal, liquidity_minted })
    } else {
        Err(ErrorCode::ZeroLiquidityMinted)
    }
}

/// Quotes a withdrawal burning `liquidity_amount` share units out of the
/// caller's holding of `user_lp_balance`, with slippage floors
/// `(amount_a_min, amount_b_min)`.  Returns exactly the outcome of
/// [`spec_quote_withdrawal`] on the same values.
pub fn quote_withdrawal(
    reserve_a: u64,
    reserve_b: u64,
    lp_supply: u64,
    liquidity_amount: u64,
    user_lp_balance: u64,
    amount_a_min: u64,
    amount_b_min: u64,
) -> (r: Result<WithdrawalQuote, ErrorCode>)
    ensures
        match r {
            Ok(q) => spec_quote_withdrawal(
                reserve_a as int,
                reserve_b as int,
                lp_supply as int,
                liquidity_amount as int,
                user_lp_balance as int,
                amount_a_min as int,
                amount_b_min as int,
            ) == Ok::<_, ErrorCode>((q.amount_a_out as int, q.amount_b_out as int)),
            Err(e) => spec_quote_withdrawal(
                reserve_a as int,
                reserve_b as int,
                lp_supply as int,
                liquidity_amount as int,
                user_lp_balance as int,
                amount_a_min as int,
                amount_b_min as int,
            ) == Err::<(int, int), _>(e),
        },
{
    if liquidity_amount == 0 {
        return Err(ErrorCode::ZeroLiquidityBurned);
    }
    if lp_supply == 0 {
        return Err(ErrorCode::PoolEmpty);
    }
    if liquidity_amount > user_lp_balance {
        return Err(ErrorCode::InsufficientLpTokens);
    }
    let prod_a = match liquidity_amount.checked_mul(reserve_a) {
        Some(p) => p,
        None => {
            return Err(ErrorCode::Overflow);
        },
    };
    let prod_b = match liquidity_amount.checked_mul(reserve_b) {
        Some(p) => p,
        None => {
            return Err(ErrorCode::Overflow);
        },
    };
    let amount_a_out = prod_a / lp_supply;
    let amount_b_out = prod_b / lp_supply;
    if amount_a_out < amount_a_min || amount_b_out < amount_b_min {
        return Err(ErrorCode::SlippageExceeded);
    }
    Ok(WithdrawalQuote { amount_a_out, amount_b_out })
}

/// A bound `m` at most the truncated quotient `x / d` clears the product:
/// `m * d <= x`.
proof fn lemma_mul_div_bound(m: int, x: int, d: int)
    requires
        0 < d,
        0 <= m,
        m <= x / d,
    ensures
        m * d <= x,
{
    vstd::arithmetic::div_mod::lemma_fundamental_div_mod(x, d);
    vstd::arithmetic::div_mod::lemma_mod_division_less_than_divisor(x, d);
    assert(m * d <= x) by (nonlinear_arith)
        requires
            m <= x / d,
            x == d * (x / d) + x % d,
            x % d >= 0,
            d > 0,
    ;
}

/// Burning `m` shares against a reserve that has just absorbed `side` more
/// units pays out no more than `side`, provided `m`'s claim on the old
/// reserve was already covered (`m * reserve <= side * s`).
proof fn lemma_withdraw_side_bounded(reserve: int, side: int, s: int, m: int)
    requires
        0 <= reserve,
        0 <= side,
        0 <= s,
        0 < m,
        m * reserve <= side * s,
    ensures
        m * (reserve + side) / (s + m) <= side,
{
    assert(m * (reserve + side) <= side * (s + m)) by (nonlinear_arith)
        requires
            m * reserve <= side * s,
            0 <= m,
            0 <= side,
    ;
    vstd::arithmetic::div_mod::lemma_div_is_ordered(
        m * (reserve + side),
        side * (s + m),
        s + m,
    );
    vstd::arithmetic::div_mod::lemma_div_multiples_vanish(side, s + m);
    vstd::arithmetic::mul::lemma_mul_is_commutative(side, s + m);
}

/// Ratio preservation: for every valid deposit against a non-empty pool, the
/// accepted pair `(a, b)` matches the reserve ratio within integer-truncation
/// tolerance — `a / ra` and `b / rb` differ by less than one unit of either
/// denominator, stated product-wise as `a * rb < (b + 1) * ra` and
/// `b * ra < (a + 1) * rb`.
pub proof fn lemma_deposit_ratio_preserved(
    ra: int,
    rb: int,
    s: int,
    da: int,
    db: int,
    min_a: int,
    min_b: int,
    a: int,
    b: int,
    m: int,
)
    requires
        0 <= ra,
        0 <= rb,
        0 <= da,
        0 <= db,
        0 < s,
        spec_quote_deposit(ra, rb, s, da, db, min_a, min_b) == Ok::<_, ErrorCode>((a, b, m)),
    ensures
        a * rb < (b + 1) * ra,
        b * ra < (a + 1) * rb,
{
    assert(spec_optimal_pair(ra, rb, s, da, db) == Ok::<_, ErrorCode>((a, b)));
    assert(spec_shares_minted(ra, rb, s, a, b) is Ok);
    assert(ra > 0 && rb > 0);
    if da * rb / ra <= db {
        let q = da * rb / ra;
        let r = (da * rb) % ra;
        vstd::arithmetic::div_mod::lemma_fundamental_div_mod(da * rb, ra);
        vstd::arithmetic::div_mod::lemma_mod_division_less_than_divisor(da * rb, ra);
        assert(a == da && b == q);
        assert(a * rb < (b + 1) * ra) by (nonlinear_arith)
            requires
                a == da,
                b == q,
                da * rb == ra * q + r,
                0 <= r < ra,
        ;
        assert(b * ra < (a + 1) * rb) by (nonlinear_arith)
            requires
                a == da,
                b == q,
                da * rb == ra * q + r,
                0 <= r < ra,
                rb > 0,
        ;
    } else {
        let q = db * ra / rb;
        let r = (db * ra) % rb;
        vstd::arithmetic::div_mod::lemma_fundamental_div_mod(db * ra, rb);
        vstd::arithmetic::div_mod::lemma_mod_division_less_than_divisor(db * ra, rb);
        assert(a == q && b == db);
        assert(b * ra < (a + 1) * rb) by (nonlinear_arith)
            requires
                b == db,
                a == q,
                db * ra == rb * q + r,
                0 <= r < rb,
        ;
        assert(a * rb < (b + 1) * ra) by (nonlinear_arith)
            requires
                b == db,
                a == q,
                db * ra == rb * q + r,
                0 <= r < rb,
                ra > 0,
        ;
    }
}

/// No value creation: a deposit followed by a withdrawal of exactly the
/// shares it minted returns at most what was deposited — truncation may only
/// lose value to the pool, never create it.  The precondition `s == 0 ==> ra
/// == 0 && rb == 0` is the empty-pool invariant: a pool has no reserves
/// before its first deposit.
pub proof fn lemma_no_value_creation(
    ra: int,
    rb: int,
    s: int,
    da: int,
    db: int,
    min_a: int,
    min_b: int,
    a: int,
    b: int,
    m: int,
    balance: int,
    a_out: int,
    b_out: int,
)
    requires
        0 <= ra,
        0 <= rb,
        0 <= s,
        0 <= da,
        0 <= db,
        s == 0 ==> ra == 0 && rb == 0,
        spec_quote_deposit(ra, rb, s, da, db, min_a, min_b) == Ok::<_, ErrorCode>((a, b, m)),
        spec_quote_withdrawal(ra + a, rb + b, s + m, m, balance, 0, 0) == Ok::<_, ErrorCode>(
            (a_out, b_out),
        ),
    ensures
        a_out <= a,
        b_out <= b,
{
    assert(m > 0);
    assert(a_out == m * (ra + a) / (s + m));
    assert(b_out == m * (rb + b) / (s + m));
    if s == 0 {
        assert(a == da && b == db && m == a);
        vstd::arithmetic::div_mod::lemma_div_multiples_vanish(a, m);
        vstd::arithmetic::mul::lemma_mul_is_commutative(a, m);
        vstd::arithmetic::div_mod::lemma_div_multiples_vanish(b, m);
        vstd::arithmetic::mul::lemma_mul_is_commutative(b, m);
    } else {
        assert(spec_shares_minted(ra, rb, s, a, b) == Ok::<_, ErrorCode>(m));
        assert(ra > 0 && rb > 0);
        assert(m <= a * s / ra && m <= b * s / rb);
        assert(0 <= a && 0 <= b);
        lemma_mul_div_bound(m, a * s, ra);
        assert(m * ra <= a * s) by (nonlinear_arith)
            requires
                m * ra <= a * s,
        ;
        lemma_withdraw_side_bounded(ra, a, s, m);
        lemma_mul_div_bound(m, b * s, rb);
        lemma_withdraw_side_bounded(rb, b, s, m);
    }
}

/// Slippage floor for deposits: whenever both minimums are strictly above
/// the true optimal pair, the quote fails with `SlippageExceeded` — and, by
/// the operation contracts, an operation failing so mutates no state.
pub proof fn lemma_deposit_slippage_floor(
    ra: int,
    rb: int,
    s: int,
    da: int,
    db: int,
    min_a: int,
    min_b: int,
    a_opt: int,
    b_opt: int,
)
    requires
        spec_optimal_pair(ra, rb, s, da, db) == Ok::<_, ErrorCode>((a_opt, b_opt)),
        min_a > a_opt,
        min_b > b_opt,
    ensures
        spec_quote_deposit(ra, rb, s, da, db, min_a, min_b) == Err::<(int, int, int), _>(
            ErrorCode::SlippageExceeded,
        ),
{
}

/// Slippage floor for withdrawals: whenever both minimums are strictly above
/// the true proportional payouts, the quote fails with `SlippageExceeded` —
/// and, by the operation contracts, an operation failing so mutates no
/// state.
pub proof fn lemma_withdrawal_slippage_floor(
    ra: int,
    rb: int,
    s: int,
    burn: int,
    balance: int,
    min_a: int,
    min_b: int,
)
    requires
        0 < burn <= balance,
        0 < s,
        burn * ra <= u64::MAX,
        burn * rb <= u64::MAX,
        min_a > burn * ra / s,
        min_b > burn * rb / s,
    ensures
        spec_quote_withdrawal(ra, rb, s, burn, balance, min_a, min_b) == Err::<(int, int), _>(
            ErrorCode::SlippageExceeded,
        ),
{
}

} // verus!
