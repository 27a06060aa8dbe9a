use vstd::prelude::*;

use crate::error::ExchangeError;
use crate::state::{
    bet_type_code, is_resolved, outcome_code, Bet, BetType, BetVerdict, Market, MarketSide,
};

verus! {

/// What must be reserved should the side with `payout` win while the two
/// other sides, with stakes `risk_a` and `risk_b`, lose: the shortfall, or
/// nothing.
pub open spec fn side_lock(payout: u64, risk_a: u64, risk_b: u64) -> int {
    if payout > risk_a + risk_b {
        payout - risk_a - risk_b
    } else {
        0
    }
}

pub open spec fn max3(a: int, b: int, c: int) -> int {
    if a >= b && a >= c {
        a
    } else if b >= c {
        b
    } else {
        c
    }
}

/// The worst-case loss of a market over its three outcomes.
pub open spec fn locked_liquidity_of(sides: Seq<MarketSide>) -> int {
    max3(
        side_lock(sides[0].payout, sides[1].risk, sides[2].risk),
        side_lock(sides[1].payout, sides[0].risk, sides[2].risk),
        side_lock(sides[2].payout, sides[0].risk, sides[1].risk),
    )
}

/// The stakes of every two sides sum to a `u64`, so the calculator can run.
pub open spec fn lock_computable(sides: Seq<MarketSide>) -> bool {
    &&& sides[1].risk + sides[2].risk <= u64::MAX
    &&& sides[0].risk + sides[2].risk <= u64::MAX
    &&& sides[0].risk + sides[1].risk <= u64::MAX
}

fn side_lock_checked(payout: u64, risk_a: u64, risk_b: u64) -> (r: Result<u64, ExchangeError>)
    ensures
        risk_a + risk_b <= u64::MAX ==> r == Ok::<u64, ExchangeError>(
            side_lock(payout, risk_a, risk_b) as u64,
        ),
        risk_a + risk_b > u64::MAX ==> r == Err::<u64, ExchangeError>(
            ExchangeError::AmountOverflow,
        ),
{
    let others = match risk_a.checked_add(risk_b) {
        Some(v) => v,
        None => return Err(ExchangeError::AmountOverflow),
    };
    if payout > others {
        Ok(payout - risk_a - risk_b)
    } else {
        Ok(0)
    }
}

/// The capital a market must reserve: over its three sides, the largest
/// amount by which the side's payouts exceed the stakes of the two others.
/// Fails with `AmountOverflow` where the stakes of two sides do not sum to a
/// `u64`.
pub fn calculate_locked_liquidity(market_state: &Market) -> (r: Result<u64, ExchangeError>)
    ensures
        lock_computable(market_state.market_sides@) ==> r == Ok::<u64, ExchangeError>(
            locked_liquidity_of(market_state.market_sides@) as u64,
        ),
        !lock_computable(market_state.market_sides@) ==> r == Err::<u64, ExchangeError>(
            ExchangeError::AmountOverflow,
        ),
{
    let s0 = market_state.market_sides[0];
    let s1 = market_state.market_sides[1];
    let s2 = market_state.market_sides[2];
    let locked_side_0 = side_lock_checked(s0.payout, s1.risk, s2.risk)?;
    let locked_side_1 = side_lock_checked(s1.payout, s0.risk, s2.risk)?;
    let locked_side_2 = side_lock_checked(s2.payout, s0.risk, s1.risk)?;
    if locked_side_0 >= locked_side_1 && locked_side_0 >= locked_side_2 {
        Ok(locked_side_0)
    } else if locked_side_1 >= locked_side_2 {
        Ok(locked_side_1)
    } else {
        Ok(locked_side_2)
    }
}

/// The payout owed on a winning stake at American odds: `risk * odds / 100`
/// for odds of zero or more, `risk * 100 / -odds` for negative odds, rounded
/// down.
pub open spec fn payout_at_odds(odds: i64, risk: u64) -> int {
    if odds >= 0 {
        risk * odds / 100
    } else {
        risk * 100 / (-odds)
    }
}

/// The payout on `risk` at the quoted `odds`, or `None` where it does not fit
/// in a `u64`.
pub fn calculate_payout(odds: i64, risk: u64) -> (r: Option<u64>)
    ensures
        payout_at_odds(odds, risk) <= u64::MAX ==> r == Some(payout_at_odds(odds, risk) as u64),
        payout_at_odds(odds, risk) > u64::MAX ==> r.is_none(),
{
    let risk_wide = risk as u128;
    let payout: u128 = if odds >= 0 {
        let o = odds as u128;
        assert(risk_wide * o <= u64::MAX * i64::MAX) by (nonlinear_arith)
            requires
                risk_wide <= u64::MAX,
                o <= i64::MAX,
        ;
        risk_wide * o / 100
    } else {
        let o = (-(odds as i128)) as u128;
        risk_wide * 100 / o
    };
    if payout > u64::MAX as u128 {
        None
    } else {
        Some(payout as u64)
    }
}

/// The payout of a crash-game bet: `risk * multiplier / 100`, rounded down.
pub fn calculate_bust_payout(risk: u16, multiplier: u32) -> (r: Option<u64>)
    ensures
        r == Some((risk * multiplier / 100) as u64),
{
    let r = risk as u64;
    let m = multiplier as u64;
    assert(r * m <= u16::MAX * u32::MAX) by (nonlinear_arith)
        requires
            r <= u16::MAX,
            m <= u32::MAX,
    ;
    Some(r * m / 100)
}

/// The verdict on a bet once its market holds a result.
///
/// A money-line bet wins when its side is the winning side. A spread bet on
/// the underdog (side 1) wins when its line exceeds the sum of both scores;
/// one on the favourite wins when team A's score less the line exceeds team
/// B's. A total bet on the over (side 1) wins when its line exceeds the
/// total score, one on the under when the line is below it. Every other case
/// loses; ties included.
pub open spec fn bet_outcome(bet: Bet, market: Market) -> BetVerdict {
    match bet.bet_type {
        BetType::MoneyLine => if bet.user_market_side == outcome_code(market.result) {
            BetVerdict::Won
        } else {
            BetVerdict::Lost
        },
        BetType::Spread => if bet.user_market_side == 1 {
            if bet.points > market.team_a_score + market.team_b_score {
                BetVerdict::Won
            } else {
                BetVerdict::Lost
            }
        } else {
            if market.team_a_score - bet.points > market.team_b_score {
                BetVerdict::Won
            } else {
                BetVerdict::Lost
            }
        },
        BetType::Total => if bet.user_market_side == 1 {
            if bet.points > market.total_score {
                BetVerdict::Won
            } else {
                BetVerdict::Lost
            }
        } else {
            if bet.points < market.total_score {
                BetVerdict::Won
            } else {
                BetVerdict::Lost
            }
        },
    }
}

/// Resolves a bet against its market's result; `MarketNotSettled` where the
/// market holds no result.
pub fn get_bet_outcome(bet_state: &Bet, market_state: &Market) -> (r: Result<
    BetVerdict,
    ExchangeError,
>)
    ensures
        is_resolved(market_state.result) ==> r == Ok::<BetVerdict, ExchangeError>(
            bet_outcome(*bet_state, *market_state),
        ),
        !is_resolved(market_state.result) ==> r == Err::<BetVerdict, ExchangeError>(
            ExchangeError::MarketNotSettled,
        ),
{
    if !market_state.result.is_resolved() {
        return Err(ExchangeError::MarketNotSettled);
    }
    let a = market_state.team_a_score as u32;
    let b = market_state.team_b_score as u32;
    let line = bet_state.points as u32;
    let won = match bet_state.bet_type {
        BetType::MoneyLine => bet_state.user_market_side == market_state.result.pack(),
        BetType::Spread => if bet_state.user_market_side == 1 {
            line > a + b
        } else {
            a > b + line
        },
        BetType::Total => if bet_state.user_market_side == 1 {
            bet_state.points > market_state.total_score
        } else {
            bet_state.points < market_state.total_score
        },
    };
    if won {
        Ok(BetVerdict::Won)
    } else {
        Ok(BetVerdict::Lost)
    }
}

/// `value * numerator / denominator` rounded down: what a share of a profit
/// comes to.
pub open spec fn fraction_of(value: u64, numerator: u64, denominator: u64) -> int {
    value * numerator / (denominator as int)
}

/// Relies on the fixed crate's `U64F64`: `from_num` of an integer is exact;
/// `checked_mul` keeps the product's top 64 fractional bits and returns
/// `None` when the integer part passes 64 bits; `checked_div` returns `None`
/// for a zero divisor and truncates the quotient to 64 fractional bits;
/// `checked_to_num::<u64>` discards the fraction.
#[verifier::external_body]
fn fixed_mul_div(value: u64, numerator: u64, denominator: u64) -> (r: Option<u64>)
    ensures
        denominator == 0 || value * numerator > u64::MAX ==> r.is_none(),
        denominator != 0 && value * numerator <= u64::MAX ==> r == Some(
            fraction_of(value, numerator, denominator) as u64,
        ),
{
    let product = fixed::types::U64F64::from_num(value).checked_mul(
        fixed::types::U64F64::from_num(numerator),
    )?;
    product.checked_div(fixed::types::U64F64::from_num(denominator))?.checked_to_num::<u64>()
}

/// A money-line bet of `risk` and `payout` added to one side raises the
/// market's worst-case loss by at most `payout`: the side's shortfall grows
/// by `payout`, and the others' shrink as its stake grows.
pub proof fn lemma_lock_rise_bounded(sides: Seq<MarketSide>, side: int, risk: u64, payout: u64)
    requires
        sides.len() == 3,
        0 <= side < 3,
        sides[side].risk + risk <= u64::MAX,
        sides[side].payout + payout <= u64::MAX,
    ensures
        locked_liquidity_of(sides_with_bet(sides, side, risk, payout)) <= locked_liquidity_of(sides)
            + payout,
{
}

/// The sides of a market once a money-line bet of `risk` and `payout` is
/// added to side `side`.
pub open spec fn sides_with_bet(sides: Seq<MarketSide>, side: int, risk: u64, payout: u64) -> Seq<
    MarketSide,
> {
    sides.update(
        side,
        MarketSide {
            risk: (sides[side].risk + risk) as u64,
            payout: (sides[side].payout + payout) as u64,
            ..sides[side]
        },
    )
}

/// The part of a profit owed at `percent` per hundred, rounded down. Whole
/// hundreds are shared in integers and the remainder below a hundred in 64.64
/// fixed point, so no profit is too large to share.
pub fn percent_of_profit(profit: u64, percent: u64) -> (r: u64)
    requires
        percent <= 100,
    ensures
        r == fraction_of(profit, percent, 100),
{
    let hundreds = profit / 100;
    let rest = profit % 100;
    assert(rest * percent <= 99 * 100) by (nonlinear_arith)
        requires
            rest < 100,
            percent <= 100,
    ;
    let rest_share = fixed_mul_div(rest, percent, 100).unwrap();
    assert(hundreds * percent <= hundreds * 100) by (nonlinear_arith)
        requires
            percent <= 100,
    ;
    assert(profit * percent == 100 * (hundreds * percent) + rest * percent) by (nonlinear_arith)
        requires
            profit == 100 * hundreds + rest,
    ;
    assert(rest_share == (rest * percent) / 100);
    assert(rest_share <= rest) by (nonlinear_arith)
        requires
            rest_share == (rest * percent) / 100,
            percent <= 100,
    ;
    assert(hundreds * 100 + rest == profit);
    hundreds * percent + rest_share
}

} // verus!
