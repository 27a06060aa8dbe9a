use vstd::prelude::*;

use crate::error::ExchangeError;
use crate::risk::{
    bet_outcome, calculate_bust_payout, calculate_locked_liquidity, calculate_payout,
    fraction_of, get_bet_outcome, lemma_lock_rise_bounded, lock_computable, locked_liquidity_of,
    payout_at_odds, percent_of_profit, sides_with_bet,
};
use crate::state::{
    is_resolved, outcome_of_code, AccountKey, Bet, BetType, BetVerdict, BettingPoolState, BustBet,
    Market, MarketOutcome, MarketSide, Multiplier, SolBust,
};

verus! {

/// The operations of the exchange on its ledgers. Each one checks everything
/// before it writes, so that on an error the ledgers it was handed are left
/// as they were.
pub struct Processor;

/// A wager as the bettor asks for it.
#[derive(Debug, Copy, Clone)]
pub struct BetRequest {
    pub market: AccountKey,
    pub user_usdt_account: AccountKey,
    pub user_main_account: AccountKey,
    pub risk: u64,
    pub points: u16,
    pub market_side: u8,
    pub bet_type: BetType,
}

/// An admitted bet, with the transfers that the caller makes for it: the
/// stake (`bet.user_risk`) from the bettor into custody, and the change of
/// the market's lock between the reserve and custody.
#[derive(Debug, Copy, Clone)]
pub struct BetPlacement {
    pub bet: Bet,
    /// Moved from the reserve into custody when the lock grows.
    pub reserve_to_custody: u64,
    /// Moved from custody back to the reserve when the lock shrinks.
    pub custody_to_reserve: u64,
}

/// The market lock once a bet with `payout` is admitted: for a money-line
/// bet the stored lock moves by the change of the worst-case loss; any other
/// bet adds its payout.
pub open spec fn lock_after_bet(m: Market, req: BetRequest, payout: int) -> int {
    if req.bet_type == BetType::MoneyLine {
        m.locked_liquidity + locked_liquidity_of(
            sides_with_bet(m.market_sides@, req.market_side as int, req.risk, payout as u64),
        ) - locked_liquidity_of(m.market_sides@)
    } else {
        m.locked_liquidity + payout
    }
}

/// Every sum and difference of the lock update stays within `u64`.
pub open spec fn lock_update_fits(m: Market, req: BetRequest, payout: int) -> bool {
    if req.bet_type == BetType::MoneyLine {
        let i = req.market_side as int;
        let sides = m.market_sides@;
        &&& lock_computable(sides)
        &&& sides[i].risk + req.risk <= u64::MAX
        &&& sides[i].payout + payout <= u64::MAX
        &&& lock_computable(sides_with_bet(sides, i, req.risk, payout as u64))
        &&& m.locked_liquidity + locked_liquidity_of(
            sides_with_bet(sides, i, req.risk, payout as u64),
        ) <= u64::MAX
        &&& lock_after_bet(m, req, payout) >= 0
    } else {
        m.locked_liquidity + payout <= u64::MAX
    }
}

/// Which error, if any, a bet placement ends in, in the order the checks
/// are made.
pub open spec fn init_bet_error(
    m: Market,
    p: BettingPoolState,
    req: BetRequest,
    odds: i64,
    available_liquidity: u64,
) -> Option<ExchangeError> {
    let payout = payout_at_odds(odds, req.risk);
    let new_lock = lock_after_bet(m, req, payout);
    if p.frozen_betting {
        Some(ExchangeError::BettingFrozen)
    } else if m.result != MarketOutcome::NotYetCommenced {
        Some(ExchangeError::MarketCommenced)
    } else if req.risk == 0 {
        Some(ExchangeError::BetRiskZero)
    } else if req.market_side > 2 {
        Some(ExchangeError::InvalidInstruction)
    } else if payout > u64::MAX {
        Some(ExchangeError::AmountOverflow)
    } else if payout > available_liquidity {
        Some(ExchangeError::NotEnoughAvailableLiquidityForBet)
    } else if payout == 0 {
        Some(ExchangeError::PayoutZero)
    } else if m.pending_bets + 1 > u64::MAX || p.pending_bets + 1 > u64::MAX {
        Some(ExchangeError::AmountOverflow)
    } else if !lock_update_fits(m, req, payout) {
        Some(ExchangeError::AmountOverflow)
    } else if p.locked_liquidity < m.locked_liquidity {
        Some(ExchangeError::AmountOverflow)
    } else if p.locked_liquidity - m.locked_liquidity + new_lock > u64::MAX {
        Some(ExchangeError::AmountOverflow)
    } else if m.bettor_balance + req.risk + new_lock > u64::MAX || m.bettor_balance + req.risk
        + new_lock < m.locked_liquidity {
        Some(ExchangeError::AmountOverflow)
    } else {
        None
    }
}

/// What settling a bet pays out: its verdict, and what the caller moves from
/// custody to the bettor (stake and payout for a winner, nothing otherwise).
#[derive(Debug, Copy, Clone)]
pub struct BetSettlement {
    pub verdict: BetVerdict,
    pub winnings: u64,
}

/// The sides of a market once a winning money-line bet of `risk` and
/// `payout` on side `side` is taken back out.
pub open spec fn sides_without_bet(sides: Seq<MarketSide>, side: int, risk: u64, payout: u64) -> Seq<
    MarketSide,
> {
    sides.update(
        side,
        MarketSide {
            risk: (sides[side].risk - risk) as u64,
            payout: (sides[side].payout - payout) as u64,
            ..sides[side]
        },
    )
}

/// Which error, if any, settling `b` against market `m` ends in, in the order
/// the checks are made.
pub open spec fn settle_bet_error(
    m: Market,
    p: BettingPoolState,
    b: Bet,
    market_key: AccountKey,
    user_usdt_account: AccountKey,
    user_main_account: AccountKey,
) -> Option<ExchangeError> {
    let won = bet_outcome(b, m) == BetVerdict::Won;
    let i = b.user_market_side as int;
    if b.market.bytes@ != market_key.bytes@ {
        Some(ExchangeError::ExpectedDataMismatch)
    } else if !is_resolved(m.result) {
        Some(ExchangeError::MarketNotSettled)
    } else if b.user_usdt_account.bytes@ != user_usdt_account.bytes@
        || b.user_main_account.bytes@ != user_main_account.bytes@ {
        Some(ExchangeError::ExpectedDataMismatch)
    } else if b.outcome != BetVerdict::Unsettled {
        Some(ExchangeError::BetAlreadySettled)
    } else if m.pending_bets == 0 || p.pending_bets == 0 {
        Some(ExchangeError::AmountOverflow)
    } else if won && (b.user_risk + b.user_payout > u64::MAX || m.bettor_balance < b.user_risk
        + b.user_payout) {
        Some(ExchangeError::AmountOverflow)
    } else if won && b.bet_type == BetType::MoneyLine && m.market_sides@[i].risk < b.user_risk {
        Some(ExchangeError::MarketSideRiskUnderflow)
    } else if won && b.bet_type == BetType::MoneyLine && m.market_sides@[i].payout
        < b.user_payout {
        Some(ExchangeError::MarketSidePayoutUnderflow)
    } else {
        None
    }
}

/// The transfers out of custody that close a market's books.
#[derive(Debug, Copy, Clone)]
pub struct PnlSettlement {
    /// Returned to the reserve.
    pub to_reserve: u64,
    /// Paid to the insurance fund.
    pub to_insurance: u64,
    /// Paid to the platform's proceeds account.
    pub to_foundation: u64,
}

/// The shares of a house profit, per hundred.
pub const INSURANCE_FEE_PERCENT: u64 = 1;

pub const FOUNDATION_FEE_PERCENT: u64 = 5;

/// Which error, if any, closing the books of `m` ends in.
pub open spec fn settle_pnl_error(m: Market, p: BettingPoolState) -> Option<ExchangeError> {
    if !is_resolved(m.result) {
        Some(ExchangeError::NotValidMarketResult)
    } else if m.pending_bets != 0 {
        Some(ExchangeError::MarketSideRiskRemaining)
    } else if p.live_liquidity < m.locked_liquidity {
        Some(ExchangeError::AmountOverflow)
    } else {
        None
    }
}

/// The split of what custody holds for a settled market. Where the lock
/// covers the custody balance, the house lost or broke even and the whole
/// balance goes back to the reserve. Otherwise the excess is profit: one
/// hundredth goes to the insurance fund and five to the platform, each
/// rounded down, and the reserve gets the rest of the balance: the lock and
/// the remaining ninety-four hundredths of the profit, rounding included.
pub open spec fn pnl_split(m: Market) -> PnlSettlement {
    if m.locked_liquidity >= m.bettor_balance {
        PnlSettlement { to_reserve: m.bettor_balance, to_insurance: 0, to_foundation: 0 }
    } else {
        let profit = (m.bettor_balance - m.locked_liquidity) as u64;
        let to_insurance = fraction_of(profit, INSURANCE_FEE_PERCENT, 100);
        let to_foundation = fraction_of(profit, FOUNDATION_FEE_PERCENT, 100);
        PnlSettlement {
            to_reserve: (m.bettor_balance - to_insurance - to_foundation) as u64,
            to_insurance: to_insurance as u64,
            to_foundation: to_foundation as u64,
        }
    }
}

/// Which error, if any, recording a result on `m` ends in.
pub open spec fn settle_market_error(
    m: Market,
    result_account: AccountKey,
    result_code: u8,
    team_a_score: u16,
    team_b_score: u16,
) -> Option<ExchangeError> {
    if result_account.bytes@ != m.result_feed.bytes@ {
        Some(ExchangeError::NotValidAuthority)
    } else if m.result != MarketOutcome::Commenced {
        Some(ExchangeError::MarketAlreadySettled)
    } else if result_code > 2 {
        Some(ExchangeError::NotValidMarketResult)
    } else if team_a_score + team_b_score > u16::MAX {
        Some(ExchangeError::AmountOverflow)
    } else {
        None
    }
}

/// Which error, if any, commencing `m` ends in.
pub open spec fn commence_error(m: Market, p: BettingPoolState) -> Option<ExchangeError> {
    if m.result != MarketOutcome::NotYetCommenced {
        Some(ExchangeError::MarketCommenced)
    } else if p.locked_liquidity < m.locked_liquidity || p.live_liquidity + m.locked_liquidity
        > u64::MAX {
        Some(ExchangeError::AmountOverflow)
    } else {
        None
    }
}

/// A market as it is opened: no exposure, no lock, no bets, not commenced.
pub open spec fn fresh_market(
    m: Market,
    result_feed: AccountKey,
    odds_feeds: [AccountKey; 3],
    points_feeds: [AccountKey; 2],
) -> bool {
    &&& m.is_initialized
    &&& m.locked_liquidity == 0
    &&& m.result_feed == result_feed
    &&& m.result == MarketOutcome::NotYetCommenced
    &&& m.bettor_balance == 0
    &&& m.pending_bets == 0
    &&& m.team_a_score == 0
    &&& m.team_b_score == 0
    &&& m.total_score == 0
    &&& m.market_sides@.len() == 3
    &&& forall|i: int|
        0 <= i < 3 ==> (#[trigger] m.market_sides@[i]).risk == 0 && m.market_sides@[i].payout
            == 0 && m.market_sides@[i].odds_feed_account == Some(odds_feeds@[i])
    &&& m.market_sides@[0].points_feed_account == Some(points_feeds@[0])
    &&& m.market_sides@[1].points_feed_account == Some(points_feeds@[1])
    &&& m.market_sides@[2].points_feed_account.is_none()
}

/// The market's stored lock is the worst-case loss of its sides.
pub open spec fn lock_consistent(m: Market) -> bool {
    m.locked_liquidity == locked_liquidity_of(m.market_sides@)
}

/// Settling a winning money-line bet takes back out of its side exactly what
/// placing it put in: the side's stake and payout totals return to their
/// values before the bet.
pub proof fn lemma_win_restores_side(sides: Seq<MarketSide>, side: int, risk: u64, payout: u64)
    requires
        0 <= side < sides.len(),
        sides[side].risk + risk <= u64::MAX,
        sides[side].payout + payout <= u64::MAX,
    ensures
        sides_without_bet(sides_with_bet(sides, side, risk, payout), side, risk, payout) == sides,
{
    assert(sides_without_bet(sides_with_bet(sides, side, risk, payout), side, risk, payout)
        =~= sides);
}

impl Processor {
    /// Admits a bet of `request.risk` at the quoted `odds` against a market
    /// that has not commenced, while `available_liquidity` is the reserve's
    /// free balance.
    ///
    /// The payout is `payout_at_odds(odds, risk)`. A money-line bet adds its
    /// stake and payout to its side, and the market's lock moves by the
    /// change of the worst-case loss; any other bet adds its payout to the
    /// lock. The pool's lock moves with the market's, both pending-bet
    /// counters grow by one, and the market's custody balance grows by the
    /// stake and the change of the lock.
    pub fn process_init_bet(
        market_state: &mut Market,
        pool_state: &mut BettingPoolState,
        request: &BetRequest,
        odds: i64,
        available_liquidity: u64,
    ) -> (r: Result<BetPlacement, ExchangeError>)
        ensures
            ({
                let m = *old(market_state);
                let p = *old(pool_state);
                let req = *request;
                let payout = payout_at_odds(odds, req.risk);
                let new_lock = lock_after_bet(m, req, payout);
                match init_bet_error(m, p, req, odds, available_liquidity) {
                    Some(e) => {
                        &&& r == Err::<BetPlacement, ExchangeError>(e)
                        &&& *final(market_state) == m
                        &&& *final(pool_state) == p
                    },
                    None => {
                        &&& r.is_ok()
                        &&& r.unwrap().bet == (Bet {
                            is_initialized: true,
                            market: req.market,
                            user_usdt_account: req.user_usdt_account,
                            user_main_account: req.user_main_account,
                            user_risk: req.risk,
                            user_payout: payout as u64,
                            points: req.points,
                            user_market_side: req.market_side,
                            outcome: BetVerdict::Unsettled,
                            bet_type: req.bet_type,
                        })
                        &&& r.unwrap().reserve_to_custody == if new_lock > m.locked_liquidity {
                            new_lock - m.locked_liquidity
                        } else {
                            0
                        }
                        &&& r.unwrap().custody_to_reserve == if new_lock > m.locked_liquidity {
                            0
                        } else {
                            m.locked_liquidity - new_lock
                        }
                        &&& final(market_state).market_sides@ == if req.bet_type
                            == BetType::MoneyLine {
                            sides_with_bet(m.market_sides@, req.market_side as int, req.risk, payout as u64)
                        } else {
                            m.market_sides@
                        }
                        &&& final(market_state).locked_liquidity == new_lock
                        &&& final(market_state).bettor_balance == m.bettor_balance + req.risk
                            + new_lock - m.locked_liquidity
                        &&& final(market_state).pending_bets == m.pending_bets + 1
                        &&& final(market_state).is_initialized == m.is_initialized
                        &&& final(market_state).result_feed == m.result_feed
                        &&& final(market_state).result == m.result
                        &&& final(market_state).team_a_score == m.team_a_score
                        &&& final(market_state).team_b_score == m.team_b_score
                        &&& final(market_state).total_score == m.total_score
                        &&& final(pool_state).locked_liquidity == p.locked_liquidity
                            - m.locked_liquidity + new_lock
                        &&& final(pool_state).pending_bets == p.pending_bets + 1
                        // The two counters move together.
                        &&& final(pool_state).pending_bets - final(market_state).pending_bets
                            == p.pending_bets - m.pending_bets
                        &&& *final(pool_state) == (BettingPoolState {
                            locked_liquidity: final(pool_state).locked_liquidity,
                            pending_bets: final(pool_state).pending_bets,
                            ..p
                        })
                        // The pool reserves exactly what moves out of the reserve, and never
                        // more than the reserve's free balance.
                        &&& final(pool_state).locked_liquidity + r.unwrap().custody_to_reserve
                            == p.locked_liquidity + r.unwrap().reserve_to_custody
                        &&& r.unwrap().reserve_to_custody <= available_liquidity
                        // A market whose lock matched its sides still does after a money-line bet.
                        &&& (req.bet_type == BetType::MoneyLine && lock_consistent(m))
                            ==> lock_consistent(*final(market_state))
                    },
                }
            }),
    {
        let risk = request.risk;
        if pool_state.frozen_betting {
            return Err(ExchangeError::BettingFrozen);
        }
        if market_state.result != MarketOutcome::NotYetCommenced {
            return Err(ExchangeError::MarketCommenced);
        }
        if risk == 0 {
            return Err(ExchangeError::BetRiskZero);
        }
        if request.market_side > 2 {
            return Err(ExchangeError::InvalidInstruction);
        }
        let payout = match calculate_payout(odds, risk) {
            Some(v) => v,
            None => return Err(ExchangeError::AmountOverflow),
        };
        if payout > available_liquidity {
            return Err(ExchangeError::NotEnoughAvailableLiquidityForBet);
        }
        if payout == 0 {
            return Err(ExchangeError::PayoutZero);
        }
        let market_pending = match market_state.pending_bets.checked_add(1) {
            Some(v) => v,
            None => return Err(ExchangeError::AmountOverflow),
        };
        let pool_pending = match pool_state.pending_bets.checked_add(1) {
            Some(v) => v,
            None => return Err(ExchangeError::AmountOverflow),
        };

        let current_locked_liquidity = market_state.locked_liquidity;
        let mut market = *market_state;
        let new_locked_liquidity: u64;
        if request.bet_type == BetType::MoneyLine {
            let i = request.market_side as usize;
            let old_locked_liquidity = calculate_locked_liquidity(&market)?;
            let side = market.market_sides[i];
            let side_risk = match side.risk.checked_add(risk) {
                Some(v) => v,
                None => return Err(ExchangeError::AmountOverflow),
            };
            let side_payout = match side.payout.checked_add(payout) {
                Some(v) => v,
                None => return Err(ExchangeError::AmountOverflow),
            };
            market.market_sides[i] = MarketSide { risk: side_risk, payout: side_payout, ..side };
            assert(market.market_sides@ =~= sides_with_bet(
                market_state.market_sides@,
                i as int,
                risk,
                payout,
            ));
            proof {
                lemma_lock_rise_bounded(market_state.market_sides@, i as int, risk, payout);
            }
            let new_moneyline_locked_liquidity = calculate_locked_liquidity(&market)?;
            let raised = match current_locked_liquidity.checked_add(new_moneyline_locked_liquidity) {
                Some(v) => v,
                None => return Err(ExchangeError::AmountOverflow),
            };
            new_locked_liquidity = match raised.checked_sub(old_locked_liquidity) {
                Some(v) => v,
                None => return Err(ExchangeError::AmountOverflow),
            };
        } else {
            new_locked_liquidity = match current_locked_liquidity.checked_add(payout) {
                Some(v) => v,
                None => return Err(ExchangeError::AmountOverflow),
            };
        }
        let released = match pool_state.locked_liquidity.checked_sub(current_locked_liquidity) {
            Some(v) => v,
            None => return Err(ExchangeError::AmountOverflow),
        };
        let pool_locked = match released.checked_add(new_locked_liquidity) {
            Some(v) => v,
            None => return Err(ExchangeError::AmountOverflow),
        };
        let staked = match market.bettor_balance.checked_add(risk) {
            Some(v) => v,
            None => return Err(ExchangeError::AmountOverflow),
        };
        let staked = match staked.checked_add(new_locked_liquidity) {
            Some(v) => v,
            None => return Err(ExchangeError::AmountOverflow),
        };
        let bettor_balance = match staked.checked_sub(current_locked_liquidity) {
            Some(v) => v,
            None => return Err(ExchangeError::AmountOverflow),
        };

        let (reserve_to_custody, custody_to_reserve) = if new_locked_liquidity
            > current_locked_liquidity {
            (new_locked_liquidity - current_locked_liquidity, 0)
        } else {
            (0, current_locked_liquidity - new_locked_liquidity)
        };
        market.locked_liquidity = new_locked_liquidity;
        market.pending_bets = market_pending;
        market.bettor_balance = bettor_balance;
        *market_state = market;
        pool_state.locked_liquidity = pool_locked;
        pool_state.pending_bets = pool_pending;
        let bet = Bet {
            is_initialized: true,
            market: request.market,
            user_usdt_account: request.user_usdt_account,
            user_main_account: request.user_main_account,
            user_risk: risk,
            user_payout: payout,
            points: request.points,
            user_market_side: request.market_side,
            outcome: BetVerdict::Unsettled,
            bet_type: request.bet_type,
        };
        Ok(BetPlacement { bet, reserve_to_custody, custody_to_reserve })
    }

    /// Settles one bet of a market that holds a result.
    ///
    /// The bet must belong to `market_key` and to the bettor's two accounts,
    /// and must not be settled yet. Both pending-bet counters fall by one and
    /// the bet takes its verdict. A winner is owed its stake and payout,
    /// which leave the market's custody balance; a winning money-line bet
    /// also leaves its side. Losers and pushes move nothing.
    pub fn process_settle_bet(
        market_state: &mut Market,
        pool_state: &mut BettingPoolState,
        bet_state: &mut Bet,
        market_key: &AccountKey,
        user_usdt_account: &AccountKey,
        user_main_account: &AccountKey,
    ) -> (r: Result<BetSettlement, ExchangeError>)
        ensures
            ({
                let m = *old(market_state);
                let p = *old(pool_state);
                let b = *old(bet_state);
                let verdict = bet_outcome(b, m);
                let won = verdict == BetVerdict::Won;
                let i = b.user_market_side as int;
                match settle_bet_error(
                    m,
                    p,
                    b,
                    *market_key,
                    *user_usdt_account,
                    *user_main_account,
                ) {
                    Some(e) => {
                        &&& r == Err::<BetSettlement, ExchangeError>(e)
                        &&& *final(market_state) == m
                        &&& *final(pool_state) == p
                        &&& *final(bet_state) == b
                    },
                    None => {
                        &&& r == Ok::<BetSettlement, ExchangeError>(
                            BetSettlement {
                                verdict,
                                winnings: if won {
                                    (b.user_risk + b.user_payout) as u64
                                } else {
                                    0
                                },
                            },
                        )
                        &&& *final(bet_state) == (Bet { outcome: verdict, ..b })
                        &&& final(market_state).pending_bets == m.pending_bets - 1
                        &&& final(pool_state).pending_bets == p.pending_bets - 1
                        // The two counters move together.
                        &&& final(pool_state).pending_bets - final(market_state).pending_bets
                            == p.pending_bets - m.pending_bets
                        &&& *final(pool_state) == (BettingPoolState {
                            pending_bets: final(pool_state).pending_bets,
                            ..p
                        })
                        &&& final(market_state).bettor_balance == if won {
                            m.bettor_balance - b.user_risk - b.user_payout
                        } else {
                            m.bettor_balance as int
                        }
                        &&& final(market_state).market_sides@ == if won && b.bet_type
                            == BetType::MoneyLine {
                            sides_without_bet(m.market_sides@, i, b.user_risk, b.user_payout)
                        } else {
                            m.market_sides@
                        }
                        &&& final(market_state).locked_liquidity == m.locked_liquidity
                        &&& final(market_state).is_initialized == m.is_initialized
                        &&& final(market_state).result_feed == m.result_feed
                        &&& final(market_state).result == m.result
                        &&& final(market_state).team_a_score == m.team_a_score
                        &&& final(market_state).team_b_score == m.team_b_score
                        &&& final(market_state).total_score == m.total_score
                    },
                }
            }),
    {
        if bet_state.market != *market_key {
            return Err(ExchangeError::ExpectedDataMismatch);
        }
        let verdict = get_bet_outcome(bet_state, market_state)?;
        if bet_state.user_usdt_account != *user_usdt_account {
            return Err(ExchangeError::ExpectedDataMismatch);
        }
        if bet_state.user_main_account != *user_main_account {
            return Err(ExchangeError::ExpectedDataMismatch);
        }
        if bet_state.outcome != BetVerdict::Unsettled {
            return Err(ExchangeError::BetAlreadySettled);
        }
        let market_pending = match market_state.pending_bets.checked_sub(1) {
            Some(v) => v,
            None => return Err(ExchangeError::AmountOverflow),
        };
        let pool_pending = match pool_state.pending_bets.checked_sub(1) {
            Some(v) => v,
            None => return Err(ExchangeError::AmountOverflow),
        };
        let mut market = *market_state;
        let mut winnings: u64 = 0;
        if verdict == BetVerdict::Won {
            let bet_balance = match bet_state.user_risk.checked_add(bet_state.user_payout) {
                Some(v) => v,
                None => return Err(ExchangeError::AmountOverflow),
            };
            market.bettor_balance = match market.bettor_balance.checked_sub(bet_balance) {
                Some(v) => v,
                None => return Err(ExchangeError::AmountOverflow),
            };
            if bet_state.bet_type == BetType::MoneyLine {
                // A winning money-line bet is on the winning side, so its side is 0, 1 or 2.
                let i = bet_state.user_market_side as usize;
                let side = market.market_sides[i];
                let side_risk = match side.risk.checked_sub(bet_state.user_risk) {
                    Some(v) => v,
                    None => return Err(ExchangeError::MarketSideRiskUnderflow),
                };
                let side_payout = match side.payout.checked_sub(bet_state.user_payout) {
                    Some(v) => v,
                    None => return Err(ExchangeError::MarketSidePayoutUnderflow),
                };
                market.market_sides[i] = MarketSide {
                    risk: side_risk,
                    payout: side_payout,
                    ..side
                };
                assert(market.market_sides@ =~= sides_without_bet(
                    market_state.market_sides@,
                    i as int,
                    bet_state.user_risk,
                    bet_state.user_payout,
                ));
            }
            winnings = bet_balance;
        }
        market.pending_bets = market_pending;
        *market_state = market;
        pool_state.pending_bets = pool_pending;
        bet_state.outcome = verdict;
        Ok(BetSettlement { verdict, winnings })
    }

    /// Closes the books of a market whose bets are all settled.
    ///
    /// Returns the transfers out of custody given by `pnl_split`, moves the
    /// market's lock out of the pool's live liquidity, and marks the market
    /// `Settled`. A market with bets still open is refused with
    /// `MarketSideRiskRemaining`.
    pub fn process_settle_pnl(market_state: &mut Market, pool_state: &mut BettingPoolState) -> (r:
        Result<PnlSettlement, ExchangeError>)
        ensures
            match settle_pnl_error(*old(market_state), *old(pool_state)) {
                Some(e) => {
                    &&& r == Err::<PnlSettlement, ExchangeError>(e)
                    &&& *final(market_state) == *old(market_state)
                    &&& *final(pool_state) == *old(pool_state)
                },
                None => {
                    &&& r == Ok::<PnlSettlement, ExchangeError>(pnl_split(*old(market_state)))
                    // Everything custody holds for the market is paid out, to the unit.
                    &&& r.unwrap().to_reserve + r.unwrap().to_insurance + r.unwrap().to_foundation
                        == old(market_state).bettor_balance
                    &&& *final(market_state) == (Market {
                        result: MarketOutcome::Settled,
                        ..*old(market_state)
                    })
                    &&& *final(pool_state) == (BettingPoolState {
                        live_liquidity: (old(pool_state).live_liquidity
                            - old(market_state).locked_liquidity) as u64,
                        ..*old(pool_state)
                    })
                },
            },
    {
        if !market_state.result.is_resolved() {
            return Err(ExchangeError::NotValidMarketResult);
        }
        if market_state.pending_bets != 0 {
            return Err(ExchangeError::MarketSideRiskRemaining);
        }
        let locked = market_state.locked_liquidity;
        let balance = market_state.bettor_balance;
        let split = if locked >= balance {
            PnlSettlement { to_reserve: balance, to_insurance: 0, to_foundation: 0 }
        } else {
            let profit = balance - locked;
            let to_insurance = percent_of_profit(profit, INSURANCE_FEE_PERCENT);
            let to_foundation = percent_of_profit(profit, FOUNDATION_FEE_PERCENT);
            assert(to_insurance + to_foundation <= profit) by (nonlinear_arith)
                requires
                    to_insurance == profit * 1 / 100,
                    to_foundation == profit * 5 / 100,
            ;
            let to_reserve = balance - to_insurance - to_foundation;
            PnlSettlement { to_reserve, to_insurance, to_foundation }
        };
        let live = match pool_state.live_liquidity.checked_sub(locked) {
            Some(v) => v,
            None => return Err(ExchangeError::AmountOverflow),
        };
        pool_state.live_liquidity = live;
        market_state.result = MarketOutcome::Settled;
        Ok(split)
    }

    /// Records the final result of a commenced market, as read from its
    /// result feed `result_account`: the winning side `result_code` (0, 1 or
    /// 2) and both teams' scores, whose sum is the total score.
    pub fn process_settle_market(
        market_state: &mut Market,
        result_account: &AccountKey,
        result_code: u8,
        team_a_score: u16,
        team_b_score: u16,
    ) -> (r: Result<(), ExchangeError>)
        ensures
            match settle_market_error(
                *old(market_state),
                *result_account,
                result_code,
                team_a_score,
                team_b_score,
            ) {
                Some(e) => {
                    &&& r == Err::<(), ExchangeError>(e)
                    &&& *final(market_state) == *old(market_state)
                },
                None => {
                    &&& r == Ok::<(), ExchangeError>(())
                    &&& outcome_of_code(result_code) == Some(final(market_state).result)
                    &&& *final(market_state) == (Market {
                        result: final(market_state).result,
                        team_a_score,
                        team_b_score,
                        total_score: (team_a_score + team_b_score) as u16,
                        ..*old(market_state)
                    })
                    &&& lock_consistent(*old(market_state)) ==> lock_consistent(
                        *final(market_state),
                    )
                },
            },
    {
        if *result_account != market_state.result_feed {
            return Err(ExchangeError::NotValidAuthority);
        }
        if market_state.result != MarketOutcome::Commenced {
            return Err(ExchangeError::MarketAlreadySettled);
        }
        let result = match result_code {
            0 => MarketOutcome::MarketSide0Won,
            1 => MarketOutcome::MarketSide1Won,
            2 => MarketOutcome::MarketSide2Won,
            _ => return Err(ExchangeError::NotValidMarketResult),
        };
        let total_score = match team_a_score.checked_add(team_b_score) {
            Some(v) => v,
            None => return Err(ExchangeError::AmountOverflow),
        };
        market_state.result = result;
        market_state.team_a_score = team_a_score;
        market_state.team_b_score = team_b_score;
        market_state.total_score = total_score;
        Ok(())
    }

    /// Starts play on a market: its lock moves from the pool's locked
    /// liquidity to its live liquidity, and the market becomes `Commenced`.
    pub fn process_commence_market(market_state: &mut Market, pool_state: &mut BettingPoolState) -> (r:
        Result<(), ExchangeError>)
        ensures
            match commence_error(*old(market_state), *old(pool_state)) {
                Some(e) => {
                    &&& r == Err::<(), ExchangeError>(e)
                    &&& *final(market_state) == *old(market_state)
                    &&& *final(pool_state) == *old(pool_state)
                },
                None => {
                    &&& r == Ok::<(), ExchangeError>(())
                    &&& *final(market_state) == (Market {
                        result: MarketOutcome::Commenced,
                        ..*old(market_state)
                    })
                    &&& lock_consistent(*old(market_state)) ==> lock_consistent(
                        *final(market_state),
                    )
                    &&& final(pool_state).locked_liquidity == old(pool_state).locked_liquidity
                        - old(market_state).locked_liquidity
                    &&& final(pool_state).live_liquidity == old(pool_state).live_liquidity
                        + old(market_state).locked_liquidity
                    &&& *final(pool_state) == (BettingPoolState {
                        locked_liquidity: final(pool_state).locked_liquidity,
                        live_liquidity: final(pool_state).live_liquidity,
                        ..*old(pool_state)
                    })
                },
            },
    {
        if market_state.result != MarketOutcome::NotYetCommenced {
            return Err(ExchangeError::MarketCommenced);
        }
        let locked = match pool_state.locked_liquidity.checked_sub(market_state.locked_liquidity) {
            Some(v) => v,
            None => return Err(ExchangeError::AmountOverflow),
        };
        let live = match pool_state.live_liquidity.checked_add(market_state.locked_liquidity) {
            Some(v) => v,
            None => return Err(ExchangeError::AmountOverflow),
        };
        pool_state.locked_liquidity = locked;
        pool_state.live_liquidity = live;
        market_state.result = MarketOutcome::Commenced;
        Ok(())
    }

    /// Stops (`true`) or resumes (`false`) the intake of new bets.
    pub fn process_freeze(pool_state: &mut BettingPoolState, freeze_betting: bool)
        ensures
            *final(pool_state) == (BettingPoolState {
                frozen_betting: freeze_betting,
                ..*old(pool_state)
            }),
    {
        pool_state.frozen_betting = freeze_betting;
    }

    /// Opens a market on `market_state`, which must not hold one yet, while
    /// betting is not frozen.
    pub fn process_init_market(
        market_state: &mut Market,
        pool_state: &BettingPoolState,
        result_feed: &AccountKey,
        odds_feeds: &[AccountKey; 3],
        points_feeds: &[AccountKey; 2],
    ) -> (r: Result<(), ExchangeError>)
        ensures
            pool_state.frozen_betting ==> r == Err::<(), ExchangeError>(
                ExchangeError::BettingFrozen,
            ),
            !pool_state.frozen_betting && old(market_state).is_initialized ==> r == Err::<
                (),
                ExchangeError,
            >(ExchangeError::MarketAlreadyInitialized),
            r.is_err() ==> *final(market_state) == *old(market_state),
            !pool_state.frozen_betting && !old(market_state).is_initialized ==> {
                &&& r == Ok::<(), ExchangeError>(())
                &&& fresh_market(*final(market_state), *result_feed, *odds_feeds, *points_feeds)
                &&& lock_consistent(*final(market_state))
            },
    {
        if pool_state.frozen_betting {
            return Err(ExchangeError::BettingFrozen);
        }
        if market_state.is_initialized {
            return Err(ExchangeError::MarketAlreadyInitialized);
        }
        let market_sides = [
            MarketSide {
                odds_feed_account: Some(odds_feeds[0]),
                points_feed_account: Some(points_feeds[0]),
                payout: 0,
                risk: 0,
            },
            MarketSide {
                odds_feed_account: Some(odds_feeds[1]),
                points_feed_account: Some(points_feeds[1]),
                payout: 0,
                risk: 0,
            },
            MarketSide {
                odds_feed_account: Some(odds_feeds[2]),
                points_feed_account: None,
                payout: 0,
                risk: 0,
            },
        ];
        *market_state = Market {
            is_initialized: true,
            market_sides,
            locked_liquidity: 0,
            result_feed: *result_feed,
            result: MarketOutcome::NotYetCommenced,
            bettor_balance: 0,
            pending_bets: 0,
            team_a_score: 0,
            team_b_score: 0,
            total_score: 0,
        };
        Ok(())
    }

    /// Opens a futures market; it is laid out as any other market.
    pub fn process_init_futures_market(
        market_state: &mut Market,
        pool_state: &BettingPoolState,
        result_feed: &AccountKey,
        odds_feeds: &[AccountKey; 3],
        points_feeds: &[AccountKey; 2],
    ) -> (r: Result<(), ExchangeError>)
        ensures
            pool_state.frozen_betting ==> r == Err::<(), ExchangeError>(
                ExchangeError::BettingFrozen,
            ),
            !pool_state.frozen_betting && old(market_state).is_initialized ==> r == Err::<
                (),
                ExchangeError,
            >(ExchangeError::MarketAlreadyInitialized),
            r.is_err() ==> *final(market_state) == *old(market_state),
            !pool_state.frozen_betting && !old(market_state).is_initialized ==> {
                &&& r == Ok::<(), ExchangeError>(())
                &&& fresh_market(*final(market_state), *result_feed, *odds_feeds, *points_feeds)
                &&& lock_consistent(*final(market_state))
            },
    {
        Self::process_init_market(market_state, pool_state, result_feed, odds_feeds, points_feeds)
    }

    /// Sets up the pool ledger on `pool_state`, which must not hold one yet,
    /// with the four token accounts it works with.
    pub fn process_ownership(
        pool_state: &mut BettingPoolState,
        house_pool_usdt: &AccountKey,
        betting_pool_usdt: &AccountKey,
        insurance_fund_usdt: &AccountKey,
        divvy_foundation_proceeds_usdt: &AccountKey,
    ) -> (r: Result<(), ExchangeError>)
        ensures
            old(pool_state).is_initialized ==> {
                &&& r == Err::<(), ExchangeError>(
                    ExchangeError::BettingPoolStateAlreadyInitialized,
                )
                &&& *final(pool_state) == *old(pool_state)
            },
            !old(pool_state).is_initialized ==> {
                &&& r == Ok::<(), ExchangeError>(())
                &&& *final(pool_state) == (BettingPoolState {
                    is_initialized: true,
                    locked_liquidity: 0,
                    live_liquidity: 0,
                    pending_bets: 0,
                    house_pool_usdt: *house_pool_usdt,
                    betting_pool_usdt: *betting_pool_usdt,
                    insurance_fund_usdt: *insurance_fund_usdt,
                    divvy_foundation_proceeds_usdt: *divvy_foundation_proceeds_usdt,
                    frozen_betting: false,
                })
            },
    {
        if pool_state.is_initialized {
            return Err(ExchangeError::BettingPoolStateAlreadyInitialized);
        }
        *pool_state = BettingPoolState {
            is_initialized: true,
            locked_liquidity: 0,
            live_liquidity: 0,
            pending_bets: 0,
            house_pool_usdt: *house_pool_usdt,
            betting_pool_usdt: *betting_pool_usdt,
            insurance_fund_usdt: *insurance_fund_usdt,
            divvy_foundation_proceeds_usdt: *divvy_foundation_proceeds_usdt,
            frozen_betting: false,
        };
        Ok(())
    }

    /// Ends the current crash-game round at `multiplier` and starts a new
    /// one: the ended round, stored at `previous_multiplier_key`, is marked
    /// busted with its final multiplier; the game now points at the new
    /// round `current_multiplier_key` and remembers the ended round's
    /// multiplier. Returns the new round, at zero with no bets.
    pub fn process_init_new_bust(
        bust_state: &mut SolBust,
        previous_mul_state: &mut Multiplier,
        current_multiplier_key: &AccountKey,
        previous_multiplier_key: &AccountKey,
        multiplier: u32,
    ) -> (r: Multiplier)
        ensures
            r == (Multiplier { multiplier: 0, counter: 0, busted: false }),
            *final(previous_mul_state) == (Multiplier {
                multiplier,
                busted: true,
                ..*old(previous_mul_state)
            }),
            final(bust_state).is_initialized == old(bust_state).is_initialized,
            final(bust_state).current_pubkey == *current_multiplier_key,
            final(bust_state).previous_pubkey == *previous_multiplier_key,
            final(bust_state).previous_multiplier == old(bust_state).current_multiplier,
            final(bust_state).current_multiplier == 0,
    {
        previous_mul_state.busted = true;
        previous_mul_state.multiplier = multiplier;
        bust_state.current_pubkey = *current_multiplier_key;
        bust_state.previous_pubkey = *previous_multiplier_key;
        bust_state.previous_multiplier = bust_state.current_multiplier;
        bust_state.current_multiplier = 0;
        Multiplier { multiplier: 0, counter: 0, busted: false }
    }

    /// Takes a crash-game bet of `risk` cashing out at `multiplier` on the
    /// current round, whose bet count grows by one.
    pub fn process_init_bust_bet(
        bust_state: &SolBust,
        multiplier_state: &mut Multiplier,
        user_main_pubkey: &AccountKey,
        user_usdt_pubkey: &AccountKey,
        risk: u16,
        multiplier: u32,
    ) -> (r: Result<BustBet, ExchangeError>)
        ensures
            old(multiplier_state).counter == u64::MAX ==> {
                &&& r == Err::<BustBet, ExchangeError>(ExchangeError::AmountOverflow)
                &&& *final(multiplier_state) == *old(multiplier_state)
            },
            old(multiplier_state).counter < u64::MAX ==> {
                &&& r.is_ok()
                &&& r.unwrap().user_main_pubkey == *user_main_pubkey
                &&& r.unwrap().user_usdt_pubkey == *user_usdt_pubkey
                &&& r.unwrap().risk == risk
                &&& r.unwrap().user_multiplier == multiplier
                &&& r.unwrap().actual_multiplier_pubkey == bust_state.current_pubkey
                &&& *final(multiplier_state) == (Multiplier {
                    counter: (old(multiplier_state).counter + 1) as u64,
                    ..*old(multiplier_state)
                })
            },
    {
        let counter = match multiplier_state.counter.checked_add(1) {
            Some(v) => v,
            None => return Err(ExchangeError::AmountOverflow),
        };
        multiplier_state.counter = counter;
        Ok(
            BustBet {
                user_main_pubkey: *user_main_pubkey,
                user_usdt_pubkey: *user_usdt_pubkey,
                risk,
                user_multiplier: multiplier,
                actual_multiplier_pubkey: bust_state.current_pubkey,
            },
        )
    }

    /// What a crash-game bet pays: where the round reached the bet's
    /// multiplier, `risk * user_multiplier / 100` rounded down; otherwise
    /// nothing (`None`).
    pub fn process_settle_bust_bet(bust_bet_state: &BustBet, multiplier_state: &Multiplier) -> (r:
        Option<u64>)
        ensures
            bust_bet_state.user_multiplier <= multiplier_state.multiplier ==> r == Some(
                (bust_bet_state.risk * bust_bet_state.user_multiplier / 100) as u64,
            ),
            bust_bet_state.user_multiplier > multiplier_state.multiplier ==> r.is_none(),
    {
        if bust_bet_state.user_multiplier <= multiplier_state.multiplier {
            calculate_bust_payout(bust_bet_state.risk, bust_bet_state.user_multiplier)
        } else {
            None
        }
    }
}

} // verus!
