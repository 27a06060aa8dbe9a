use divvy::error::ExchangeError;
use divvy::processor::{BetRequest, Processor};
use divvy::risk::{
    calculate_bust_payout, calculate_locked_liquidity, calculate_payout, get_bet_outcome,
    percent_of_profit,
};
use divvy::state::{
    AccountKey, Bet, BetType, BetVerdict, BettingPoolState, Market, MarketOutcome, MarketSide,
};

fn key(b: u8) -> AccountKey {
    AccountKey { bytes: [b; 32] }
}

fn side(risk: u64, payout: u64) -> MarketSide {
    MarketSide { odds_feed_account: None, points_feed_account: None, payout, risk }
}

fn blank_market() -> Market {
    Market {
        is_initialized: false,
        market_sides: [side(0, 0); 3],
        locked_liquidity: 0,
        result_feed: key(0),
        result: MarketOutcome::NotYetCommenced,
        bettor_balance: 0,
        pending_bets: 0,
        team_a_score: 0,
        team_b_score: 0,
        total_score: 0,
    }
}

fn blank_pool() -> BettingPoolState {
    BettingPoolState {
        is_initialized: false,
        locked_liquidity: 0,
        live_liquidity: 0,
        pending_bets: 0,
        house_pool_usdt: key(0),
        betting_pool_usdt: key(0),
        insurance_fund_usdt: key(0),
        divvy_foundation_proceeds_usdt: key(0),
        frozen_betting: false,
    }
}

fn open_market() -> (Market, BettingPoolState) {
    let mut pool = blank_pool();
    Processor::process_ownership(&mut pool, &key(1), &key(2), &key(3), &key(4)).unwrap();
    let mut market = blank_market();
    Processor::process_init_market(&mut market, &pool, &key(9), &[key(5), key(6), key(7)], &[
        key(10),
        key(11),
    ])
    .unwrap();
    (market, pool)
}

fn request(risk: u64, market_side: u8, bet_type: BetType) -> BetRequest {
    BetRequest {
        market: key(20),
        user_usdt_account: key(21),
        user_main_account: key(22),
        risk,
        points: 0,
        market_side,
        bet_type,
    }
}

fn sides_of(m: &Market) -> Vec<(u64, u64)> {
    m.market_sides.iter().map(|s| (s.risk, s.payout)).collect()
}

#[test]
fn payout_at_positive_and_negative_odds() {
    assert_eq!(calculate_payout(150, 1000), Some(1500));
    assert_eq!(calculate_payout(150, 333), Some(499));
    assert_eq!(calculate_payout(-150, 1000), Some(666));
    assert_eq!(calculate_payout(-150, 150), Some(100));
    assert_eq!(calculate_payout(200, 1000), Some(2000));
    assert_eq!(calculate_payout(0, 1000), Some(0));
    assert_eq!(calculate_payout(i64::MAX, u64::MAX), None);
    assert_eq!(calculate_payout(-1, u64::MAX), None);
}

#[test]
fn placed_money_line_bet_uses_quoted_odds() {
    let (mut market, mut pool) = open_market();
    let placed =
        Processor::process_init_bet(&mut market, &mut pool, &request(1000, 1, BetType::MoneyLine), 150, 1_000_000)
            .unwrap();
    assert_eq!(placed.bet.user_payout, 1500);
    let (mut market, mut pool) = open_market();
    let placed = Processor::process_init_bet(
        &mut market,
        &mut pool,
        &request(1000, 2, BetType::MoneyLine),
        -150,
        1_000_000,
    )
    .unwrap();
    assert_eq!(placed.bet.user_payout, 666);
}

#[test]
fn bust_payout_rounds_down() {
    assert_eq!(calculate_bust_payout(100, 250), Some(250));
    assert_eq!(calculate_bust_payout(3, 150), Some(4));
    assert_eq!(calculate_bust_payout(u16::MAX, u32::MAX), Some(65535u64 * 4294967295 / 100));
}

#[test]
fn lock_is_worst_side_shortfall() {
    let mut m = blank_market();
    assert_eq!(calculate_locked_liquidity(&m), Ok(0));
    m.market_sides = [side(1000, 2000), side(500, 300), side(0, 0)];
    // side 0: 2000 - 500 - 0; side 1: 300 < 1000
    assert_eq!(calculate_locked_liquidity(&m), Ok(1500));
    m.market_sides = [side(1000, 2000), side(500, 3000), side(100, 0)];
    // side 0: 2000 - 600 = 1400; side 1: 3000 - 1100 = 1900
    assert_eq!(calculate_locked_liquidity(&m), Ok(1900));
    m.market_sides = [side(u64::MAX, 0), side(1, 0), side(0, 0)];
    assert_eq!(calculate_locked_liquidity(&m), Err(ExchangeError::AmountOverflow));
}

#[test]
fn zero_payout_is_refused_and_state_kept() {
    let (mut market, mut pool) = open_market();
    Processor::process_init_bet(&mut market, &mut pool, &request(1000, 0, BetType::MoneyLine), 200, 1_000_000)
        .unwrap();
    let market_before = market;
    let pool_before = pool;
    let r = Processor::process_init_bet(&mut market, &mut pool, &request(1, 1, BetType::MoneyLine), 50, 1_000_000);
    assert_eq!(r.unwrap_err(), ExchangeError::PayoutZero);
    assert_eq!(sides_of(&market), sides_of(&market_before));
    assert_eq!(market.locked_liquidity, market_before.locked_liquidity);
    assert_eq!(market.bettor_balance, market_before.bettor_balance);
    assert_eq!(market.pending_bets, market_before.pending_bets);
    assert_eq!(pool.locked_liquidity, pool_before.locked_liquidity);
    assert_eq!(pool.live_liquidity, pool_before.live_liquidity);
    assert_eq!(pool.pending_bets, pool_before.pending_bets);
}

#[test]
fn placement_errors() {
    let (mut market, mut pool) = open_market();
    let ml = request(1000, 0, BetType::MoneyLine);
    assert_eq!(
        Processor::process_init_bet(&mut market, &mut pool, &request(0, 0, BetType::MoneyLine), 200, 10_000)
            .unwrap_err(),
        ExchangeError::BetRiskZero
    );
    assert_eq!(
        Processor::process_init_bet(&mut market, &mut pool, &request(10, 3, BetType::MoneyLine), 200, 10_000)
            .unwrap_err(),
        ExchangeError::InvalidInstruction
    );
    assert_eq!(
        Processor::process_init_bet(&mut market, &mut pool, &ml, 200, 1999).unwrap_err(),
        ExchangeError::NotEnoughAvailableLiquidityForBet
    );
    assert_eq!(
        Processor::process_init_bet(&mut market, &mut pool, &request(u64::MAX, 0, BetType::MoneyLine), 200, u64::MAX)
            .unwrap_err(),
        ExchangeError::AmountOverflow
    );
    Processor::process_freeze(&mut pool, true);
    assert!(pool.frozen_betting);
    assert_eq!(
        Processor::process_init_bet(&mut market, &mut pool, &ml, 200, 10_000).unwrap_err(),
        ExchangeError::BettingFrozen
    );
    Processor::process_freeze(&mut pool, false);
    assert!(!pool.frozen_betting);
    Processor::process_commence_market(&mut market, &mut pool).unwrap();
    assert_eq!(
        Processor::process_init_bet(&mut market, &mut pool, &ml, 200, 10_000).unwrap_err(),
        ExchangeError::MarketCommenced
    );
    assert_eq!(market.pending_bets, 0);
    assert_eq!(pool.pending_bets, 0);
}

#[test]
fn hedged_money_line_bet_releases_lock() {
    let (mut market, mut pool) = open_market();
    let first =
        Processor::process_init_bet(&mut market, &mut pool, &request(1000, 0, BetType::MoneyLine), 200, 1_000_000)
            .unwrap();
    assert_eq!(first.reserve_to_custody, 2000);
    assert_eq!(first.custody_to_reserve, 0);
    let second =
        Processor::process_init_bet(&mut market, &mut pool, &request(1500, 1, BetType::MoneyLine), 100, 1_000_000)
            .unwrap();
    // side 0: 2000 - 1500 = 500; side 1: 1500 - 1000 = 500
    assert_eq!(market.locked_liquidity, 500);
    assert_eq!(second.reserve_to_custody, 0);
    assert_eq!(second.custody_to_reserve, 1500);
    assert_eq!(pool.locked_liquidity, 500);
    assert_eq!(market.bettor_balance, 1000 + 2000 + 1500 - 1500);
    assert_eq!(calculate_locked_liquidity(&market), Ok(market.locked_liquidity));
}

#[test]
fn spread_bet_adds_its_payout_to_the_lock() {
    let (mut market, mut pool) = open_market();
    let mut req = request(100, 0, BetType::Spread);
    req.points = 7;
    let placed = Processor::process_init_bet(&mut market, &mut pool, &req, 300, 1_000_000).unwrap();
    assert_eq!(placed.bet.user_payout, 300);
    assert_eq!(placed.bet.points, 7);
    assert_eq!(market.locked_liquidity, 300);
    assert_eq!(pool.locked_liquidity, 300);
    assert_eq!(sides_of(&market), vec![(0, 0); 3]);
}

#[test]
fn full_market_lifecycle_with_house_loss() {
    let (mut market, mut pool) = open_market();
    assert_eq!(sides_of(&market), vec![(0, 0); 3]);

    // Place one money-line bet at +200.
    let placed =
        Processor::process_init_bet(&mut market, &mut pool, &request(1000, 0, BetType::MoneyLine), 200, 1_000_000)
            .unwrap();
    let mut bet = placed.bet;
    assert_eq!(bet.user_payout, 2000);
    assert_eq!(bet.outcome, BetVerdict::Unsettled);
    assert_eq!(market.locked_liquidity, 2000);
    assert_eq!(pool.locked_liquidity, 2000);
    assert_eq!(placed.reserve_to_custody, 2000);
    assert_eq!(market.bettor_balance, 3000);
    assert_eq!(market.pending_bets, 1);
    assert_eq!(pool.pending_bets, 1);

    // Commence.
    Processor::process_commence_market(&mut market, &mut pool).unwrap();
    assert_eq!(pool.locked_liquidity, 0);
    assert_eq!(pool.live_liquidity, 2000);
    assert_eq!(market.result, MarketOutcome::Commenced);

    // Side 0 wins.
    Processor::process_settle_market(&mut market, &key(9), 0, 3, 1).unwrap();
    assert_eq!(market.result, MarketOutcome::MarketSide0Won);
    assert_eq!(market.total_score, 4);

    let settled =
        Processor::process_settle_bet(&mut market, &mut pool, &mut bet, &key(20), &key(21), &key(22)).unwrap();
    assert_eq!(settled.verdict, BetVerdict::Won);
    assert_eq!(settled.winnings, 3000);
    assert_eq!(bet.outcome, BetVerdict::Won);
    assert_eq!(market.bettor_balance, 0);
    assert_eq!(sides_of(&market), vec![(0, 0); 3]);
    assert_eq!(market.pending_bets, 0);
    assert_eq!(pool.pending_bets, 0);

    // The lock (2000) covers the custody balance (0): it all goes back.
    let pnl = Processor::process_settle_pnl(&mut market, &mut pool).unwrap();
    assert_eq!(pnl.to_reserve, 0);
    assert_eq!(pnl.to_insurance, 0);
    assert_eq!(pnl.to_foundation, 0);
    assert_eq!(pool.live_liquidity, 0);
    assert_eq!(market.result, MarketOutcome::Settled);
}

#[test]
fn settle_pnl_before_bets_settled_on_house_loss_path() {
    // Custody holds 3000 against a lock of 2000 before the winner is paid:
    // closing is refused until every bet is settled.
    let (mut market, mut pool) = open_market();
    let placed =
        Processor::process_init_bet(&mut market, &mut pool, &request(1000, 0, BetType::MoneyLine), 200, 1_000_000)
            .unwrap();
    let mut bet = placed.bet;
    Processor::process_commence_market(&mut market, &mut pool).unwrap();
    Processor::process_settle_market(&mut market, &key(9), 0, 1, 0).unwrap();
    assert!(market.locked_liquidity < market.bettor_balance);
    assert_eq!(
        Processor::process_settle_pnl(&mut market, &mut pool).unwrap_err(),
        ExchangeError::MarketSideRiskRemaining
    );
    let before = market.bettor_balance;
    Processor::process_settle_bet(&mut market, &mut pool, &mut bet, &key(20), &key(21), &key(22)).unwrap();
    assert_eq!(before - market.bettor_balance, 1000 + 2000);
    assert!(market.locked_liquidity >= market.bettor_balance);
    let pnl = Processor::process_settle_pnl(&mut market, &mut pool).unwrap();
    assert_eq!(pnl.to_reserve, market.bettor_balance);
}

#[test]
fn house_profit_is_split() {
    let (mut market, mut pool) = open_market();
    let placed =
        Processor::process_init_bet(&mut market, &mut pool, &request(1000, 0, BetType::MoneyLine), 200, 1_000_000)
            .unwrap();
    let mut bet = placed.bet;
    Processor::process_commence_market(&mut market, &mut pool).unwrap();
    Processor::process_settle_market(&mut market, &key(9), 1, 0, 2).unwrap();
    let settled =
        Processor::process_settle_bet(&mut market, &mut pool, &mut bet, &key(20), &key(21), &key(22)).unwrap();
    assert_eq!(settled.verdict, BetVerdict::Lost);
    assert_eq!(settled.winnings, 0);
    assert_eq!(sides_of(&market), vec![(1000, 2000), (0, 0), (0, 0)]);
    // Custody holds the stake and the lock: 3000, of which 1000 is profit.
    let pnl = Processor::process_settle_pnl(&mut market, &mut pool).unwrap();
    assert_eq!(pnl.to_insurance, 10);
    assert_eq!(pnl.to_foundation, 50);
    assert_eq!(pnl.to_reserve, 940 + 2000);
    assert_eq!(pool.live_liquidity, 0);
    assert_eq!(
        Processor::process_settle_pnl(&mut market, &mut pool).unwrap_err(),
        ExchangeError::NotValidMarketResult
    );
}

#[test]
fn profit_shares_round_down() {
    assert_eq!(percent_of_profit(1234, 1), 12);
    assert_eq!(percent_of_profit(1234, 5), 61);
    assert_eq!(percent_of_profit(1234, 94), 1159);
    assert_eq!(percent_of_profit(100, 94), 94);
    assert_eq!(percent_of_profit(20, 5), 1);
    assert_eq!(percent_of_profit(0, 94), 0);
    assert_eq!(percent_of_profit(99, 100), 99);
    assert_eq!(percent_of_profit(u64::MAX, 1), u64::MAX / 100);
    assert_eq!(percent_of_profit(u64::MAX / 2, 5), ((u64::MAX / 2) as u128 * 5 / 100) as u64);
    assert_eq!(percent_of_profit(u64::MAX, 100), u64::MAX);
}

fn closing_market(locked: u64, balance: u64) -> (Market, BettingPoolState) {
    let mut market = blank_market();
    market.is_initialized = true;
    market.result = MarketOutcome::MarketSide0Won;
    market.locked_liquidity = locked;
    market.bettor_balance = balance;
    let mut pool = blank_pool();
    pool.live_liquidity = locked;
    (market, pool)
}

#[test]
fn profit_split_pays_out_the_whole_balance() {
    let (mut market, mut pool) = closing_market(0, 99);
    let pnl = Processor::process_settle_pnl(&mut market, &mut pool).unwrap();
    assert_eq!((pnl.to_insurance, pnl.to_foundation, pnl.to_reserve), (0, 4, 95));
    for (locked, balance) in [(0u64, 1u64), (7, 1000), (1234, 98765), (500, 500), (900, 100), (0, u64::MAX), (1, u64::MAX)] {
        let (mut market, mut pool) = closing_market(locked, balance);
        let pnl = Processor::process_settle_pnl(&mut market, &mut pool).unwrap();
        assert_eq!(pnl.to_insurance as u128 + pnl.to_foundation as u128 + pnl.to_reserve as u128, balance as u128);
        if balance > locked {
            let profit = balance - locked;
            assert_eq!(pnl.to_insurance, profit / 100);
            assert_eq!(pnl.to_foundation, (profit as u128 * 5 / 100) as u64);
        } else {
            assert_eq!((pnl.to_insurance, pnl.to_foundation), (0, 0));
        }
        assert_eq!(pool.live_liquidity, 0);
        assert_eq!(market.result, MarketOutcome::Settled);
    }
}

#[test]
fn pool_lock_overflow_is_an_amount_overflow() {
    let (mut market, mut pool) = open_market();
    pool.locked_liquidity = u64::MAX - 100;
    let before = pool.locked_liquidity;
    assert_eq!(
        Processor::process_init_bet(&mut market, &mut pool, &request(1000, 0, BetType::MoneyLine), 200, 1_000_000)
            .unwrap_err(),
        ExchangeError::AmountOverflow
    );
    assert_eq!(pool.locked_liquidity, before);
    assert_eq!(market.locked_liquidity, 0);
    assert_eq!(pool.pending_bets, 0);
}

#[test]
fn settle_bet_errors() {
    let (mut market, mut pool) = open_market();
    let placed =
        Processor::process_init_bet(&mut market, &mut pool, &request(1000, 0, BetType::MoneyLine), 200, 1_000_000)
            .unwrap();
    let mut bet = placed.bet;
    assert_eq!(
        Processor::process_settle_bet(&mut market, &mut pool, &mut bet, &key(20), &key(21), &key(22)).unwrap_err(),
        ExchangeError::MarketNotSettled
    );
    Processor::process_commence_market(&mut market, &mut pool).unwrap();
    assert_eq!(
        Processor::process_settle_bet(&mut market, &mut pool, &mut bet, &key(20), &key(21), &key(22)).unwrap_err(),
        ExchangeError::MarketNotSettled
    );
    Processor::process_settle_market(&mut market, &key(9), 2, 1, 1).unwrap();
    assert_eq!(
        Processor::process_settle_bet(&mut market, &mut pool, &mut bet, &key(99), &key(21), &key(22)).unwrap_err(),
        ExchangeError::ExpectedDataMismatch
    );
    assert_eq!(
        Processor::process_settle_bet(&mut market, &mut pool, &mut bet, &key(20), &key(99), &key(22)).unwrap_err(),
        ExchangeError::ExpectedDataMismatch
    );
    assert_eq!(
        Processor::process_settle_bet(&mut market, &mut pool, &mut bet, &key(20), &key(21), &key(99)).unwrap_err(),
        ExchangeError::ExpectedDataMismatch
    );
    assert_eq!(market.pending_bets, 1);
    Processor::process_settle_bet(&mut market, &mut pool, &mut bet, &key(20), &key(21), &key(22)).unwrap();
    assert_eq!(bet.outcome, BetVerdict::Lost);
    assert_eq!(
        Processor::process_settle_bet(&mut market, &mut pool, &mut bet, &key(20), &key(21), &key(22)).unwrap_err(),
        ExchangeError::BetAlreadySettled
    );
}

#[test]
fn pending_counters_move_together() {
    let (mut market, mut pool) = open_market();
    let (mut other, _) = open_market();
    let mut bets: Vec<Bet> = Vec::new();
    for i in 0..3u8 {
        let placed = Processor::process_init_bet(
            &mut market,
            &mut pool,
            &request(100 + i as u64, i, BetType::MoneyLine),
            120,
            1_000_000,
        )
        .unwrap();
        bets.push(placed.bet);
        assert_eq!(market.pending_bets, pool.pending_bets);
    }
    let mut side_bet = Processor::process_init_bet(&mut other, &mut pool, &request(50, 0, BetType::Total), 100, 1_000_000)
        .unwrap()
        .bet;
    assert_eq!(pool.pending_bets, market.pending_bets + other.pending_bets);
    Processor::process_commence_market(&mut market, &mut pool).unwrap();
    Processor::process_settle_market(&mut market, &key(9), 1, 0, 0).unwrap();
    for bet in bets.iter_mut() {
        Processor::process_settle_bet(&mut market, &mut pool, bet, &key(20), &key(21), &key(22)).unwrap();
        assert_eq!(pool.pending_bets, market.pending_bets + other.pending_bets);
    }
    assert_eq!(market.pending_bets, 0);
    Processor::process_commence_market(&mut other, &mut pool).unwrap();
    Processor::process_settle_market(&mut other, &key(9), 0, 0, 0).unwrap();
    Processor::process_settle_bet(&mut other, &mut pool, &mut side_bet, &key(20), &key(21), &key(22)).unwrap();
    assert_eq!(pool.pending_bets, 0);
}

#[test]
fn winning_money_line_bet_restores_its_side() {
    let (mut market, mut pool) = open_market();
    Processor::process_init_bet(&mut market, &mut pool, &request(700, 0, BetType::MoneyLine), 150, 1_000_000).unwrap();
    Processor::process_init_bet(&mut market, &mut pool, &request(300, 1, BetType::MoneyLine), -200, 1_000_000).unwrap();
    let before = sides_of(&market);
    let mut bet = Processor::process_init_bet(&mut market, &mut pool, &request(400, 0, BetType::MoneyLine), 250, 1_000_000)
        .unwrap()
        .bet;
    assert_eq!(sides_of(&market)[0], (700 + 400, 1050 + 1000));
    Processor::process_commence_market(&mut market, &mut pool).unwrap();
    Processor::process_settle_market(&mut market, &key(9), 0, 2, 1).unwrap();
    Processor::process_settle_bet(&mut market, &mut pool, &mut bet, &key(20), &key(21), &key(22)).unwrap();
    assert_eq!(sides_of(&market), before);
}

#[test]
fn market_phase_errors() {
    let (mut market, mut pool) = open_market();
    assert_eq!(
        Processor::process_settle_market(&mut market, &key(9), 0, 1, 1).unwrap_err(),
        ExchangeError::MarketAlreadySettled
    );
    Processor::process_commence_market(&mut market, &mut pool).unwrap();
    assert_eq!(
        Processor::process_commence_market(&mut market, &mut pool).unwrap_err(),
        ExchangeError::MarketCommenced
    );
    assert_eq!(
        Processor::process_settle_market(&mut market, &key(8), 0, 1, 1).unwrap_err(),
        ExchangeError::NotValidAuthority
    );
    assert_eq!(
        Processor::process_settle_market(&mut market, &key(9), 3, 1, 1).unwrap_err(),
        ExchangeError::NotValidMarketResult
    );
    assert_eq!(
        Processor::process_settle_market(&mut market, &key(9), 0, u16::MAX, 1).unwrap_err(),
        ExchangeError::AmountOverflow
    );
    assert_eq!(market.result, MarketOutcome::Commenced);
    assert_eq!(
        Processor::process_settle_pnl(&mut market, &mut pool).unwrap_err(),
        ExchangeError::NotValidMarketResult
    );
}

#[test]
fn init_refusals() {
    let (mut market, mut pool) = open_market();
    assert!(market.is_initialized);
    assert_eq!(market.market_sides[0].odds_feed_account, Some(key(5)));
    assert_eq!(market.market_sides[1].points_feed_account, Some(key(11)));
    assert_eq!(market.market_sides[2].points_feed_account, None);
    assert_eq!(
        Processor::process_init_market(&mut market, &pool, &key(9), &[key(5), key(6), key(7)], &[key(10), key(11)])
            .unwrap_err(),
        ExchangeError::MarketAlreadyInitialized
    );
    assert_eq!(
        Processor::process_ownership(&mut pool, &key(1), &key(2), &key(3), &key(4)).unwrap_err(),
        ExchangeError::BettingPoolStateAlreadyInitialized
    );
    Processor::process_freeze(&mut pool, true);
    let mut fresh = blank_market();
    assert_eq!(
        Processor::process_init_futures_market(&mut fresh, &pool, &key(9), &[key(5), key(6), key(7)], &[
            key(10),
            key(11),
        ])
        .unwrap_err(),
        ExchangeError::BettingFrozen
    );
    assert!(!fresh.is_initialized);
}

fn resolved_market(result: MarketOutcome, a: u16, b: u16) -> Market {
    let mut m = blank_market();
    m.result = result;
    m.team_a_score = a;
    m.team_b_score = b;
    m.total_score = a + b;
    m
}

fn bet_on(bet_type: BetType, side: u8, points: u16) -> Bet {
    Bet {
        is_initialized: true,
        market: key(20),
        user_usdt_account: key(21),
        user_main_account: key(22),
        user_risk: 10,
        user_payout: 10,
        points,
        user_market_side: side,
        outcome: BetVerdict::Unsettled,
        bet_type,
    }
}

#[test]
fn outcome_money_line() {
    let m = resolved_market(MarketOutcome::MarketSide2Won, 0, 0);
    assert_eq!(get_bet_outcome(&bet_on(BetType::MoneyLine, 2, 0), &m), Ok(BetVerdict::Won));
    assert_eq!(get_bet_outcome(&bet_on(BetType::MoneyLine, 0, 0), &m), Ok(BetVerdict::Lost));
    let open = resolved_market(MarketOutcome::Commenced, 0, 0);
    assert_eq!(
        get_bet_outcome(&bet_on(BetType::MoneyLine, 0, 0), &open),
        Err(ExchangeError::MarketNotSettled)
    );
    let settled = resolved_market(MarketOutcome::Settled, 0, 0);
    assert_eq!(
        get_bet_outcome(&bet_on(BetType::MoneyLine, 0, 0), &settled),
        Err(ExchangeError::MarketNotSettled)
    );
}

#[test]
fn outcome_spread_has_no_push() {
    let m = resolved_market(MarketOutcome::MarketSide0Won, 10, 7);
    // Underdog wins when the line exceeds the sum of the scores.
    assert_eq!(get_bet_outcome(&bet_on(BetType::Spread, 1, 18), &m), Ok(BetVerdict::Won));
    assert_eq!(get_bet_outcome(&bet_on(BetType::Spread, 1, 17), &m), Ok(BetVerdict::Lost));
    // Favourite wins when A's score less the line exceeds B's.
    assert_eq!(get_bet_outcome(&bet_on(BetType::Spread, 0, 2), &m), Ok(BetVerdict::Won));
    assert_eq!(get_bet_outcome(&bet_on(BetType::Spread, 0, 3), &m), Ok(BetVerdict::Lost));
    assert_eq!(get_bet_outcome(&bet_on(BetType::Spread, 0, 30), &m), Ok(BetVerdict::Lost));
}

#[test]
fn outcome_total_has_no_push() {
    let m = resolved_market(MarketOutcome::MarketSide1Won, 20, 21);
    assert_eq!(get_bet_outcome(&bet_on(BetType::Total, 1, 42), &m), Ok(BetVerdict::Won));
    assert_eq!(get_bet_outcome(&bet_on(BetType::Total, 1, 41), &m), Ok(BetVerdict::Lost));
    assert_eq!(get_bet_outcome(&bet_on(BetType::Total, 0, 40), &m), Ok(BetVerdict::Won));
    assert_eq!(get_bet_outcome(&bet_on(BetType::Total, 0, 41), &m), Ok(BetVerdict::Lost));
}
