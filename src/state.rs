use vstd::prelude::*;

use crate::error::ExchangeError;

verus! {

/// The 32-byte address of an account.
#[derive(Debug, Copy, Clone)]
pub struct AccountKey {
    pub bytes: [u8; 32],
}

impl PartialEq for AccountKey {
    fn eq(&self, other: &AccountKey) -> (r: bool)
        ensures
            r == (self.bytes@ == other.bytes@),
    {
        let mut i: usize = 0;
        while i < 32
            invariant
                0 <= i <= 32,
                forall|j: int| 0 <= j < i ==> self.bytes@[j] == other.bytes@[j],
            decreases 32 - i,
        {
            if self.bytes[i] != other.bytes[i] {
                return false;
            }
            i = i + 1;
        }
        assert(self.bytes@ =~= other.bytes@);
        true
    }
}

impl vstd::std_specs::cmp::PartialEqSpecImpl for AccountKey {
    open spec fn obeys_eq_spec() -> bool {
        true
    }

    open spec fn eq_spec(&self, other: &AccountKey) -> bool {
        self.bytes@ == other.bytes@
    }
}

/// Exposure accumulated on one outcome of a market.
#[derive(Debug, Copy, Clone)]
pub struct MarketSide {
    pub odds_feed_account: Option<AccountKey>,
    pub points_feed_account: Option<AccountKey>,
    /// Sum of the payouts of the money-line bets open on this side.
    pub payout: u64,
    /// Sum of the stakes of the money-line bets open on this side.
    pub risk: u64,
}

/// The kind of a wager.
#[derive(Debug, Copy, Clone, PartialEq, Eq, Structural)]
pub enum BetType {
    /// Picks the winning side.
    MoneyLine,
    /// Picks a side against a handicap line.
    Spread,
    /// Picks over or under a total-score line.
    Total,
}

/// The stored code of a bet type.
pub open spec fn bet_type_code(t: BetType) -> u8 {
    match t {
        BetType::MoneyLine => 0,
        BetType::Spread => 1,
        BetType::Total => 2,
    }
}

/// The bet type stored under a code, if the code is one.
pub open spec fn bet_type_of_code(c: u8) -> Option<BetType> {
    if c == 0 {
        Some(BetType::MoneyLine)
    } else if c == 1 {
        Some(BetType::Spread)
    } else if c == 2 {
        Some(BetType::Total)
    } else {
        None
    }
}

impl BetType {
    pub fn unpack(input: &u8) -> (r: Result<BetType, ExchangeError>)
        ensures
            r == match bet_type_of_code(*input) {
                Some(t) => Ok(t),
                None => Err(ExchangeError::InvalidInstruction),
            },
    {
        match *input {
            0 => Ok(BetType::MoneyLine),
            1 => Ok(BetType::Spread),
            2 => Ok(BetType::Total),
            _ => Err(ExchangeError::InvalidInstruction),
        }
    }

    pub fn pack(&self) -> (r: u8)
        ensures
            r == bet_type_code(*self),
    {
        match *self {
            BetType::MoneyLine => 0,
            BetType::Spread => 1,
            BetType::Total => 2,
        }
    }
}

/// The phase of a market. A market is created `NotYetCommenced`, becomes
/// `Commenced` when play starts, receives one of the three `MarketSide*Won`
/// results, and ends `Settled` once its profit or loss has been distributed.
#[derive(Debug, Copy, Clone, PartialEq, Eq, Structural)]
pub enum MarketOutcome {
    MarketSide0Won,
    MarketSide1Won,
    MarketSide2Won,
    NotYetCommenced,
    Commenced,
    Settled,
}

/// The stored code of a market phase; for a result, the winning side.
pub open spec fn outcome_code(o: MarketOutcome) -> u8 {
    match o {
        MarketOutcome::MarketSide0Won => 0,
        MarketOutcome::MarketSide1Won => 1,
        MarketOutcome::MarketSide2Won => 2,
        MarketOutcome::NotYetCommenced => 3,
        MarketOutcome::Commenced => 4,
        MarketOutcome::Settled => 5,
    }
}

/// The phase that a stored code decodes to.
pub open spec fn outcome_of_code(c: u8) -> Option<MarketOutcome> {
    if c == 0 {
        Some(MarketOutcome::MarketSide0Won)
    } else if c == 1 {
        Some(MarketOutcome::MarketSide1Won)
    } else if c == 2 {
        Some(MarketOutcome::MarketSide2Won)
    } else if c == 3 {
        Some(MarketOutcome::NotYetCommenced)
    } else if c == 4 {
        Some(MarketOutcome::Commenced)
    } else if c == 5 {
        Some(MarketOutcome::Settled)
    } else {
        None
    }
}

/// Every phase, `Settled` included, reads back as itself from its stored
/// code.
pub proof fn lemma_outcome_code_round_trip(o: MarketOutcome)
    ensures
        outcome_of_code(outcome_code(o)) == Some(o),
{
}

/// The market holds a result: one of its three sides won.
pub open spec fn is_resolved(o: MarketOutcome) -> bool {
    match o {
        MarketOutcome::MarketSide0Won => true,
        MarketOutcome::MarketSide1Won => true,
        MarketOutcome::MarketSide2Won => true,
        _ => false,
    }
}

impl MarketOutcome {
    pub fn unpack(input: &u8) -> (r: Result<MarketOutcome, ExchangeError>)
        ensures
            r == match outcome_of_code(*input) {
                Some(o) => Ok(o),
                None => Err(ExchangeError::InvalidInstruction),
            },
    {
        match *input {
            0 => Ok(MarketOutcome::MarketSide0Won),
            1 => Ok(MarketOutcome::MarketSide1Won),
            2 => Ok(MarketOutcome::MarketSide2Won),
            3 => Ok(MarketOutcome::NotYetCommenced),
            4 => Ok(MarketOutcome::Commenced),
            5 => Ok(MarketOutcome::Settled),
            _ => Err(ExchangeError::InvalidInstruction),
        }
    }

    pub fn pack(&self) -> (r: u8)
        ensures
            r == outcome_code(*self),
    {
        match *self {
            MarketOutcome::MarketSide0Won => 0,
            MarketOutcome::MarketSide1Won => 1,
            MarketOutcome::MarketSide2Won => 2,
            MarketOutcome::NotYetCommenced => 3,
            MarketOutcome::Commenced => 4,
            MarketOutcome::Settled => 5,
        }
    }

    /// Whether the market holds a result.
    pub fn is_resolved(&self) -> (r: bool)
        ensures
            r == is_resolved(*self),
    {
        match *self {
            MarketOutcome::MarketSide0Won => true,
            MarketOutcome::MarketSide1Won => true,
            MarketOutcome::MarketSide2Won => true,
            _ => false,
        }
    }
}

/// What became of a bet.
#[derive(Debug, Copy, Clone, PartialEq, Eq, Structural)]
pub enum BetVerdict {
    Unsettled,
    Won,
    Lost,
    Push,
}

/// The stored code of a verdict.
pub open spec fn verdict_code(v: BetVerdict) -> u8 {
    match v {
        BetVerdict::Unsettled => 0,
        BetVerdict::Won => 1,
        BetVerdict::Lost => 2,
        BetVerdict::Push => 3,
    }
}

/// The verdict stored under a code, if the code is one.
pub open spec fn verdict_of_code(c: u8) -> Option<BetVerdict> {
    if c == 0 {
        Some(BetVerdict::Unsettled)
    } else if c == 1 {
        Some(BetVerdict::Won)
    } else if c == 2 {
        Some(BetVerdict::Lost)
    } else if c == 3 {
        Some(BetVerdict::Push)
    } else {
        None
    }
}

impl BetVerdict {
    pub fn unpack(input: &u8) -> (r: Result<BetVerdict, ExchangeError>)
        ensures
            r == match verdict_of_code(*input) {
                Some(v) => Ok(v),
                None => Err(ExchangeError::InvalidAccountData),
            },
    {
        match *input {
            0 => Ok(BetVerdict::Unsettled),
            1 => Ok(BetVerdict::Won),
            2 => Ok(BetVerdict::Lost),
            3 => Ok(BetVerdict::Push),
            _ => Err(ExchangeError::InvalidAccountData),
        }
    }

    pub fn pack(&self) -> (r: u8)
        ensures
            r == verdict_code(*self),
    {
        match *self {
            BetVerdict::Unsettled => 0,
            BetVerdict::Won => 1,
            BetVerdict::Lost => 2,
            BetVerdict::Push => 3,
        }
    }
}

/// The ledger of one betable event.
#[derive(Debug, Copy, Clone)]
pub struct Market {
    pub is_initialized: bool,
    pub market_sides: [MarketSide; 3],
    /// Capital reserved against this market's worst outcome.
    pub locked_liquidity: u64,
    pub result_feed: AccountKey,
    pub result: MarketOutcome,
    /// What the pool's custody holds for this market: the stakes taken in
    /// and the lock increases moved in, less the winnings paid out.
    pub bettor_balance: u64,
    /// Bets placed on this market and not yet settled.
    pub pending_bets: u64,
    pub team_a_score: u16,
    pub team_b_score: u16,
    pub total_score: u16,
}

/// The cross-market ledger of the liquidity pool.
#[derive(Debug, Copy, Clone)]
pub struct BettingPoolState {
    pub is_initialized: bool,
    /// Capital reserved against markets that have not commenced.
    pub locked_liquidity: u64,
    /// Capital reserved against markets that are in play.
    pub live_liquidity: u64,
    /// Bets placed and not yet settled, over all markets.
    pub pending_bets: u64,
    pub house_pool_usdt: AccountKey,
    pub betting_pool_usdt: AccountKey,
    pub insurance_fund_usdt: AccountKey,
    pub divvy_foundation_proceeds_usdt: AccountKey,
    /// When set, no new bet is admitted.
    pub frozen_betting: bool,
}

/// One wager.
#[derive(Debug, Copy, Clone)]
pub struct Bet {
    pub is_initialized: bool,
    pub market: AccountKey,
    pub user_usdt_account: AccountKey,
    pub user_main_account: AccountKey,
    pub user_risk: u64,
    pub user_payout: u64,
    /// The spread or total line; not read for money-line bets.
    pub points: u16,
    pub user_market_side: u8,
    pub outcome: BetVerdict,
    pub bet_type: BetType,
}

/// The state of the crash game: the current and previous rounds.
#[derive(Debug, Copy, Clone)]
pub struct SolBust {
    pub is_initialized: bool,
    pub current_pubkey: AccountKey,
    pub previous_pubkey: AccountKey,
    pub current_multiplier: u32,
    pub previous_multiplier: u32,
}

/// One round of the crash game: the multiplier it reached (in hundredths),
/// how many bets it took, and whether it has ended.
#[derive(Debug, Copy, Clone, PartialEq, Eq, Structural)]
pub struct Multiplier {
    pub multiplier: u32,
    pub counter: u64,
    pub busted: bool,
}

/// A bet on the crash game: it wins when the round reaches
/// `user_multiplier`.
#[derive(Debug, Copy, Clone)]
pub struct BustBet {
    pub user_main_pubkey: AccountKey,
    pub user_usdt_pubkey: AccountKey,
    pub risk: u16,
    pub user_multiplier: u32,
    pub actual_multiplier_pubkey: AccountKey,
}

} // verus!
