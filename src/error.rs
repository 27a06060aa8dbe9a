use vstd::prelude::*;

verus! {

/// Every way an operation of the exchange can be refused.
#[derive(Debug, Copy, Clone, PartialEq, Eq, Structural)]
pub enum ExchangeError {
    /// Invalid instruction
    InvalidInstruction,
    /// Not Valid Authority
    NotValidAuthority,
    /// Expected Amount Mismatch
    ExpectedAmountMismatch,
    /// Expected Data Mismatch
    ExpectedDataMismatch,
    /// Amount Overflow
    AmountOverflow,
    /// Invalid feed account
    InvalidFeedAccount,
    /// Invalid house token mint account
    InvalidHtMintAccount,
    /// Invalid house pool USDT account
    InvalidPoolUsdtAccount,
    /// Invalid market account
    InvalidMarketAccount,
    /// Invalid insurance fund USDT account
    InvalidInsuranceFundUsdtAccount,
    /// Invalid divvy foundation USDT account
    InvalidDivvyFoundationUsdtAccount,
    /// Not enough available liquidity for withdrawal
    NotEnoughAvailableLiquidityForWithdrawal,
    /// Can not use the house pool when there are bets placed on live games
    GamesAreLive,
    /// Pool is frozen
    PoolFrozen,
    /// Betting is frozen
    BettingFrozen,
    /// Market already settled
    MarketAlreadySettled,
    /// Market not settled
    MarketNotSettled,
    /// Bet already settled
    BetAlreadySettled,
    /// Not enough available liquidity for bet
    NotEnoughAvailableLiquidityForBet,
    /// Bet risk is zero
    BetRiskZero,
    /// Feed result not valid when settling market
    NotValidMarketResult,
    /// Market has already commenced
    MarketCommenced,
    /// HP liquidity not initialized
    HpLiquidityNotInitialized,
    /// HP liquidity already initialized
    HpLiquidityAlreadyInitialized,
    /// Market not initialized
    MarketNotInitialized,
    /// Market already initialized
    MarketAlreadyInitialized,
    /// Bet already initialized
    BetAlreadyInitialized,
    /// Feed not initialized
    FeedNotInitialized,
    /// Market side risk underflow
    MarketSideRiskUnderflow,
    /// Market side payout underflow
    MarketSidePayoutUnderflow,
    /// All bets in market settled and market side risk is positive
    MarketSideRiskRemaining,
    /// All bets in market settled and market side payout is positive
    MarketSidePayoutRemaining,
    /// All bets in market settled and market bettor balance is positive
    MarketBettorBalanceRemaining,
    /// All bets settled and house pool bettor balance is positive
    HousePoolBettorBalanceRemaining,
    /// All bets settled and the locked liquidity in the house pool is positive
    HousePoolLockedLiquidityRemaining,
    /// All bets settled and the live liquidity in the house pool is positive
    HousePoolLiveLiquidityRemaining,
    /// Stored account data is malformed
    InvalidAccountData,
    /// The payout computed for a bet is zero
    PayoutZero,
    /// Betting pool state not initialized
    BettingPoolStateNotInitialized,
    /// Betting pool state already initialized
    BettingPoolStateAlreadyInitialized,
    /// Invalid house pool USDT account
    InvalidHousePoolUsdtAccount,
    /// Invalid betting pool USDT account
    InvalidBettingPoolUsdtAccount,
}

} // verus!
