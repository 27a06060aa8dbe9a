use divvy::error::ExchangeError;
use divvy::house::{calculate_available_liquidity, HouseInstruction, HpLiquidity, Processor};
use divvy::instruction::ExchangeInstruction;
use divvy::state::{AccountKey, BetType, BettingPoolState, MarketOutcome};

fn key(b: u8) -> AccountKey {
    AccountKey { bytes: [b; 32] }
}

#[test]
fn decode_init_bet() {
    let mut data = vec![0u8];
    data.extend_from_slice(&1000u64.to_le_bytes());
    data.extend_from_slice(&150u64.to_le_bytes());
    data.extend_from_slice(&7u16.to_le_bytes());
    data.push(2);
    data.push(1);
    data.push(251);
    assert_eq!(
        ExchangeInstruction::unpack(&data),
        Ok(ExchangeInstruction::Initbet {
            risk: 1000,
            odds: 150,
            points: 7,
            market_side: 2,
            bet_type: BetType::Spread,
            bump_seed: 251,
        })
    );
    data[20] = 3;
    assert_eq!(ExchangeInstruction::unpack(&data), Err(ExchangeError::InvalidInstruction));
    assert_eq!(ExchangeInstruction::unpack(&data[..20]), Err(ExchangeError::InvalidInstruction));
}

#[test]
fn decode_exchange_instructions() {
    assert_eq!(ExchangeInstruction::unpack(&[]), Err(ExchangeError::InvalidInstruction));
    assert_eq!(ExchangeInstruction::unpack(&[1, 9, 8]), Ok(ExchangeInstruction::SettleBet { bump_seed: 8 }));
    assert_eq!(ExchangeInstruction::unpack(&[1]), Err(ExchangeError::InvalidInstruction));
    assert_eq!(ExchangeInstruction::unpack(&[2, 4]), Ok(ExchangeInstruction::InitMarket { bump_seed: 4 }));
    assert_eq!(ExchangeInstruction::unpack(&[3, 4]), Ok(ExchangeInstruction::SettleMarket { bump_seed: 4 }));
    assert_eq!(ExchangeInstruction::unpack(&[4, 4]), Ok(ExchangeInstruction::Ownership { bump_seed: 4 }));
    assert_eq!(ExchangeInstruction::unpack(&[5, 4]), Ok(ExchangeInstruction::CommenceMarket { bump_seed: 4 }));
    assert_eq!(ExchangeInstruction::unpack(&[6, 0]), Ok(ExchangeInstruction::Freeze { freeze_betting: false }));
    assert_eq!(ExchangeInstruction::unpack(&[6, 5]), Ok(ExchangeInstruction::Freeze { freeze_betting: true }));
    assert_eq!(ExchangeInstruction::unpack(&[6]), Err(ExchangeError::InvalidInstruction));
    assert_eq!(ExchangeInstruction::unpack(&[7, 4]), Ok(ExchangeInstruction::SettlePNL { bump_seed: 4 }));
    assert_eq!(ExchangeInstruction::unpack(&[8, 4]), Ok(ExchangeInstruction::InitFuturesMarket { bump_seed: 4 }));
    assert_eq!(
        ExchangeInstruction::unpack(&[9, 0x2c, 0x01, 0, 0]),
        Ok(ExchangeInstruction::InitBust { multiplier: 300 })
    );
    assert_eq!(ExchangeInstruction::unpack(&[9, 1, 2, 3]), Err(ExchangeError::InvalidInstruction));
    assert_eq!(
        ExchangeInstruction::unpack(&[10, 0x2c, 0x01, 0, 0, 0xf4, 0x01]),
        Ok(ExchangeInstruction::InitBustBet { multiplier: 300, risk: 500 })
    );
    assert_eq!(ExchangeInstruction::unpack(&[10, 0x2c, 0x01, 0, 0, 5]), Err(ExchangeError::InvalidInstruction));
    assert_eq!(ExchangeInstruction::unpack(&[11]), Ok(ExchangeInstruction::SettleBustBet {}));
    assert_eq!(ExchangeInstruction::unpack(&[12, 0]), Err(ExchangeError::InvalidInstruction));
}

#[test]
fn decode_house_instructions() {
    let mut data = vec![0u8];
    data.extend_from_slice(&0x0102_0304_0506_0708u64.to_le_bytes());
    data.push(200);
    assert_eq!(
        HouseInstruction::unpack(&data),
        Ok(HouseInstruction::Deposit { usdt_amount: 0x0102_0304_0506_0708, bump_seed: 200 })
    );
    data[0] = 1;
    assert_eq!(
        HouseInstruction::unpack(&data),
        Ok(HouseInstruction::Withdraw { ht_amount: 0x0102_0304_0506_0708, bump_seed: 200 })
    );
    data[0] = 4;
    assert_eq!(
        HouseInstruction::unpack(&data),
        Ok(HouseInstruction::TransferLockedLiquidity { usdt_amount: 0x0102_0304_0506_0708, bump_seed: 200 })
    );
    assert_eq!(HouseInstruction::unpack(&data[..8]), Err(ExchangeError::InvalidInstruction));
    assert_eq!(HouseInstruction::unpack(&[2, 7]), Ok(HouseInstruction::Ownership { bump_seed: 7 }));
    assert_eq!(HouseInstruction::unpack(&[3, 1]), Ok(HouseInstruction::Freeze { freeze_pool: true }));
    assert_eq!(HouseInstruction::unpack(&[3]), Err(ExchangeError::InvalidInstruction));
    assert_eq!(HouseInstruction::unpack(&[5, 1]), Err(ExchangeError::InvalidInstruction));
    assert_eq!(HouseInstruction::unpack(&[]), Err(ExchangeError::InvalidInstruction));
}

#[test]
fn enum_codes_round_trip() {
    for code in 0u8..=4 {
        assert_eq!(MarketOutcome::unpack(&code).unwrap().pack(), code);
    }
    assert_eq!(MarketOutcome::Settled.pack(), 5);
    assert_eq!(MarketOutcome::unpack(&5), Ok(MarketOutcome::Settled));
    assert_eq!(MarketOutcome::unpack(&6), Err(ExchangeError::InvalidInstruction));
    for code in 0u8..=2 {
        assert_eq!(BetType::unpack(&code).unwrap().pack(), code);
    }
    assert_eq!(BetType::unpack(&3), Err(ExchangeError::InvalidInstruction));
}

fn bet_pool(locked: u64, live: u64) -> BettingPoolState {
    BettingPoolState {
        is_initialized: true,
        locked_liquidity: locked,
        live_liquidity: live,
        pending_bets: 0,
        house_pool_usdt: key(1),
        betting_pool_usdt: key(2),
        insurance_fund_usdt: key(3),
        divvy_foundation_proceeds_usdt: key(4),
        frozen_betting: false,
    }
}

fn house() -> HpLiquidity {
    Processor::process_ownership(&key(30), &key(31), &key(32))
}

#[test]
fn deposit_mints_proportional_shares() {
    let hp = house();
    assert_eq!(Processor::process_deposit(&hp, &key(30), &key(32), 0, 0, &bet_pool(0, 0), 500), Ok(500));
    // 1000 shares over a pool worth 2000: 0.5 share per token.
    assert_eq!(Processor::process_deposit(&hp, &key(30), &key(32), 1000, 1500, &bet_pool(500, 0), 300), Ok(150));
    // 1 share over a pool worth 3: one third, truncated in 64.64, times 3.
    assert_eq!(Processor::process_deposit(&hp, &key(30), &key(32), 1, 3, &bet_pool(0, 0), 3), Ok(0));
    assert_eq!(
        Processor::process_deposit(&hp, &key(30), &key(32), 10, 0, &bet_pool(0, 0), 3),
        Err(ExchangeError::AmountOverflow)
    );
    assert_eq!(
        Processor::process_deposit(&hp, &key(33), &key(32), 10, 10, &bet_pool(0, 0), 3),
        Err(ExchangeError::InvalidHtMintAccount)
    );
    assert_eq!(
        Processor::process_deposit(&hp, &key(30), &key(33), 10, 10, &bet_pool(0, 0), 3),
        Err(ExchangeError::InvalidPoolUsdtAccount)
    );
    assert_eq!(
        Processor::process_deposit(&hp, &key(30), &key(32), 10, 10, &bet_pool(0, 1), 3),
        Err(ExchangeError::GamesAreLive)
    );
    let mut frozen = hp;
    Processor::process_freeze(&mut frozen, true);
    assert!(frozen.frozen_pool);
    assert_eq!(
        Processor::process_deposit(&frozen, &key(30), &key(32), 10, 10, &bet_pool(0, 0), 3),
        Err(ExchangeError::PoolFrozen)
    );
}

#[test]
fn withdraw_pays_proportional_value() {
    let hp = house();
    // Pool worth 2000 over 1000 shares: 2 per share.
    assert_eq!(Processor::process_withdraw(&hp, &key(30), &key(32), 1000, 1500, &bet_pool(500, 0), 100), Ok(200));
    assert_eq!(
        Processor::process_withdraw(&hp, &key(30), &key(32), 1000, 1500, &bet_pool(500, 0), 600),
        Err(ExchangeError::NotEnoughAvailableLiquidityForWithdrawal)
    );
    assert_eq!(
        Processor::process_withdraw(&hp, &key(30), &key(32), 0, 1500, &bet_pool(500, 0), 1),
        Err(ExchangeError::AmountOverflow)
    );
    assert_eq!(calculate_available_liquidity(1500, &bet_pool(500, 0)), Ok(1000));
    assert_eq!(calculate_available_liquidity(100, &bet_pool(500, 0)), Err(ExchangeError::AmountOverflow));
}
