use vstd::prelude::*;

use crate::bytes::{read_u64_le, u64_le};
use crate::error::ExchangeError;
pub use crate::state::BettingPoolState;

use crate::state::AccountKey;

verus! {

/// The instructions of the house pool program.
#[derive(Debug, Copy, Clone, PartialEq, Eq, Structural)]
pub enum HouseInstruction {
    /// Deposit `usdt_amount` into the pool for newly minted shares.
    Deposit { usdt_amount: u64, bump_seed: u8 },
    /// Burn `ht_amount` shares for their part of the pool.
    Withdraw { ht_amount: u64, bump_seed: u8 },
    Ownership { bump_seed: u8 },
    Freeze { freeze_pool: bool },
    /// Move `usdt_amount` of reserve into the betting custody.
    TransferLockedLiquidity { usdt_amount: u64, bump_seed: u8 },
}

/// The house instruction that `input` encodes, if any: a tag byte, then an
/// amount (`u64`) for deposits, withdrawals and transfers, and a trailing
/// bump seed; or, for a freeze, the flag byte.
pub open spec fn house_instruction_of(input: Seq<u8>) -> Option<HouseInstruction> {
    let rest = input.subrange(1, input.len() as int);
    if input.len() == 0 {
        None
    } else {
        let tag = input[0];
        if tag == 0 || tag == 1 || tag == 4 {
            if rest.len() >= 8 {
                let amount = u64_le(rest, 0) as u64;
                let bump_seed = rest.last();
                Some(
                    if tag == 0 {
                        HouseInstruction::Deposit { usdt_amount: amount, bump_seed }
                    } else if tag == 1 {
                        HouseInstruction::Withdraw { ht_amount: amount, bump_seed }
                    } else {
                        HouseInstruction::TransferLockedLiquidity { usdt_amount: amount, bump_seed }
                    },
                )
            } else {
                None
            }
        } else if tag == 2 {
            if rest.len() >= 1 {
                Some(HouseInstruction::Ownership { bump_seed: rest.last() })
            } else {
                None
            }
        } else if tag == 3 {
            if rest.len() >= 1 {
                Some(HouseInstruction::Freeze { freeze_pool: rest[0] != 0 })
            } else {
                None
            }
        } else {
            None
        }
    }
}

impl HouseInstruction {
    /// Decodes a house instruction; `InvalidInstruction` where the bytes
    /// encode none.
    pub fn unpack(input: &[u8]) -> (r: Result<HouseInstruction, ExchangeError>)
        ensures
            r == match house_instruction_of(input@) {
                Some(i) => Ok(i),
                None => Err(ExchangeError::InvalidInstruction),
            },
    {
        if input.len() == 0 {
            return Err(ExchangeError::InvalidInstruction);
        }
        let (head, rest) = input.split_at(1);
        let tag = head[0];
        assert(rest@ == input@.subrange(1, input@.len() as int));
        let instruction = match tag {
            0 => HouseInstruction::Deposit {
                usdt_amount: Self::unpack_amount(rest)?,
                bump_seed: Self::unpack_last(rest)?,
            },
            1 => HouseInstruction::Withdraw {
                ht_amount: Self::unpack_amount(rest)?,
                bump_seed: Self::unpack_last(rest)?,
            },
            2 => HouseInstruction::Ownership { bump_seed: Self::unpack_last(rest)? },
            3 => {
                if rest.len() == 0 {
                    return Err(ExchangeError::InvalidInstruction);
                }
                HouseInstruction::Freeze { freeze_pool: rest[0] != 0 }
            },
            4 => HouseInstruction::TransferLockedLiquidity {
                usdt_amount: Self::unpack_amount(rest)?,
                bump_seed: Self::unpack_last(rest)?,
            },
            _ => return Err(ExchangeError::InvalidInstruction),
        };
        Ok(instruction)
    }

    /// The last byte, which holds the bump seed.
    pub fn unpack_last(input: &[u8]) -> (r: Result<u8, ExchangeError>)
        ensures
            input@.len() == 0 ==> r == Err::<u8, ExchangeError>(ExchangeError::InvalidInstruction),
            input@.len() > 0 ==> r == Ok::<u8, ExchangeError>(input@.last()),
    {
        if input.len() == 0 {
            return Err(ExchangeError::InvalidInstruction);
        }
        Ok(input[input.len() - 1])
    }

    /// The amount in bytes 0 to 7.
    pub fn unpack_amount(input: &[u8]) -> (r: Result<u64, ExchangeError>)
        ensures
            input@.len() < 8 ==> r == Err::<u64, ExchangeError>(ExchangeError::InvalidInstruction),
            input@.len() >= 8 ==> r == Ok::<u64, ExchangeError>(u64_le(input@, 0) as u64),
    {
        if input.len() < 8 {
            return Err(ExchangeError::InvalidInstruction);
        }
        Ok(read_u64_le(input, 0))
    }
}

/// The ledger of the house pool: its share mint, the two token accounts it
/// works with, and whether deposits and withdrawals are frozen.
#[derive(Debug, Copy, Clone)]
pub struct HpLiquidity {
    pub is_initialized: bool,
    pub ht_mint: AccountKey,
    pub betting_usdt: AccountKey,
    pub pool_usdt: AccountKey,
    pub frozen_pool: bool,
}

/// One in 64.64 fixed point.
pub open spec fn fixed_one() -> int {
    0x1_0000_0000_0000_0000
}

/// `value / divisor` as a 64.64 fixed-point number, truncated: its bits.
pub open spec fn fixed_quotient_bits(value: u64, divisor: u64) -> int {
    value * fixed_one() / (divisor as int)
}

/// The 64.64 quotient `value / divisor`, multiplied by `factor`, truncated
/// to an integer.
pub open spec fn scaled_quotient(value: u64, divisor: u64, factor: u64) -> int {
    fixed_quotient_bits(value, divisor) * factor / fixed_one()
}

/// The product of the quotient fits the 128 bits of a 64.64 number.
pub open spec fn scaled_quotient_fits(value: u64, divisor: u64, factor: u64) -> bool {
    fixed_quotient_bits(value, divisor) * factor < fixed_one() * fixed_one()
}

/// Relies on the fixed crate's `U64F64`: `from_num` of an integer is exact;
/// `checked_div` returns `None` for a zero divisor and truncates the quotient
/// to 64 fractional bits; `checked_mul` by an integer multiplies the bits and
/// returns `None` past 128 bits; `to_num::<u64>` discards the fraction.
#[verifier::external_body]
fn fixed_div_mul(value: u64, divisor: u64, factor: u64) -> (r: Option<u64>)
    ensures
        divisor == 0 ==> r.is_none(),
        divisor != 0 && !scaled_quotient_fits(value, divisor, factor) ==> r.is_none(),
        divisor != 0 && scaled_quotient_fits(value, divisor, factor) ==> r == Some(
            scaled_quotient(value, divisor, factor) as u64,
        ),
{
    let quotient = fixed::types::U64F64::from_num(value).checked_div(
        fixed::types::U64F64::from_num(divisor),
    )?;
    Some(quotient.checked_mul(fixed::types::U64F64::from_num(factor))?.to_num::<u64>())
}

/// What the pool holds for its shareholders: its token balance and the
/// liquidity it has lent out, locked and live.
pub open spec fn pool_value(pool_usdt_amount: u64, bet_pool: BettingPoolState) -> int {
    pool_usdt_amount + bet_pool.locked_liquidity + bet_pool.live_liquidity
}

/// The reserve's balance less what is locked against markets that have not
/// commenced.
pub fn calculate_available_liquidity(pool_usdt_amount: u64, bet_pool_state: &BettingPoolState) -> (r:
    Result<u64, ExchangeError>)
    ensures
        pool_usdt_amount >= bet_pool_state.locked_liquidity ==> r == Ok::<u64, ExchangeError>(
            (pool_usdt_amount - bet_pool_state.locked_liquidity) as u64,
        ),
        pool_usdt_amount < bet_pool_state.locked_liquidity ==> r == Err::<u64, ExchangeError>(
            ExchangeError::AmountOverflow,
        ),
{
    match pool_usdt_amount.checked_sub(bet_pool_state.locked_liquidity) {
        Some(v) => Ok(v),
        None => Err(ExchangeError::AmountOverflow),
    }
}

fn checked_pool_value(pool_usdt_amount: u64, bet_pool_state: &BettingPoolState) -> (r: Result<
    u64,
    ExchangeError,
>)
    ensures
        pool_value(pool_usdt_amount, *bet_pool_state) <= u64::MAX ==> r == Ok::<u64, ExchangeError>(
            pool_value(pool_usdt_amount, *bet_pool_state) as u64,
        ),
        pool_value(pool_usdt_amount, *bet_pool_state) > u64::MAX ==> r == Err::<u64, ExchangeError>(
            ExchangeError::AmountOverflow,
        ),
{
    let with_locked = match pool_usdt_amount.checked_add(bet_pool_state.locked_liquidity) {
        Some(v) => v,
        None => return Err(ExchangeError::AmountOverflow),
    };
    match with_locked.checked_add(bet_pool_state.live_liquidity) {
        Some(v) => Ok(v),
        None => Err(ExchangeError::AmountOverflow),
    }
}

/// Which error, if any, a deposit or withdrawal from `pool` ends in, before
/// its amounts are computed.
pub open spec fn pool_access_error(
    pool: HpLiquidity,
    ht_mint: AccountKey,
    pool_usdt: AccountKey,
    bet_pool: BettingPoolState,
) -> Option<ExchangeError> {
    if ht_mint.bytes@ != pool.ht_mint.bytes@ {
        Some(ExchangeError::InvalidHtMintAccount)
    } else if pool_usdt.bytes@ != pool.pool_usdt.bytes@ {
        Some(ExchangeError::InvalidPoolUsdtAccount)
    } else if bet_pool.live_liquidity > 0 {
        Some(ExchangeError::GamesAreLive)
    } else if pool.frozen_pool {
        Some(ExchangeError::PoolFrozen)
    } else {
        None
    }
}

/// The house pool's operations on its ledger.
pub struct Processor;

impl Processor {
    /// The shares minted for a deposit of `usdt_amount`: as many as the
    /// amount while no share exists, else the amount times the share supply
    /// over the pool's value, computed in 64.64 fixed point. Refused while
    /// markets are live or the pool is frozen.
    pub fn process_deposit(
        pool_state: &HpLiquidity,
        ht_mint: &AccountKey,
        pool_usdt: &AccountKey,
        ht_supply: u64,
        pool_usdt_amount: u64,
        bet_pool_state: &BettingPoolState,
        usdt_amount: u64,
    ) -> (r: Result<u64, ExchangeError>)
        ensures
            match pool_access_error(*pool_state, *ht_mint, *pool_usdt, *bet_pool_state) {
                Some(e) => r == Err::<u64, ExchangeError>(e),
                None => {
                    let value = pool_value(pool_usdt_amount, *bet_pool_state);
                    if ht_supply == 0 {
                        r == Ok::<u64, ExchangeError>(usdt_amount)
                    } else if value > u64::MAX || value == 0 || !scaled_quotient_fits(
                        ht_supply,
                        value as u64,
                        usdt_amount,
                    ) {
                        r == Err::<u64, ExchangeError>(ExchangeError::AmountOverflow)
                    } else {
                        r == Ok::<u64, ExchangeError>(
                            scaled_quotient(ht_supply, value as u64, usdt_amount) as u64,
                        )
                    }
                },
            },
    {
        if *ht_mint != pool_state.ht_mint {
            return Err(ExchangeError::InvalidHtMintAccount);
        }
        if *pool_usdt != pool_state.pool_usdt {
            return Err(ExchangeError::InvalidPoolUsdtAccount);
        }
        if bet_pool_state.live_liquidity > 0 {
            return Err(ExchangeError::GamesAreLive);
        }
        if pool_state.frozen_pool {
            return Err(ExchangeError::PoolFrozen);
        }
        if ht_supply == 0 {
            return Ok(usdt_amount);
        }
        let value = checked_pool_value(pool_usdt_amount, bet_pool_state)?;
        match fixed_div_mul(ht_supply, value, usdt_amount) {
            Some(v) => Ok(v),
            None => Err(ExchangeError::AmountOverflow),
        }
    }

    /// The tokens paid out for burning `ht_amount` shares: the pool's value
    /// over the share supply, times the shares, computed in 64.64 fixed
    /// point. Refused while markets are live, the pool is frozen, or the sum
    /// exceeds the pool's available liquidity.
    pub fn process_withdraw(
        pool_state: &HpLiquidity,
        ht_mint: &AccountKey,
        pool_usdt: &AccountKey,
        ht_supply: u64,
        pool_usdt_amount: u64,
        bet_pool_state: &BettingPoolState,
        ht_amount: u64,
    ) -> (r: Result<u64, ExchangeError>)
        ensures
            match pool_access_error(*pool_state, *ht_mint, *pool_usdt, *bet_pool_state) {
                Some(e) => r == Err::<u64, ExchangeError>(e),
                None => {
                    let value = pool_value(pool_usdt_amount, *bet_pool_state);
                    let paid = scaled_quotient(value as u64, ht_supply, ht_amount);
                    if value > u64::MAX || ht_supply == 0 || !scaled_quotient_fits(
                        value as u64,
                        ht_supply,
                        ht_amount,
                    ) || pool_usdt_amount < bet_pool_state.locked_liquidity {
                        r == Err::<u64, ExchangeError>(ExchangeError::AmountOverflow)
                    } else if paid > pool_usdt_amount - bet_pool_state.locked_liquidity {
                        r == Err::<u64, ExchangeError>(
                            ExchangeError::NotEnoughAvailableLiquidityForWithdrawal,
                        )
                    } else {
                        r == Ok::<u64, ExchangeError>(paid as u64)
                    }
                },
            },
    {
        if *ht_mint != pool_state.ht_mint {
            return Err(ExchangeError::InvalidHtMintAccount);
        }
        if *pool_usdt != pool_state.pool_usdt {
            return Err(ExchangeError::InvalidPoolUsdtAccount);
        }
        if bet_pool_state.live_liquidity > 0 {
            return Err(ExchangeError::GamesAreLive);
        }
        if pool_state.frozen_pool {
            return Err(ExchangeError::PoolFrozen);
        }
        let value = checked_pool_value(pool_usdt_amount, bet_pool_state)?;
        let usdt_amount = match fixed_div_mul(value, ht_supply, ht_amount) {
            Some(v) => v,
            None => return Err(ExchangeError::AmountOverflow),
        };
        let available_liquidity = calculate_available_liquidity(pool_usdt_amount, bet_pool_state)?;
        if usdt_amount > available_liquidity {
            return Err(ExchangeError::NotEnoughAvailableLiquidityForWithdrawal);
        }
        Ok(usdt_amount)
    }

    /// The ledger of a newly set up house pool.
    pub fn process_ownership(ht_mint: &AccountKey, betting_usdt: &AccountKey, pool_usdt: &AccountKey) -> (r:
        HpLiquidity)
        ensures
            r == (HpLiquidity {
                is_initialized: true,
                ht_mint: *ht_mint,
                betting_usdt: *betting_usdt,
                pool_usdt: *pool_usdt,
                frozen_pool: false,
            }),
    {
        HpLiquidity {
            is_initialized: true,
            ht_mint: *ht_mint,
            betting_usdt: *betting_usdt,
            pool_usdt: *pool_usdt,
            frozen_pool: false,
        }
    }

    /// Stops (`true`) or resumes (`false`) deposits and withdrawals.
    pub fn process_freeze(pool_state: &mut HpLiquidity, freeze_pool: bool)
        ensures
            *final(pool_state) == (HpLiquidity { frozen_pool: freeze_pool, ..*old(pool_state) }),
    {
        pool_state.frozen_pool = freeze_pool;
    }
}

} // verus!
