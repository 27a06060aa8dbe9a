use vstd::prelude::*;

use crate::bytes::{read_u16_le, read_u32_le, read_u64_le, u16_le, u32_le, u64_le};
use crate::error::ExchangeError;
use crate::state::{bet_type_of_code, BetType};

verus! {

/// The instructions of the betting program, as decoded from their bytes: a
/// tag byte, then the instruction's fields.
#[derive(Debug, Copy, Clone, PartialEq, Eq, Structural)]
#[allow(inconsistent_fields)]
pub enum ExchangeInstruction {
    Initbet {
        risk: u64,
        odds: u64,
        points: u16,
        market_side: u8,
        bet_type: BetType,
        bump_seed: u8,
    },
    SettleBet { bump_seed: u8 },
    SettlePNL { bump_seed: u8 },
    InitMarket { bump_seed: u8 },
    InitFuturesMarket { bump_seed: u8 },
    SettleMarket { bump_seed: u8 },
    Ownership { bump_seed: u8 },
    CommenceMarket { bump_seed: u8 },
    Freeze { freeze_betting: bool },
    InitBust { multiplier: u32 },
    InitBustBet { multiplier: u32, risk: u16 },
    SettleBustBet {},
}

/// The instruction that `input` encodes, if any.
///
/// After the tag: a bet carries its risk (`u64`), odds (`u64`), points
/// (`u16`), side and bet-type code, and ends with the bump seed; most other
/// instructions end with a bump seed; a freeze carries its flag; a crash-game
/// round carries its multiplier (`u32`), a crash-game bet its multiplier and
/// then its risk (`u16`).
pub open spec fn exchange_instruction_of(input: Seq<u8>) -> Option<ExchangeInstruction> {
    let rest = input.subrange(1, input.len() as int);
    if input.len() == 0 {
        None
    } else {
        let tag = input[0];
        if tag == 0 {
            if rest.len() >= 20 && bet_type_of_code(rest[19]).is_some() {
                Some(
                    ExchangeInstruction::Initbet {
                        risk: u64_le(rest, 0) as u64,
                        odds: u64_le(rest, 8) as u64,
                        points: u16_le(rest, 16) as u16,
                        market_side: rest[18],
                        bet_type: bet_type_of_code(rest[19]).unwrap(),
                        bump_seed: rest.last(),
                    },
                )
            } else {
                None
            }
        } else if tag == 6 {
            if rest.len() >= 1 {
                Some(ExchangeInstruction::Freeze { freeze_betting: rest[0] != 0 })
            } else {
                None
            }
        } else if tag == 9 {
            if rest.len() >= 4 {
                Some(ExchangeInstruction::InitBust { multiplier: u32_le(rest, 0) as u32 })
            } else {
                None
            }
        } else if tag == 10 {
            if rest.len() >= 6 {
                Some(
                    ExchangeInstruction::InitBustBet {
                        multiplier: u32_le(rest, 0) as u32,
                        risk: u16_le(rest, 4) as u16,
                    },
                )
            } else {
                None
            }
        } else if tag == 11 {
            Some(ExchangeInstruction::SettleBustBet {  })
        } else if tag <= 8 && rest.len() >= 1 {
            let bump_seed = rest.last();
            Some(
                if tag == 1 {
                    ExchangeInstruction::SettleBet { bump_seed }
                } else if tag == 2 {
                    ExchangeInstruction::InitMarket { bump_seed }
                } else if tag == 3 {
                    ExchangeInstruction::SettleMarket { bump_seed }
                } else if tag == 4 {
                    ExchangeInstruction::Ownership { bump_seed }
                } else if tag == 5 {
                    ExchangeInstruction::CommenceMarket { bump_seed }
                } else if tag == 7 {
                    ExchangeInstruction::SettlePNL { bump_seed }
                } else {
                    ExchangeInstruction::InitFuturesMarket { bump_seed }
                },
            )
        } else {
            None
        }
    }
}

impl ExchangeInstruction {
    /// Decodes an instruction; `InvalidInstruction` where the bytes encode
    /// none.
    pub fn unpack(input: &[u8]) -> (r: Result<ExchangeInstruction, ExchangeError>)
        ensures
            r == match exchange_instruction_of(input@) {
                Some(i) => Ok(i),
                None => Err(ExchangeError::InvalidInstruction),
            },
    {
        if input.len() == 0 {
            return Err(ExchangeError::InvalidInstruction);
        }
        let (head, rest) = input.split_at(1);
        let tag = head[0];
        assert(rest@ == input@.subrange(1, input@.len() as int));
        let instruction = match tag {
            0 => {
                if rest.len() < 20 {
                    return Err(ExchangeError::InvalidInstruction);
                }
                ExchangeInstruction::Initbet {
                    risk: Self::unpack_amount(rest)?,
                    odds: Self::unpack_odds(rest)?,
                    points: Self::unpack_points(rest)?,
                    market_side: Self::unpack_market_side(rest)?,
                    bet_type: BetType::unpack(&rest[19])?,
                    bump_seed: Self::unpack_last(rest)?,
                }
            },
            1 => ExchangeInstruction::SettleBet { bump_seed: Self::unpack_last(rest)? },
            2 => ExchangeInstruction::InitMarket { bump_seed: Self::unpack_last(rest)? },
            3 => ExchangeInstruction::SettleMarket { bump_seed: Self::unpack_last(rest)? },
            4 => ExchangeInstruction::Ownership { bump_seed: Self::unpack_last(rest)? },
            5 => ExchangeInstruction::CommenceMarket { bump_seed: Self::unpack_last(rest)? },
            6 => {
                if rest.len() == 0 {
                    return Err(ExchangeError::InvalidInstruction);
                }
                ExchangeInstruction::Freeze { freeze_betting: rest[0] != 0 }
            },
            7 => ExchangeInstruction::SettlePNL { bump_seed: Self::unpack_last(rest)? },
            8 => ExchangeInstruction::InitFuturesMarket { bump_seed: Self::unpack_last(rest)? },
            9 => ExchangeInstruction::InitBust { multiplier: Self::unpack_multiplier(rest)? },
            10 => ExchangeInstruction::InitBustBet {
                multiplier: Self::unpack_multiplier(rest)?,
                risk: Self::unpack_bust_risk(rest)?,
            },
            11 => ExchangeInstruction::SettleBustBet {  },
            _ => return Err(ExchangeError::InvalidInstruction),
        };
        Ok(instruction)
    }

    /// The last byte, which holds the bump seed.
    pub fn unpack_last(input: &[u8]) -> (r: Result<u8, ExchangeError>)
        ensures
            input@.len() == 0 ==> r == Err::<u8, ExchangeError>(ExchangeError::InvalidInstruction),
            input@.len() > 0 ==> r == Ok::<u8, ExchangeError>(input@.last()),
    {
        if input.len() == 0 {
            return Err(ExchangeError::InvalidInstruction);
        }
        Ok(input[input.len() - 1])
    }

    /// The crash-game multiplier in bytes 0 to 3.
    pub fn unpack_multiplier(input: &[u8]) -> (r: Result<u32, ExchangeError>)
        ensures
            input@.len() < 4 ==> r == Err::<u32, ExchangeError>(ExchangeError::InvalidInstruction),
            input@.len() >= 4 ==> r == Ok::<u32, ExchangeError>(u32_le(input@, 0) as u32),
    {
        if input.len() < 4 {
            return Err(ExchangeError::InvalidInstruction);
        }
        Ok(read_u32_le(input, 0))
    }

    /// The crash-game risk in bytes 4 and 5.
    pub fn unpack_bust_risk(input: &[u8]) -> (r: Result<u16, ExchangeError>)
        ensures
            input@.len() < 6 ==> r == Err::<u16, ExchangeError>(ExchangeError::InvalidInstruction),
            input@.len() >= 6 ==> r == Ok::<u16, ExchangeError>(u16_le(input@, 4) as u16),
    {
        if input.len() < 6 {
            return Err(ExchangeError::InvalidInstruction);
        }
        Ok(read_u16_le(input, 4))
    }

    /// The bet's risk in bytes 0 to 7.
    pub fn unpack_amount(input: &[u8]) -> (r: Result<u64, ExchangeError>)
        ensures
            input@.len() < 8 ==> r == Err::<u64, ExchangeError>(ExchangeError::InvalidInstruction),
            input@.len() >= 8 ==> r == Ok::<u64, ExchangeError>(u64_le(input@, 0) as u64),
    {
        if input.len() < 8 {
            return Err(ExchangeError::InvalidInstruction);
        }
        Ok(read_u64_le(input, 0))
    }

    /// The quoted odds in bytes 8 to 15.
    pub fn unpack_odds(input: &[u8]) -> (r: Result<u64, ExchangeError>)
        ensures
            input@.len() < 16 ==> r == Err::<u64, ExchangeError>(ExchangeError::InvalidInstruction),
            input@.len() >= 16 ==> r == Ok::<u64, ExchangeError>(u64_le(input@, 8) as u64),
    {
        if input.len() < 16 {
            return Err(ExchangeError::InvalidInstruction);
        }
        Ok(read_u64_le(input, 8))
    }

    /// The line in bytes 16 and 17.
    pub fn unpack_points(input: &[u8]) -> (r: Result<u16, ExchangeError>)
        ensures
            input@.len() < 18 ==> r == Err::<u16, ExchangeError>(ExchangeError::InvalidInstruction),
            input@.len() >= 18 ==> r == Ok::<u16, ExchangeError>(u16_le(input@, 16) as u16),
    {
        if input.len() < 18 {
            return Err(ExchangeError::InvalidInstruction);
        }
        Ok(read_u16_le(input, 16))
    }

    /// The side in byte 18.
    pub fn unpack_market_side(input: &[u8]) -> (r: Result<u8, ExchangeError>)
        ensures
            input@.len() < 19 ==> r == Err::<u8, ExchangeError>(ExchangeError::InvalidInstruction),
            input@.len() >= 19 ==> r == Ok::<u8, ExchangeError>(input@[18]),
    {
        if input.len() < 19 {
            return Err(ExchangeError::InvalidInstruction);
        }
        Ok(input[18])
    }
}

} // verus!
