use vstd::prelude::*;

use crate::bytes::{read_u16_le, read_u32_le, read_u64_le, u16_le, u32_le, u64_le};
use crate::error::ExchangeError;
use crate::house::HpLiquidity;
use crate::state::{
    bet_type_code, bet_type_of_code, outcome_code, outcome_of_code, verdict_code, verdict_of_code,
    AccountKey, Bet, BetType, BetVerdict, BettingPoolState, BustBet, Market, MarketOutcome,
    MarketSide, Multiplier, SolBust,
};

verus! {

/// A `u16` as two little-endian bytes.
pub open spec fn u16_bytes(v: u16) -> Seq<u8> {
    seq![(v & 0xff) as u8, (v >> 8) as u8]
}

/// A `u32` as four little-endian bytes.
pub open spec fn u32_bytes(v: u32) -> Seq<u8> {
    seq![(v & 0xff) as u8, ((v >> 8) & 0xff) as u8, ((v >> 16) & 0xff) as u8, (v >> 24) as u8]
}

/// A `u64` as eight little-endian bytes.
pub open spec fn u64_bytes(v: u64) -> Seq<u8> {
    seq![
        (v & 0xff) as u8,
        ((v >> 8) & 0xff) as u8,
        ((v >> 16) & 0xff) as u8,
        ((v >> 24) & 0xff) as u8,
        ((v >> 32) & 0xff) as u8,
        ((v >> 40) & 0xff) as u8,
        ((v >> 48) & 0xff) as u8,
        (v >> 56) as u8,
    ]
}

/// A flag as one byte, 1 or 0.
pub open spec fn bool_byte(b: bool) -> Seq<u8> {
    seq![if b { 1u8 } else { 0u8 }]
}

/// An optional key as 33 bytes: a 1 and the key, or 33 zeros.
pub open spec fn opt_key_bytes(k: Option<AccountKey>) -> Seq<u8> {
    match k {
        Some(key) => seq![1u8] + key.bytes@,
        None => Seq::new(33, |i: int| 0u8),
    }
}

/// The 32 bytes of `s` at `at`.
pub open spec fn key_at(s: Seq<u8>, at: int) -> Seq<u8> {
    s.subrange(at, at + 32)
}

/// The optional key stored in 33 bytes of `s` at `at`, or `None` where the
/// tag byte is neither 0 nor 1.
pub open spec fn opt_key_at(s: Seq<u8>, at: int) -> Option<Option<Seq<u8>>> {
    if s[at] == 0 {
        Some(None)
    } else if s[at] == 1 {
        Some(Some(s.subrange(at + 1, at + 33)))
    } else {
        None
    }
}

/// The key's bytes, for comparing with what a record holds.
pub open spec fn opt_key_view(k: Option<AccountKey>) -> Option<Seq<u8>> {
    match k {
        Some(key) => Some(key.bytes@),
        None => None,
    }
}

pub fn push_u16(out: &mut Vec<u8>, v: u16)
    ensures
        final(out)@ == old(out)@ + u16_bytes(v),
{
    out.push((v & 0xff) as u8);
    out.push((v >> 8) as u8);
    assert(final(out)@ =~= old(out)@ + u16_bytes(v));
}

pub fn push_u32(out: &mut Vec<u8>, v: u32)
    ensures
        final(out)@ == old(out)@ + u32_bytes(v),
{
    out.push((v & 0xff) as u8);
    out.push(((v >> 8) & 0xff) as u8);
    out.push(((v >> 16) & 0xff) as u8);
    out.push((v >> 24) as u8);
    assert(final(out)@ =~= old(out)@ + u32_bytes(v));
}

pub fn push_u64(out: &mut Vec<u8>, v: u64)
    ensures
        final(out)@ == old(out)@ + u64_bytes(v),
{
    out.push((v & 0xff) as u8);
    out.push(((v >> 8) & 0xff) as u8);
    out.push(((v >> 16) & 0xff) as u8);
    out.push(((v >> 24) & 0xff) as u8);
    out.push(((v >> 32) & 0xff) as u8);
    out.push(((v >> 40) & 0xff) as u8);
    out.push(((v >> 48) & 0xff) as u8);
    out.push((v >> 56) as u8);
    assert(final(out)@ =~= old(out)@ + u64_bytes(v));
}

pub fn push_bool(out: &mut Vec<u8>, b: bool)
    ensures
        final(out)@ == old(out)@ + bool_byte(b),
{
    out.push(if b { 1u8 } else { 0u8 });
    assert(final(out)@ =~= old(out)@ + bool_byte(b));
}

pub fn push_key(out: &mut Vec<u8>, k: &AccountKey)
    ensures
        final(out)@ == old(out)@ + k.bytes@,
{
    let ghost start = out@;
    let mut i: usize = 0;
    while i < 32
        invariant
            0 <= i <= 32,
            out@ == start + k.bytes@.subrange(0, i as int),
        decreases 32 - i,
    {
        out.push(k.bytes[i]);
        i = i + 1;
        assert(out@ =~= start + k.bytes@.subrange(0, i as int));
    }
    assert(k.bytes@.subrange(0, 32) =~= k.bytes@);
}

/// Writes an optional key in its 33-byte form: a 1 and the key, or zeros.
pub fn pack_pubkey_option(value: &Option<AccountKey>, out: &mut Vec<u8>)
    ensures
        final(out)@ == old(out)@ + opt_key_bytes(*value),
{
    match value {
        Some(key) => {
            out.push(1u8);
            push_key(out, key);
            assert(final(out)@ =~= old(out)@ + opt_key_bytes(*value));
        },
        None => {
            let ghost start = out@;
            let mut i: usize = 0;
            while i < 33
                invariant
                    0 <= i <= 33,
                    out@ == start + Seq::new(i as nat, |j: int| 0u8),
                decreases 33 - i,
            {
                out.push(0u8);
                i = i + 1;
                assert(out@ =~= start + Seq::new(i as nat, |j: int| 0u8));
            }
        },
    }
}

/// The key in the 32 bytes of `s` at `at`.
pub fn read_key(s: &[u8], at: usize) -> (r: AccountKey)
    requires
        at + 32 <= s@.len(),
    ensures
        r.bytes@ == key_at(s@, at as int),
{
    let mut bytes = [0u8; 32];
    let n = s.len();
    let mut i: usize = 0;
    while i < 32
        invariant
            0 <= i <= 32,
            n == s@.len(),
            at + 32 <= n,
            bytes@.len() == 32,
            forall|j: int| 0 <= j < i ==> bytes@[j] == s@[at + j],
        decreases 32 - i,
    {
        bytes[i] = s[at + i];
        i = i + 1;
    }
    assert(bytes@ =~= key_at(s@, at as int));
    AccountKey { bytes }
}

/// Reads an optional key from its 33-byte form at `at`;
/// `InvalidInstruction` where the tag byte is neither 0 nor 1.
pub fn unpack_pubkey_option(s: &[u8], at: usize) -> (r: Result<Option<AccountKey>, ExchangeError>)
    requires
        at + 33 <= s@.len(),
    ensures
        opt_key_at(s@, at as int) is None ==> r == Err::<Option<AccountKey>, ExchangeError>(
            ExchangeError::InvalidInstruction,
        ),
        opt_key_at(s@, at as int) is Some ==> r.is_ok() && Some(opt_key_view(r.unwrap()))
            == opt_key_at(s@, at as int),
{
    if s[at] == 0 {
        Ok(None)
    } else if s[at] == 1 {
        let key = read_key(s, at + 1);
        Ok(Some(key))
    } else {
        Err(ExchangeError::InvalidInstruction)
    }
}

/// Copies `bytes` to the front of `dst`.
pub fn copy_to_front(bytes: &Vec<u8>, dst: &mut [u8])
    requires
        bytes@.len() <= old(dst)@.len(),
    ensures
        final(dst)@ == bytes@ + old(dst)@.subrange(bytes@.len() as int, old(dst)@.len() as int),
{
    let n = bytes.len();
    let mut i: usize = 0;
    while i < n
        invariant
            n == bytes@.len(),
            0 <= i <= n,
            n <= dst@.len(),
            dst@.len() == old(dst)@.len(),
            forall|j: int| 0 <= j < i ==> dst@[j] == bytes@[j],
            forall|j: int| i <= j < dst@.len() ==> dst@[j] == old(dst)@[j],
        decreases n - i,
    {
        dst[i] = bytes[i];
        i = i + 1;
    }
    assert(dst@ =~= bytes@ + old(dst)@.subrange(n as int, old(dst)@.len() as int));
}

/// The stored form of the pool ledger.
pub open spec fn pool_bytes(p: BettingPoolState) -> Seq<u8> {
    bool_byte(p.is_initialized) + u64_bytes(p.locked_liquidity) + u64_bytes(p.live_liquidity)
        + u64_bytes(p.pending_bets) + p.house_pool_usdt.bytes@ + p.betting_pool_usdt.bytes@
        + p.insurance_fund_usdt.bytes@ + p.divvy_foundation_proceeds_usdt.bytes@ + bool_byte(
        p.frozen_betting,
    )
}

/// What the pool ledger stored in `s` holds: any nonzero flag byte is set.
pub open spec fn pool_read_from(s: Seq<u8>, p: BettingPoolState) -> bool {
    &&& p.is_initialized == (s[0] != 0)
    &&& p.locked_liquidity == u64_le(s, 1)
    &&& p.live_liquidity == u64_le(s, 9)
    &&& p.pending_bets == u64_le(s, 17)
    &&& p.house_pool_usdt.bytes@ == key_at(s, 25)
    &&& p.betting_pool_usdt.bytes@ == key_at(s, 57)
    &&& p.insurance_fund_usdt.bytes@ == key_at(s, 89)
    &&& p.divvy_foundation_proceeds_usdt.bytes@ == key_at(s, 121)
    &&& p.frozen_betting == (s[153] != 0)
}

impl BettingPoolState {
    pub const LEN: usize = 154;

    pub fn unpack_from_slice(src: &[u8]) -> (r: BettingPoolState)
        requires
            src@.len() >= 154,
        ensures
            pool_read_from(src@, r),
    {
        BettingPoolState {
            is_initialized: src[0] != 0,
            locked_liquidity: read_u64_le(src, 1),
            live_liquidity: read_u64_le(src, 9),
            pending_bets: read_u64_le(src, 17),
            house_pool_usdt: read_key(src, 25),
            betting_pool_usdt: read_key(src, 57),
            insurance_fund_usdt: read_key(src, 89),
            divvy_foundation_proceeds_usdt: read_key(src, 121),
            frozen_betting: src[153] != 0,
        }
    }

    pub fn pack_into_slice(&self, dst: &mut [u8])
        requires
            old(dst)@.len() >= 154,
        ensures
            final(dst)@ == pool_bytes(*self) + old(dst)@.subrange(154, old(dst)@.len() as int),
    {
        let mut out: Vec<u8> = Vec::new();
        push_bool(&mut out, self.is_initialized);
        push_u64(&mut out, self.locked_liquidity);
        push_u64(&mut out, self.live_liquidity);
        push_u64(&mut out, self.pending_bets);
        push_key(&mut out, &self.house_pool_usdt);
        push_key(&mut out, &self.betting_pool_usdt);
        push_key(&mut out, &self.insurance_fund_usdt);
        push_key(&mut out, &self.divvy_foundation_proceeds_usdt);
        push_bool(&mut out, self.frozen_betting);
        assert(out@ =~= pool_bytes(*self));
        copy_to_front(&out, dst);
    }
}

} // verus!

verus! {

/// The stored form of one market side.
pub open spec fn side_bytes(side: MarketSide) -> Seq<u8> {
    opt_key_bytes(side.odds_feed_account) + opt_key_bytes(side.points_feed_account) + u64_bytes(
        side.payout,
    ) + u64_bytes(side.risk)
}

/// The stored form of a market.
pub open spec fn market_bytes(m: Market) -> Seq<u8> {
    bool_byte(m.is_initialized) + side_bytes(m.market_sides@[0]) + side_bytes(m.market_sides@[1])
        + side_bytes(m.market_sides@[2]) + u64_bytes(m.locked_liquidity) + m.result_feed.bytes@
        + seq![outcome_code(m.result)] + u64_bytes(m.bettor_balance) + u64_bytes(m.pending_bets)
        + u16_bytes(m.team_a_score) + u16_bytes(m.team_b_score) + u16_bytes(m.total_score)
}

/// The 82 bytes at `at` hold a side whose key tags are 0 or 1.
pub open spec fn side_readable(s: Seq<u8>, at: int) -> bool {
    opt_key_at(s, at) is Some && opt_key_at(s, at + 33) is Some
}

/// What the side stored in the 82 bytes of `s` at `at` holds.
pub open spec fn side_read_from(s: Seq<u8>, at: int, side: MarketSide) -> bool {
    &&& Some(opt_key_view(side.odds_feed_account)) == opt_key_at(s, at)
    &&& Some(opt_key_view(side.points_feed_account)) == opt_key_at(s, at + 33)
    &&& side.payout == u64_le(s, at + 66)
    &&& side.risk == u64_le(s, at + 74)
}

/// The market stored in `s` can be read: its flag byte is 0 or 1, and its
/// key tags and phase code are valid.
pub open spec fn market_readable(s: Seq<u8>) -> bool {
    &&& s[0] == 0 || s[0] == 1
    &&& side_readable(s, 1)
    &&& side_readable(s, 83)
    &&& side_readable(s, 165)
    &&& outcome_of_code(s[287]) is Some
}

/// What the market stored in `s` holds.
pub open spec fn market_read_from(s: Seq<u8>, m: Market) -> bool {
    &&& m.is_initialized == (s[0] == 1)
    &&& side_read_from(s, 1, m.market_sides@[0])
    &&& side_read_from(s, 83, m.market_sides@[1])
    &&& side_read_from(s, 165, m.market_sides@[2])
    &&& m.locked_liquidity == u64_le(s, 247)
    &&& m.result_feed.bytes@ == key_at(s, 255)
    &&& Some(m.result) == outcome_of_code(s[287])
    &&& m.bettor_balance == u64_le(s, 288)
    &&& m.pending_bets == u64_le(s, 296)
    &&& m.team_a_score == u16_le(s, 304)
    &&& m.team_b_score == u16_le(s, 306)
    &&& m.total_score == u16_le(s, 308)
}

fn push_side(out: &mut Vec<u8>, side: &MarketSide)
    ensures
        final(out)@ == old(out)@ + side_bytes(*side),
{
    pack_pubkey_option(&side.odds_feed_account, out);
    pack_pubkey_option(&side.points_feed_account, out);
    push_u64(out, side.payout);
    push_u64(out, side.risk);
    assert(final(out)@ =~= old(out)@ + side_bytes(*side));
}

fn read_side(s: &[u8], at: usize) -> (r: Result<MarketSide, ExchangeError>)
    requires
        at + 82 <= s@.len(),
    ensures
        side_readable(s@, at as int) ==> r.is_ok() && side_read_from(s@, at as int, r.unwrap()),
        !side_readable(s@, at as int) ==> r == Err::<MarketSide, ExchangeError>(
            ExchangeError::InvalidInstruction,
        ),
{
    let len = s.len();
    assert(at + 82 <= len);
    let odds_feed_account = unpack_pubkey_option(s, at)?;
    let points_feed_account = unpack_pubkey_option(s, at + 33)?;
    Ok(
        MarketSide {
            odds_feed_account,
            points_feed_account,
            payout: read_u64_le(s, at + 66),
            risk: read_u64_le(s, at + 74),
        },
    )
}

/// Reads a stored flag that must be 0 or 1; `InvalidAccountData` otherwise.
fn read_strict_flag(b: u8) -> (r: Result<bool, ExchangeError>)
    ensures
        b == 0 ==> r == Ok::<bool, ExchangeError>(false),
        b == 1 ==> r == Ok::<bool, ExchangeError>(true),
        b > 1 ==> r == Err::<bool, ExchangeError>(ExchangeError::InvalidAccountData),
{
    match b {
        0 => Ok(false),
        1 => Ok(true),
        _ => Err(ExchangeError::InvalidAccountData),
    }
}

impl Market {
    pub const LEN: usize = 310;

    /// Reads a stored market: `InvalidAccountData` where its flag byte is
    /// neither 0 nor 1, `InvalidInstruction` where a key tag or the phase
    /// code is invalid.
    pub fn unpack_from_slice(src: &[u8]) -> (r: Result<Market, ExchangeError>)
        requires
            src@.len() >= 310,
        ensures
            market_readable(src@) ==> r.is_ok() && market_read_from(src@, r.unwrap()),
            src@[0] > 1 ==> r == Err::<Market, ExchangeError>(ExchangeError::InvalidAccountData),
            src@[0] <= 1 && !market_readable(src@) ==> r == Err::<Market, ExchangeError>(
                ExchangeError::InvalidInstruction,
            ),
    {
        let is_initialized = read_strict_flag(src[0])?;
        let side_0 = read_side(src, 1)?;
        let side_1 = read_side(src, 83)?;
        let side_2 = read_side(src, 165)?;
        let result = MarketOutcome::unpack(&src[287])?;
        let m = Market {
            is_initialized,
            market_sides: [side_0, side_1, side_2],
            locked_liquidity: read_u64_le(src, 247),
            result_feed: read_key(src, 255),
            result,
            bettor_balance: read_u64_le(src, 288),
            pending_bets: read_u64_le(src, 296),
            team_a_score: read_u16_le(src, 304),
            team_b_score: read_u16_le(src, 306),
            total_score: read_u16_le(src, 308),
        };
        Ok(m)
    }

    pub fn pack_into_slice(&self, dst: &mut [u8])
        requires
            old(dst)@.len() >= 310,
        ensures
            final(dst)@ == market_bytes(*self) + old(dst)@.subrange(310, old(dst)@.len() as int),
    {
        let mut out: Vec<u8> = Vec::new();
        push_bool(&mut out, self.is_initialized);
        push_side(&mut out, &self.market_sides[0]);
        push_side(&mut out, &self.market_sides[1]);
        push_side(&mut out, &self.market_sides[2]);
        push_u64(&mut out, self.locked_liquidity);
        push_key(&mut out, &self.result_feed);
        out.push(self.result.pack());
        push_u64(&mut out, self.bettor_balance);
        push_u64(&mut out, self.pending_bets);
        push_u16(&mut out, self.team_a_score);
        push_u16(&mut out, self.team_b_score);
        push_u16(&mut out, self.total_score);
        assert(out@ =~= market_bytes(*self));
        copy_to_front(&out, dst);
    }
}

/// The stored form of a bet.
pub open spec fn bet_bytes(b: Bet) -> Seq<u8> {
    bool_byte(b.is_initialized) + b.market.bytes@ + b.user_usdt_account.bytes@
        + b.user_main_account.bytes@ + u64_bytes(b.user_risk) + u64_bytes(b.user_payout) + u16_bytes(
        b.points,
    ) + seq![b.user_market_side, verdict_code(b.outcome), bet_type_code(b.bet_type)]
}

/// The bet stored in `s` can be read: flag 0 or 1, valid verdict and type
/// codes.
pub open spec fn bet_readable(s: Seq<u8>) -> bool {
    &&& s[0] == 0 || s[0] == 1
    &&& verdict_of_code(s[116]) is Some
    &&& bet_type_of_code(s[117]) is Some
}

/// What the bet stored in `s` holds.
pub open spec fn bet_read_from(s: Seq<u8>, b: Bet) -> bool {
    &&& b.is_initialized == (s[0] == 1)
    &&& b.market.bytes@ == key_at(s, 1)
    &&& b.user_usdt_account.bytes@ == key_at(s, 33)
    &&& b.user_main_account.bytes@ == key_at(s, 65)
    &&& b.user_risk == u64_le(s, 97)
    &&& b.user_payout == u64_le(s, 105)
    &&& b.points == u16_le(s, 113)
    &&& b.user_market_side == s[115]
    &&& Some(b.outcome) == verdict_of_code(s[116])
    &&& Some(b.bet_type) == bet_type_of_code(s[117])
}

impl Bet {
    pub const LEN: usize = 118;

    /// Reads a stored bet: `InvalidAccountData` where its flag byte or
    /// verdict code is invalid, `InvalidInstruction` where its type code is.
    pub fn unpack_from_slice(src: &[u8]) -> (r: Result<Bet, ExchangeError>)
        requires
            src@.len() >= 118,
        ensures
            bet_readable(src@) ==> r.is_ok() && bet_read_from(src@, r.unwrap()),
            src@[0] > 1 || (src@[0] <= 1 && verdict_of_code(src@[116]) is None) ==> r == Err::<
                Bet,
                ExchangeError,
            >(ExchangeError::InvalidAccountData),
            src@[0] <= 1 && verdict_of_code(src@[116]) is Some && bet_type_of_code(src@[117]) is None
                ==> r == Err::<Bet, ExchangeError>(ExchangeError::InvalidInstruction),
    {
        let is_initialized = read_strict_flag(src[0])?;
        let outcome = BetVerdict::unpack(&src[116])?;
        let bet_type = BetType::unpack(&src[117])?;
        Ok(
            Bet {
                is_initialized,
                market: read_key(src, 1),
                user_usdt_account: read_key(src, 33),
                user_main_account: read_key(src, 65),
                user_risk: read_u64_le(src, 97),
                user_payout: read_u64_le(src, 105),
                points: read_u16_le(src, 113),
                user_market_side: src[115],
                outcome,
                bet_type,
            },
        )
    }

    pub fn pack_into_slice(&self, dst: &mut [u8])
        requires
            old(dst)@.len() >= 118,
        ensures
            final(dst)@ == bet_bytes(*self) + old(dst)@.subrange(118, old(dst)@.len() as int),
    {
        let mut out: Vec<u8> = Vec::new();
        push_bool(&mut out, self.is_initialized);
        push_key(&mut out, &self.market);
        push_key(&mut out, &self.user_usdt_account);
        push_key(&mut out, &self.user_main_account);
        push_u64(&mut out, self.user_risk);
        push_u64(&mut out, self.user_payout);
        push_u16(&mut out, self.points);
        out.push(self.user_market_side);
        out.push(self.outcome.pack());
        out.push(self.bet_type.pack());
        assert(out@ =~= bet_bytes(*self));
        copy_to_front(&out, dst);
    }
}

/// The stored form of the house pool ledger.
pub open spec fn hp_liquidity_bytes(h: HpLiquidity) -> Seq<u8> {
    bool_byte(h.is_initialized) + h.ht_mint.bytes@ + h.betting_usdt.bytes@ + h.pool_usdt.bytes@
        + bool_byte(h.frozen_pool)
}

impl HpLiquidity {
    pub const LEN: usize = 98;

    /// Reads the stored house pool ledger; any nonzero flag byte is set.
    pub fn unpack_from_slice(src: &[u8]) -> (r: HpLiquidity)
        requires
            src@.len() >= 98,
        ensures
            r.is_initialized == (src@[0] != 0),
            r.ht_mint.bytes@ == key_at(src@, 1),
            r.betting_usdt.bytes@ == key_at(src@, 33),
            r.pool_usdt.bytes@ == key_at(src@, 65),
            r.frozen_pool == (src@[97] != 0),
    {
        HpLiquidity {
            is_initialized: src[0] != 0,
            ht_mint: read_key(src, 1),
            betting_usdt: read_key(src, 33),
            pool_usdt: read_key(src, 65),
            frozen_pool: src[97] != 0,
        }
    }

    pub fn pack_into_slice(&self, dst: &mut [u8])
        requires
            old(dst)@.len() >= 98,
        ensures
            final(dst)@ == hp_liquidity_bytes(*self) + old(dst)@.subrange(98, old(dst)@.len() as int),
    {
        let mut out: Vec<u8> = Vec::new();
        push_bool(&mut out, self.is_initialized);
        push_key(&mut out, &self.ht_mint);
        push_key(&mut out, &self.betting_usdt);
        push_key(&mut out, &self.pool_usdt);
        push_bool(&mut out, self.frozen_pool);
        assert(out@ =~= hp_liquidity_bytes(*self));
        copy_to_front(&out, dst);
    }
}

/// The stored form of the crash-game state.
pub open spec fn sol_bust_bytes(b: SolBust) -> Seq<u8> {
    bool_byte(b.is_initialized) + b.current_pubkey.bytes@ + b.previous_pubkey.bytes@ + u32_bytes(
        b.current_multiplier,
    ) + u32_bytes(b.previous_multiplier)
}

impl SolBust {
    pub const LEN: usize = 73;

    /// Reads the stored crash-game state; `InvalidAccountData` where its flag
    /// byte is neither 0 nor 1.
    pub fn unpack_from_slice(src: &[u8]) -> (r: Result<SolBust, ExchangeError>)
        requires
            src@.len() >= 73,
        ensures
            src@[0] > 1 ==> r == Err::<SolBust, ExchangeError>(ExchangeError::InvalidAccountData),
            src@[0] <= 1 ==> {
                &&& r.is_ok()
                &&& r.unwrap().is_initialized == (src@[0] == 1)
                &&& r.unwrap().current_pubkey.bytes@ == key_at(src@, 1)
                &&& r.unwrap().previous_pubkey.bytes@ == key_at(src@, 33)
                &&& r.unwrap().current_multiplier == u32_le(src@, 65)
                &&& r.unwrap().previous_multiplier == u32_le(src@, 69)
            },
    {
        let is_initialized = read_strict_flag(src[0])?;
        Ok(
            SolBust {
                is_initialized,
                current_pubkey: read_key(src, 1),
                previous_pubkey: read_key(src, 33),
                current_multiplier: read_u32_le(src, 65),
                previous_multiplier: read_u32_le(src, 69),
            },
        )
    }

    pub fn pack_into_slice(&self, dst: &mut [u8])
        requires
            old(dst)@.len() >= 73,
        ensures
            final(dst)@ == sol_bust_bytes(*self) + old(dst)@.subrange(73, old(dst)@.len() as int),
    {
        let mut out: Vec<u8> = Vec::new();
        push_bool(&mut out, self.is_initialized);
        push_key(&mut out, &self.current_pubkey);
        push_key(&mut out, &self.previous_pubkey);
        push_u32(&mut out, self.current_multiplier);
        push_u32(&mut out, self.previous_multiplier);
        assert(out@ =~= sol_bust_bytes(*self));
        copy_to_front(&out, dst);
    }
}

/// The stored form of a crash-game bet.
pub open spec fn bust_bet_bytes(b: BustBet) -> Seq<u8> {
    b.user_main_pubkey.bytes@ + b.user_usdt_pubkey.bytes@ + u16_bytes(b.risk) + u32_bytes(
        b.user_multiplier,
    ) + b.actual_multiplier_pubkey.bytes@
}

impl BustBet {
    pub const LEN: usize = 102;

    pub fn unpack(input: &[u8]) -> (r: BustBet)
        requires
            input@.len() >= 102,
        ensures
            r.user_main_pubkey.bytes@ == key_at(input@, 0),
            r.user_usdt_pubkey.bytes@ == key_at(input@, 32),
            r.risk == u16_le(input@, 64),
            r.user_multiplier == u32_le(input@, 66),
            r.actual_multiplier_pubkey.bytes@ == key_at(input@, 70),
    {
        BustBet {
            user_main_pubkey: read_key(input, 0),
            user_usdt_pubkey: read_key(input, 32),
            risk: read_u16_le(input, 64),
            user_multiplier: read_u32_le(input, 66),
            actual_multiplier_pubkey: read_key(input, 70),
        }
    }

    pub fn pack(&self, dst: &mut [u8])
        requires
            old(dst)@.len() >= 102,
        ensures
            final(dst)@ == bust_bet_bytes(*self) + old(dst)@.subrange(102, old(dst)@.len() as int),
    {
        let mut out: Vec<u8> = Vec::new();
        push_key(&mut out, &self.user_main_pubkey);
        push_key(&mut out, &self.user_usdt_pubkey);
        push_u16(&mut out, self.risk);
        push_u32(&mut out, self.user_multiplier);
        push_key(&mut out, &self.actual_multiplier_pubkey);
        assert(out@ =~= bust_bet_bytes(*self));
        copy_to_front(&out, dst);
    }
}

/// The stored form of a crash-game round.
pub open spec fn multiplier_bytes(m: Multiplier) -> Seq<u8> {
    u32_bytes(m.multiplier) + u64_bytes(m.counter) + bool_byte(m.busted)
}

impl Multiplier {
    pub const LEN: usize = 13;

    /// Reads a stored round; `InvalidAccountData` where its flag byte is
    /// neither 0 nor 1.
    pub fn unpack(input: &[u8]) -> (r: Result<Multiplier, ExchangeError>)
        requires
            input@.len() >= 13,
        ensures
            input@[12] > 1 ==> r == Err::<Multiplier, ExchangeError>(
                ExchangeError::InvalidAccountData,
            ),
            input@[12] <= 1 ==> r == Ok::<Multiplier, ExchangeError>(
                Multiplier {
                    multiplier: u32_le(input@, 0) as u32,
                    counter: u64_le(input@, 4) as u64,
                    busted: input@[12] == 1,
                },
            ),
    {
        let busted = read_strict_flag(input[12])?;
        Ok(
            Multiplier {
                multiplier: read_u32_le(input, 0),
                counter: read_u64_le(input, 4),
                busted,
            },
        )
    }

    pub fn pack(&self, dst: &mut [u8])
        requires
            old(dst)@.len() >= 13,
        ensures
            final(dst)@ == multiplier_bytes(*self) + old(dst)@.subrange(13, old(dst)@.len() as int),
    {
        let mut out: Vec<u8> = Vec::new();
        push_u32(&mut out, self.multiplier);
        push_u64(&mut out, self.counter);
        push_bool(&mut out, self.busted);
        assert(out@ =~= multiplier_bytes(*self));
        copy_to_front(&out, dst);
    }
}

} // verus!
