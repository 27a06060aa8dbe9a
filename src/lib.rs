//! Risk accounting and settlement for a fixed-odds betting exchange backed by
//! a shared liquidity pool.
//!
//! The library holds the ledgers (pool, market, bet), the worst-case lock
//! calculator, the bet outcome resolver, bet placement, per-bet and per-market
//! settlement with the profit split, and the decoders of the instruction
//! formats. Reading accounts, moving tokens and querying price feeds are left
//! to the caller, which hands the library plain values and performs the
//! transfers that the library returns.

pub mod bytes;
pub mod error;
pub mod state;
pub mod risk;
pub mod processor;
pub mod instruction;
pub mod house;
pub mod layout;
