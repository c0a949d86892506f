//! A time-locked escrow ledger: a vesting record holds a fixed list of
//! release schedules and settles each tranche exactly once, under the
//! control of a keyless authority derived from the record's seed.
pub mod account;
pub mod authority;
pub mod error;
pub mod instructions;
pub mod laws;
pub mod record;
pub mod schedule;
