//! The Bitcoin Core `31` RPC methods: each method's request options, and
//! how its arguments encode into its positional parameters.

pub mod blockchain;
pub mod control;
pub mod generating;
pub mod hidden;
pub mod mining;
pub mod network;
pub mod raw_transactions;
pub mod signer;
pub mod util;
pub mod wallet;
