//! Parsers for the structured payloads that arrive in the session buffer:
//! fixed-stride records, homogeneous runs of records, and the shielded
//! transaction layout.

pub mod tx_version;
pub mod burns;
pub mod mints;
pub mod outputs;
pub mod spends;
pub mod round;
pub mod transaction;

pub use burns::Burn;
pub use mints::Mint;
pub use outputs::Output;
pub use spends::Spend;
pub use round::parse_round;
pub use transaction::Transaction;
pub use tx_version::TransactionVersion;
