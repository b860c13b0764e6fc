use vstd::prelude::*;

use crate::error::ParserError;

verus! {

/// Version tag of a shielded transaction.
#[derive(Clone, Copy, PartialEq, Eq, Structural, Debug)]
pub enum TransactionVersion {
    V1,
    V2,
}

impl TransactionVersion {
    /// Reads a version tag from its wire byte: `1` and `2` are the only
    /// accepted values.
    pub fn try_from(value: u8) -> (r: Result<TransactionVersion, ParserError>)
        ensures
            match r {
                Ok(v) => (value == 1 && v == TransactionVersion::V1) || (value == 2 && v
                    == TransactionVersion::V2),
                Err(e) => value != 1 && value != 2 && e == ParserError::InvalidTxVersion,
            },
    {
        match value {
            1 => Ok(TransactionVersion::V1),
            2 => Ok(TransactionVersion::V2),
            _ => Err(ParserError::InvalidTxVersion),
        }
    }
}

} // verus!
