use vstd::prelude::*;

use crate::deserialize::Deserializable;
use crate::error::ParserError;

verus! {

/// Size in bytes of one fixed-stride burns record.
pub const BURN_LEN: usize = 40;

/// A burn description (asset identifier and value) record: the fixed-size bytes of one element of the
/// transaction's burns run, materialized into owned storage.
pub struct Burn {
    pub raw: Vec<u8>,
}

impl View for Burn {
    type V = Seq<u8>;

    open spec fn view(&self) -> Seq<u8> {
        self.raw@
    }
}

impl Deserializable for Burn {
    open spec fn spec_parse(bytes: Seq<u8>) -> Option<Seq<u8>> {
        if bytes.len() >= BURN_LEN {
            Some(bytes.take(BURN_LEN as int))
        } else {
            None
        }
    }

    fn from_bytes(input: &[u8]) -> (r: Result<Self, ParserError>) {
        if input.len() < BURN_LEN {
            return Err(ParserError::UnexpectedBufferEnd);
        }
        let raw = vstd::slice::slice_to_vec(vstd::slice::slice_subrange(input, 0, BURN_LEN));
        proof {
            assert(raw@ =~= input@.take(BURN_LEN as int));
        }
        Ok(Burn { raw })
    }
}

} // verus!
