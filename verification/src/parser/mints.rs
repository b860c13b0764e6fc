use vstd::prelude::*;

use crate::deserialize::Deserializable;
use crate::error::ParserError;

verus! {

/// Size in bytes of one fixed-stride mints record.
pub const MINT_LEN: usize = 325;

/// A mint description record: the fixed-size bytes of one element of the
/// transaction's mints run, materialized into owned storage.
pub struct Mint {
    pub raw: Vec<u8>,
}

impl View for Mint {
    type V = Seq<u8>;

    open spec fn view(&self) -> Seq<u8> {
        self.raw@
    }
}

impl Deserializable for Mint {
    open spec fn spec_parse(bytes: Seq<u8>) -> Option<Seq<u8>> {
        if bytes.len() >= MINT_LEN {
            Some(bytes.take(MINT_LEN as int))
        } else {
            None
        }
    }

    fn from_bytes(input: &[u8]) -> (r: Result<Self, ParserError>) {
        if input.len() < MINT_LEN {
            return Err(ParserError::UnexpectedBufferEnd);
        }
        let raw = vstd::slice::slice_to_vec(vstd::slice::slice_subrange(input, 0, MINT_LEN));
        proof {
            assert(raw@ =~= input@.take(MINT_LEN as int));
        }
        Ok(Mint { raw })
    }
}

} // verus!
