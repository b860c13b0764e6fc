use vstd::prelude::*;

use crate::deserialize::Deserializable;
use crate::error::ParserError;

verus! {

/// Size in bytes of one fixed-stride spends record.
pub const SPEND_LEN: usize = 388;

/// A spend description record: the fixed-size bytes of one element of the
/// transaction's spends run, materialized into owned storage.
pub struct Spend {
    pub raw: Vec<u8>,
}

impl View for Spend {
    type V = Seq<u8>;

    open spec fn view(&self) -> Seq<u8> {
        self.raw@
    }
}

impl Deserializable for Spend {
    open spec fn spec_parse(bytes: Seq<u8>) -> Option<Seq<u8>> {
        if bytes.len() >= SPEND_LEN {
            Some(bytes.take(SPEND_LEN as int))
        } else {
            None
        }
    }

    fn from_bytes(input: &[u8]) -> (r: Result<Self, ParserError>) {
        if input.len() < SPEND_LEN {
            return Err(ParserError::UnexpectedBufferEnd);
        }
        let raw = vstd::slice::slice_to_vec(vstd::slice::slice_subrange(input, 0, SPEND_LEN));
        proof {
            assert(raw@ =~= input@.take(SPEND_LEN as int));
        }
        Ok(Spend { raw })
    }
}

} // verus!
