use vstd::prelude::*;

use crate::deserialize::Deserializable;
use crate::error::ParserError;

verus! {

/// Size in bytes of one fixed-stride outputs record.
pub const OUTPUT_LEN: usize = 328;

/// A output description record: the fixed-size bytes of one element of the
/// transaction's outputs run, materialized into owned storage.
pub struct Output {
    pub raw: Vec<u8>,
}

impl View for Output {
    type V = Seq<u8>;

    open spec fn view(&self) -> Seq<u8> {
        self.raw@
    }
}

impl Deserializable for Output {
    open spec fn spec_parse(bytes: Seq<u8>) -> Option<Seq<u8>> {
        if bytes.len() >= OUTPUT_LEN {
            Some(bytes.take(OUTPUT_LEN as int))
        } else {
            None
        }
    }

    fn from_bytes(input: &[u8]) -> (r: Result<Self, ParserError>) {
        if input.len() < OUTPUT_LEN {
            return Err(ParserError::UnexpectedBufferEnd);
        }
        let raw = vstd::slice::slice_to_vec(vstd::slice::slice_subrange(input, 0, OUTPUT_LEN));
        proof {
            assert(raw@ =~= input@.take(OUTPUT_LEN as int));
        }
        Ok(Output { raw })
    }
}

} // verus!
