use vstd::prelude::*;

use crate::crypto::{identity_to_bytes, secret_to_identity, valid_identity_bytes, IDENTITY_LEN};
use crate::emitter::{chunk_response, concat_chunks};

verus! {

/// Returns the device's public identity for its participant secret, as
/// response chunks: the identity is one chunk of exactly the identity
/// serialization length.
pub fn handler_dkg_get_identity(secret: &ironfish_frost::participant::Secret) -> (r: Vec<Vec<u8>>)
    ensures
        r@.len() == 1,
        r@[0]@.len() == IDENTITY_LEN,
        valid_identity_bytes(r@[0]@),
{
    let identity = secret_to_identity(secret);
    let bytes = identity_to_bytes(&identity);
    let chunks = chunk_response(bytes.as_slice());
    proof {
        let cs = chunks@.map_values(|c: Vec<u8>| c@);
        assert(concat_chunks(cs.skip(1)) =~= Seq::<u8>::empty());
        assert(cs[0] =~= bytes@);
    }
    chunks
}

} // verus!
