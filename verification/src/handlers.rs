//! The DKG round state machine: one handler per protocol step. Each
//! handler accumulates its command across packets, parses the session
//! buffer into a round-specific view, resets the buffer, invokes the
//! cryptographic collaborator through trusted wrappers, persists new
//! artifacts, and returns the response split into transport chunks.

pub mod dkg_get_identity;
pub mod dkg_round_1;
pub mod dkg_round_2;
pub mod dkg_round_3;
pub mod dkg_get_keys;
pub mod dkg_get_public_package;
pub mod dkg_commitment;
pub mod dkg_nonces;
pub mod dkg_sign;

use vstd::prelude::*;

use crate::store::u16_be;

verus! {

/// The two-part response layout shared by the round handlers: each part is
/// its big-endian `u16` length followed by its bytes.
pub open spec fn spec_two_part_response(first: Seq<u8>, second: Seq<u8>) -> Seq<u8> {
    u16_be(first.len() as u16).add(first).add(u16_be(second.len() as u16)).add(second)
}

/// Builds the two-part response payload: `u16` length and bytes of the
/// first part, then `u16` length and bytes of the second.
pub fn encode_two_part_response(first: &[u8], second: &[u8]) -> (r: Vec<u8>)
    requires
        first@.len() <= 0xFFFF,
        second@.len() <= 0xFFFF,
    ensures
        r@ == spec_two_part_response(first@, second@),
{
    let l1 = first.len() as u16;
    let l2 = second.len() as u16;
    let mut resp: Vec<u8> = Vec::new();
    resp.push((l1 >> 8) as u8);
    resp.push((l1 & 0xff) as u8);
    resp.extend_from_slice(first);
    resp.push((l2 >> 8) as u8);
    resp.push((l2 & 0xff) as u8);
    resp.extend_from_slice(second);
    proof {
        assert(resp@ =~= spec_two_part_response(first@, second@));
    }
    resp
}

} // verus!
