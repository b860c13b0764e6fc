use vstd::prelude::*;

use crate::accumulator::{accumulate_data, spec_accumulate_base, CHUNK_LAST};
use crate::buffer::{Buffer, BUFFER_SIZE};
use crate::context::TxContext;
use crate::crypto::{
    dkg_round1, identity_from_bytes, secret_to_identity, valid_identity_bytes, IDENTITY_LEN,
};
use crate::emitter::{chunk_response, concat_chunks};
use crate::error::AppSW;
use crate::handlers::{encode_two_part_response, spec_two_part_response};
use crate::store::{records_blob, spec_u16_at, DkgKeys, DATA_STARTING_POS, IDENTITIES_POS, MIN_SIGNERS_POS};

verus! {

/// The round-1 command payload parsed out of the session buffer: the
/// device identity index, the participant identities (kept both
/// materialized and as their wire bytes, for persistence), and the
/// min-signers threshold.
pub struct Tx {
    pub identity_index: u8,
    pub identities: Vec<ironfish_frost::participant::Identity>,
    pub identities_bytes: Vec<Vec<u8>>,
    pub min_signers: u8,
}

/// The identity records carried by a round-1 payload: the count byte at
/// offset 1, then that many fixed-size identity records.
pub open spec fn spec_round1_identity_records(b: Seq<u8>) -> Seq<Seq<u8>> {
    Seq::new(
        b[1] as nat,
        |i: int| b.subrange(2 + i * IDENTITY_LEN, 2 + (i + 1) * IDENTITY_LEN),
    )
}

/// Whether session bytes are a well-formed round-1 payload: identity
/// index, count byte, exactly `count` identity records that each
/// deserialize, and the trailing min-signers byte — nothing more and
/// nothing less.
pub open spec fn spec_round1_payload_ok(b: Seq<u8>) -> bool {
    &&& b.len() >= 3
    &&& b.len() == 3 + b[1] * IDENTITY_LEN
    &&& forall|i: int|
        0 <= i < b[1] ==> valid_identity_bytes(#[trigger] spec_round1_identity_records(b)[i])
}

/// Parses the accumulated round-1 payload. Succeeds exactly on well-formed
/// payloads (`spec_round1_payload_ok`); a payload whose length does not
/// exactly match its declared records is rejected with a parsing error,
/// never truncated.
pub fn parse_tx(buffer: &Buffer) -> (r: Result<Tx, AppSW>)
    requires
        buffer.wf(),
    ensures
        match r {
            Ok(tx) => {
                &&& spec_round1_payload_ok(buffer.bytes())
                &&& tx.identity_index == buffer.bytes()[0]
                &&& tx.min_signers == buffer.bytes()[buffer.bytes().len() - 1]
                &&& tx.identities@.len() == buffer.bytes()[1]
                &&& tx.identities_bytes@.map_values(|v: Vec<u8>| v@)
                    == spec_round1_identity_records(buffer.bytes())
            },
            Err(e) => {
                &&& !spec_round1_payload_ok(buffer.bytes())
                &&& (e == AppSW::BufferOutOfBounds || e == AppSW::InvalidIdentity || e
                    == AppSW::InvalidPayload)
            },
        },
{
    let ghost b = buffer.bytes();
    let identity_index = match buffer.get_element(0) {
        Ok(v) => v,
        Err(e) => {
            return Err(e);
        },
    };
    let elements = match buffer.get_element(1) {
        Ok(v) => v,
        Err(e) => {
            return Err(e);
        },
    };
    let mut identities: Vec<ironfish_frost::participant::Identity> = Vec::new();
    let mut identities_bytes: Vec<Vec<u8>> = Vec::new();
    let mut tx_pos: usize = 2;
    let mut i: u8 = 0;
    proof {
        assert(identities_bytes@.map_values(|v: Vec<u8>| v@) =~= Seq::<Seq<u8>>::empty());
    }
    while i < elements
        invariant
            buffer.wf(),
            b == buffer.bytes(),
            2 <= tx_pos <= buffer.pos,
            i <= elements,
            elements == b[1],
            b.len() >= 2,
            tx_pos == 2 + i * IDENTITY_LEN,
            identities@.len() == i,
            identities_bytes@.len() == i,
            forall|j: int|
                0 <= j < i ==> #[trigger] identities_bytes@[j]@ == b.subrange(
                    2 + j * IDENTITY_LEN,
                    2 + (j + 1) * IDENTITY_LEN,
                ),
            forall|j: int|
                0 <= j < i ==> valid_identity_bytes(
                    #[trigger] b.subrange(2 + j * IDENTITY_LEN, 2 + (j + 1) * IDENTITY_LEN),
                ),
        decreases elements - i,
    {
        proof {
            vstd::arithmetic::mul::lemma_mul_is_distributive_add_other_way(
                IDENTITY_LEN as int,
                i as int,
                1,
            );
            vstd::arithmetic::mul::lemma_mul_inequality(
                i + 1,
                elements as int,
                IDENTITY_LEN as int,
            );
        }
        if IDENTITY_LEN > buffer.pos() - tx_pos {
            proof {
                if spec_round1_payload_ok(b) {
                    assert(b.len() == 3 + b[1] * IDENTITY_LEN);
                    assert(false);
                }
            }
            return Err(AppSW::BufferOutOfBounds);
        }
        let data = buffer.get_slice(tx_pos, tx_pos + IDENTITY_LEN).unwrap();
        proof {
            assert(data@ =~= b.subrange(2 + i * IDENTITY_LEN, 2 + (i + 1) * IDENTITY_LEN));
        }
        let identity = match identity_from_bytes(data) {
            Ok(v) => v,
            Err(e) => {
                proof {
                    assert(data@ == b.subrange(
                        2 + i * IDENTITY_LEN,
                        2 + (i + 1) * IDENTITY_LEN,
                    ));
                    if spec_round1_payload_ok(b) {
                        assert(valid_identity_bytes(spec_round1_identity_records(b)[i as int]));
                        assert(false);
                    }
                }
                return Err(e);
            },
        };
        let ghost prev = identities_bytes@.map_values(|v: Vec<u8>| v@);
        identities.push(identity);
        identities_bytes.push(vstd::slice::slice_to_vec(data));
        proof {
            assert(identities_bytes@.map_values(|v: Vec<u8>| v@) =~= prev.push(data@));
        }
        tx_pos = tx_pos + IDENTITY_LEN;
        i = i + 1;
    }
    let min_signers = match buffer.get_element(tx_pos) {
        Ok(v) => v,
        Err(e) => {
            proof {
                if spec_round1_payload_ok(b) {
                    assert(b.len() == 3 + b[1] * IDENTITY_LEN);
                    assert(false);
                }
            }
            return Err(e);
        },
    };
    let tx_pos = tx_pos + 1;
    if tx_pos != buffer.pos() {
        proof {
            if spec_round1_payload_ok(b) {
                assert(b.len() == 3 + b[1] * IDENTITY_LEN);
                assert(false);
            }
        }
        return Err(AppSW::InvalidPayload);
    }
    proof {
        assert(spec_round1_payload_ok(b)) by {
            assert(b.len() == 3 + b[1] * IDENTITY_LEN);
            assert(forall|j: int|
                0 <= j < b[1] ==> valid_identity_bytes(
                    #[trigger] spec_round1_identity_records(b)[j],
                ));
        }
        assert(identities_bytes@.map_values(|v: Vec<u8>| v@) =~= spec_round1_identity_records(
            b,
        ));
        assert(b[b.len() - 1] == min_signers);
    }
    Ok(Tx { identity_index, identities, identities_bytes, min_signers })
}

/// Drives the round-1 command: accumulates the packet, and on the final
/// packet parses the payload, resets the session buffer, computes the
/// round-1 packages for the participant secret, persists the broadcast
/// data (identities and min-signers), and returns the two-part response —
/// encrypted secret package, then public package, each length-prefixed —
/// split into transport chunks.
pub fn handler_dkg_round_1(
    ctx: &mut TxContext,
    chunk: u8,
    data: &[u8],
    secret: &ironfish_frost::participant::Secret,
    store: &mut DkgKeys,
) -> (r: Result<Option<Vec<Vec<u8>>>, AppSW>)
    requires
        old(ctx).wf(),
        old(store).wf(),
    ensures
        final(ctx).wf(),
        final(store).wf(),
        (chunk != CHUNK_LAST && spec_accumulate_base(*old(ctx), chunk).len() + data@.len()
            <= BUFFER_SIZE) ==> r matches Ok(None),
        match r {
            Ok(None) => {
                &&& chunk != CHUNK_LAST
                &&& final(ctx).buffer.bytes() == spec_accumulate_base(*old(ctx), chunk).add(
                    data@,
                )
                &&& final(store).raw() == old(store).raw()
            },
            Ok(Some(chunks)) => {
                &&& chunk == CHUNK_LAST
                &&& spec_round1_payload_ok(spec_accumulate_base(*old(ctx), chunk).add(data@))
                &&& final(ctx).buffer.pos == 0
                &&& {
                    let full = spec_accumulate_base(*old(ctx), chunk).add(data@);
                    let ids = spec_round1_identity_records(full);
                    &&& spec_u16_at(final(store).raw(), IDENTITIES_POS as int)
                        == DATA_STARTING_POS
                    &&& spec_u16_at(final(store).raw(), MIN_SIGNERS_POS as int)
                        == DATA_STARTING_POS + records_blob(ids).len()
                    &&& final(store).raw().subrange(
                        DATA_STARTING_POS as int,
                        DATA_STARTING_POS + records_blob(ids).len(),
                    ) == records_blob(ids)
                    &&& spec_u16_at(
                        final(store).raw(),
                        spec_u16_at(final(store).raw(), MIN_SIGNERS_POS as int),
                    ) == full[full.len() - 1]
                    &&& exists|s: Seq<u8>, p: Seq<u8>|
                        concat_chunks(chunks@.map_values(|c: Vec<u8>| c@))
                            == #[trigger] spec_two_part_response(s, p)
                }
            },
            Err(e) => {
                let full = spec_accumulate_base(*old(ctx), chunk).add(data@);
                ||| spec_accumulate_base(*old(ctx), chunk).len() + data@.len() > BUFFER_SIZE
                    && e == AppSW::BufferOutOfBounds
                ||| chunk == CHUNK_LAST && !spec_round1_payload_ok(full) && (e
                    == AppSW::BufferOutOfBounds || e == AppSW::InvalidIdentity || e
                    == AppSW::InvalidPayload)
                ||| chunk == CHUNK_LAST && spec_round1_payload_ok(full) && (e
                    == AppSW::DkgRound1Fail || e == AppSW::TxWrongLength || e
                    == AppSW::BufferOutOfBounds)
            },
        },
{
    accumulate_data(ctx, chunk, data)?;
    if !ctx.done {
        return Ok(None);
    }
    let tx = match parse_tx(&ctx.buffer) {
        Ok(v) => v,
        Err(e) => {
            return Err(e);
        },
    };
    ctx.reset();
    let self_identity = secret_to_identity(secret);
    let (secret_package, public_package) = match dkg_round1(
        &self_identity,
        tx.min_signers as u16,
        &tx.identities,
    ) {
        Ok(v) => v,
        Err(e) => {
            return Err(e);
        },
    };
    if secret_package.len() > 0xFFFF || public_package.len() > 0xFFFF {
        return Err(AppSW::TxWrongLength);
    }
    let resp = encode_two_part_response(secret_package.as_slice(), public_package.as_slice());
    match store.save_round_1_data(&tx.identities_bytes, tx.min_signers) {
        Ok(()) => (),
        Err(e) => {
            return Err(e);
        },
    }
    let chunks = chunk_response(resp.as_slice());
    Ok(Some(chunks))
}

} // verus!
