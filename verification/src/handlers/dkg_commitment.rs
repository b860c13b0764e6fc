use vstd::prelude::*;

use crate::accumulator::{accumulate_data, spec_accumulate_base, CHUNK_LAST};
use crate::buffer::{Buffer, BUFFER_SIZE};
use crate::context::TxContext;
use crate::crypto::{commitments_bytes_of, identity_from_bytes, signing_commitments_bytes,
    valid_identity_bytes, IDENTITY_LEN};
use crate::emitter::{chunk_response, concat_chunks};
use crate::error::AppSW;
use crate::store::{spec_record_at, spec_record_err, DkgKeys, KEY_PACKAGE_POS};

verus! {

/// The identity records carried by a commitment payload: the count byte
/// at offset 0, then that many fixed-size identity records.
pub open spec fn spec_commitment_identities(b: Seq<u8>) -> Seq<Seq<u8>> {
    Seq::new(
        b[0] as nat,
        |i: int| b.subrange(1 + i * IDENTITY_LEN, 1 + (i + 1) * IDENTITY_LEN),
    )
}

/// Whether session bytes are a well-formed commitment payload: a count
/// byte, exactly `count` identity records that each deserialize, and a
/// trailing transaction hash — possibly empty — running to the end of the
/// accumulated data.
pub open spec fn spec_commitment_payload_ok(b: Seq<u8>) -> bool {
    &&& b.len() >= 1
    &&& b.len() >= 1 + b[0] * IDENTITY_LEN
    &&& forall|i: int|
        0 <= i < b[0] ==> valid_identity_bytes(#[trigger] spec_commitment_identities(b)[i])
}

/// The transaction hash carried by a commitment payload: everything after
/// the identity records.
pub open spec fn spec_commitment_tx_hash(b: Seq<u8>) -> Seq<u8> {
    b.subrange(1 + b[0] * IDENTITY_LEN, b.len() as int)
}

/// Parses the accumulated commitment payload: the signing participants'
/// identity records (each validated), then the transaction hash as
/// everything up to the end of the accumulated data. Succeeds exactly on
/// well-formed payloads (`spec_commitment_payload_ok`).
pub fn parse_tx(buffer: &Buffer) -> (r: Result<(Vec<Vec<u8>>, Vec<u8>), AppSW>)
    requires
        buffer.wf(),
    ensures
        r is Ok <==> spec_commitment_payload_ok(buffer.bytes()),
        match r {
            Ok((identities, tx_hash)) => {
                &&& identities@.map_values(|v: Vec<u8>| v@) == spec_commitment_identities(
                    buffer.bytes(),
                )
                &&& tx_hash@ == spec_commitment_tx_hash(buffer.bytes())
            },
            Err(e) => e == AppSW::BufferOutOfBounds || e == AppSW::InvalidIdentity,
        },
{
    let ghost b = buffer.bytes();
    let elements = match buffer.get_element(0) {
        Ok(v) => v,
        Err(e) => {
            return Err(e);
        },
    };
    let mut identities: Vec<Vec<u8>> = Vec::new();
    let mut tx_pos: usize = 1;
    let mut i: u8 = 0;
    proof {
        assert(identities@.map_values(|v: Vec<u8>| v@) =~= Seq::<Seq<u8>>::empty());
    }
    while i < elements
        invariant
            buffer.wf(),
            b == buffer.bytes(),
            1 <= tx_pos <= buffer.pos,
            i <= elements,
            elements == b[0],
            b.len() >= 1,
            tx_pos == 1 + i * IDENTITY_LEN,
            identities@.len() == i,
            forall|j: int|
                0 <= j < i ==> #[trigger] identities@[j]@ == b.subrange(
                    1 + j * IDENTITY_LEN,
                    1 + (j + 1) * IDENTITY_LEN,
                ),
            forall|j: int|
                0 <= j < i ==> valid_identity_bytes(
                    #[trigger] b.subrange(1 + j * IDENTITY_LEN, 1 + (j + 1) * IDENTITY_LEN),
                ),
        decreases elements - i,
    {
        proof {
            vstd::arithmetic::mul::lemma_mul_is_distributive_add_other_way(
                IDENTITY_LEN as int,
                i as int,
                1,
            );
            vstd::arithmetic::mul::lemma_mul_inequality(
                i + 1,
                elements as int,
                IDENTITY_LEN as int,
            );
        }
        if IDENTITY_LEN > buffer.pos() - tx_pos {
            proof {
                if spec_commitment_payload_ok(b) {
                    assert(b.len() >= 1 + b[0] * IDENTITY_LEN);
                    assert(false);
                }
            }
            return Err(AppSW::BufferOutOfBounds);
        }
        let data = buffer.get_slice(tx_pos, tx_pos + IDENTITY_LEN).unwrap();
        proof {
            assert(data@ =~= b.subrange(1 + i * IDENTITY_LEN, 1 + (i + 1) * IDENTITY_LEN));
        }
        match identity_from_bytes(data) {
            Ok(_) => (),
            Err(e) => {
                proof {
                    if spec_commitment_payload_ok(b) {
                        assert(valid_identity_bytes(spec_commitment_identities(b)[i as int]));
                        assert(false);
                    }
                }
                return Err(e);
            },
        }
        let ghost prev = identities@.map_values(|v: Vec<u8>| v@);
        identities.push(vstd::slice::slice_to_vec(data));
        proof {
            assert(identities@.map_values(|v: Vec<u8>| v@) =~= prev.push(data@));
        }
        tx_pos = tx_pos + IDENTITY_LEN;
        i = i + 1;
    }
    let hash_slice = buffer.get_slice(tx_pos, buffer.pos()).unwrap();
    let tx_hash = vstd::slice::slice_to_vec(hash_slice);
    proof {
        assert(spec_commitment_payload_ok(b)) by {
            assert(b.len() >= 1 + b[0] * IDENTITY_LEN);
        }
        assert(identities@.map_values(|v: Vec<u8>| v@) =~= spec_commitment_identities(b));
        assert(tx_hash@ =~= spec_commitment_tx_hash(b));
    }
    Ok((identities, tx_hash))
}

/// Drives the commitment command: accumulates the packet, and on the
/// final packet parses the signing participants and transaction hash,
/// loads the persisted key package, resets the session buffer, derives
/// the deterministic signing commitment, and returns it in transport
/// chunks.
///
/// The response is the named deterministic function of the persisted key
/// package, the transaction hash and the participant identities; success
/// is owed whenever the payload is well-formed, the key package is
/// persisted and that function is defined.
pub fn handler_dkg_commitment(
    ctx: &mut TxContext,
    chunk: u8,
    data: &[u8],
    store: &DkgKeys,
) -> (r: Result<Option<Vec<Vec<u8>>>, AppSW>)
    requires
        old(ctx).wf(),
        store.wf(),
    ensures
        final(ctx).wf(),
        (chunk != CHUNK_LAST && spec_accumulate_base(*old(ctx), chunk).len() + data@.len()
            <= BUFFER_SIZE) ==> r matches Ok(None),
        ({
            let full = spec_accumulate_base(*old(ctx), chunk).add(data@);
            let kp_rec = spec_record_at(store.raw(), KEY_PACKAGE_POS as int);
            chunk == CHUNK_LAST && full.len() <= BUFFER_SIZE && spec_commitment_payload_ok(full)
                && kp_rec is Some && commitments_bytes_of(
                kp_rec.unwrap(),
                spec_commitment_tx_hash(full),
                spec_commitment_identities(full),
            ) is Some
        }) ==> r matches Ok(Some(_)),
        match r {
            Ok(None) => {
                &&& chunk != CHUNK_LAST
                &&& final(ctx).buffer.bytes() == spec_accumulate_base(*old(ctx), chunk).add(
                    data@,
                )
            },
            Ok(Some(chunks)) => {
                let full = spec_accumulate_base(*old(ctx), chunk).add(data@);
                let kp_rec = spec_record_at(store.raw(), KEY_PACKAGE_POS as int);
                &&& chunk == CHUNK_LAST
                &&& spec_commitment_payload_ok(full)
                &&& kp_rec is Some
                &&& commitments_bytes_of(
                    kp_rec.unwrap(),
                    spec_commitment_tx_hash(full),
                    spec_commitment_identities(full),
                ) == Some(concat_chunks(chunks@.map_values(|c: Vec<u8>| c@)))
                &&& final(ctx).buffer.pos == 0
            },
            Err(e) => {
                let full = spec_accumulate_base(*old(ctx), chunk).add(data@);
                let kp_rec = spec_record_at(store.raw(), KEY_PACKAGE_POS as int);
                ||| spec_accumulate_base(*old(ctx), chunk).len() + data@.len() > BUFFER_SIZE
                    && e == AppSW::BufferOutOfBounds
                ||| chunk == CHUNK_LAST && !spec_commitment_payload_ok(full) && (e
                    == AppSW::BufferOutOfBounds || e == AppSW::InvalidIdentity)
                ||| chunk == CHUNK_LAST && spec_commitment_payload_ok(full) && kp_rec is None
                    && e == spec_record_err(store.raw(), KEY_PACKAGE_POS as int)
                ||| chunk == CHUNK_LAST && spec_commitment_payload_ok(full) && kp_rec is Some
                    && (e == AppSW::InvalidKeyPackage || e == AppSW::TxSignFail)
            },
        },
{
    accumulate_data(ctx, chunk, data)?;
    if !ctx.done {
        return Ok(None);
    }
    let (identities, tx_hash) = match parse_tx(&ctx.buffer) {
        Ok(v) => v,
        Err(e) => {
            return Err(e);
        },
    };
    ctx.reset();
    let key_package = match store.load_key_package() {
        Ok(v) => v,
        Err(e) => {
            return Err(e);
        },
    };
    proof {
        let full = spec_accumulate_base(*old(ctx), chunk).add(data@);
        assert(spec_commitment_payload_ok(full));
        assert(identities@.len() == spec_commitment_identities(full).len());
        assert forall|i: int|
            0 <= i < identities@.len() implies valid_identity_bytes(
            #[trigger] identities@[i]@,
        ) by {
            assert(identities@[i]@ == identities@.map_values(|v: Vec<u8>| v@)[i]);
            assert(0 <= i < full[0]);
            assert(valid_identity_bytes(spec_commitment_identities(full)[i]));
        }
    }
    let commitments = match signing_commitments_bytes(
        key_package.as_slice(),
        tx_hash.as_slice(),
        &identities,
    ) {
        Ok(v) => v,
        Err(e) => {
            return Err(e);
        },
    };
    Ok(Some(chunk_response(commitments.as_slice())))
}

} // verus!
