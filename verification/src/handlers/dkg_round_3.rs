use vstd::prelude::*;

use crate::accumulator::{accumulate_data, spec_accumulate_base, CHUNK_LAST};
use crate::buffer::{Buffer, BUFFER_SIZE};
use crate::context::TxContext;
use crate::crypto::dkg_round3;
use crate::error::AppSW;
use crate::handlers::dkg_round_2::{
    spec_list_count, spec_list_end, spec_list_in_bounds, spec_list_records, spec_list_stride,
};
use crate::store::{spec_record_at, spec_u16_at, DkgKeys, GROUP_SECRET_KEY_LEN, KEY_PACKAGE_POS,
    GROUP_KEY_PACKAGE_POS, FROST_PUBLIC_PACKAGE_POS};

verus! {

/// The round-3 command payload parsed out of the session buffer: this
/// device's identity index, the round-1 and round-2 public packages of all
/// participants, this device's encrypted round-2 secret package, the
/// participant identities, and the encrypted group-secret-key shards —
/// all as raw wire bytes, handed to the cryptographic collaborator.
pub struct MinTx {
    pub identity_index: u8,
    pub round_1_packages: Vec<Vec<u8>>,
    pub round_2_packages: Vec<Vec<u8>>,
    pub round_2_secret_package: Vec<u8>,
    pub participants: Vec<Vec<u8>>,
    pub gsk_bytes: Vec<Vec<u8>>,
}

/// Reads the records of the list headed at `tx_pos` without validating
/// their contents, returning the owned records and the offset just past
/// the list. Succeeds exactly when the whole list lies within the session
/// bytes.
pub fn parse_raw_list(buffer: &Buffer, tx_pos: usize) -> (r: Result<(Vec<Vec<u8>>, usize), AppSW>)
    requires
        buffer.wf(),
    ensures
        match r {
            Ok((records, next)) => {
                &&& spec_list_in_bounds(buffer.bytes(), tx_pos as int)
                &&& records@.map_values(|v: Vec<u8>| v@) == spec_list_records(
                    buffer.bytes(),
                    tx_pos as int,
                )
                &&& next == spec_list_end(buffer.bytes(), tx_pos as int)
            },
            Err(e) => {
                &&& !spec_list_in_bounds(buffer.bytes(), tx_pos as int)
                &&& e == AppSW::BufferOutOfBounds
            },
        },
{
    let ghost b = buffer.bytes();
    let elements = match buffer.get_element(tx_pos) {
        Ok(v) => v,
        Err(e) => {
            return Err(e);
        },
    };
    let len = match buffer.get_u16(tx_pos + 1) {
        Ok(v) => v,
        Err(_) => {
            return Err(AppSW::BufferOutOfBounds);
        },
    };
    let mut records: Vec<Vec<u8>> = Vec::new();
    let mut cur = tx_pos + 3;
    let mut i: u8 = 0;
    proof {
        assert(records@.map_values(|v: Vec<u8>| v@) =~= Seq::<Seq<u8>>::empty());
    }
    while i < elements
        invariant
            buffer.wf(),
            b == buffer.bytes(),
            tx_pos + 3 <= cur <= buffer.pos,
            i <= elements,
            elements == spec_list_count(b, tx_pos as int),
            len == spec_list_stride(b, tx_pos as int),
            cur == tx_pos + 3 + i * len,
            records@.len() == i,
            forall|j: int|
                0 <= j < i ==> #[trigger] records@[j]@ == b.subrange(
                    tx_pos + 3 + j * len,
                    tx_pos + 3 + (j + 1) * len,
                ),
        decreases elements - i,
    {
        proof {
            vstd::arithmetic::mul::lemma_mul_is_distributive_add_other_way(
                len as int,
                i as int,
                1,
            );
            vstd::arithmetic::mul::lemma_mul_inequality(i + 1, elements as int, len as int);
        }
        if len > buffer.pos() - cur {
            return Err(AppSW::BufferOutOfBounds);
        }
        let data = buffer.get_slice(cur, cur + len).unwrap();
        proof {
            assert(data@ =~= b.subrange(tx_pos + 3 + i * len, tx_pos + 3 + (i + 1) * len));
        }
        records.push(vstd::slice::slice_to_vec(data));
        cur = cur + len;
        i = i + 1;
    }
    proof {
        assert(records@.map_values(|v: Vec<u8>| v@) =~= spec_list_records(b, tx_pos as int));
    }
    Ok((records, cur))
}

/// The end of the round-3 payload layout: identity index, round-1
/// packages, round-2 packages, the length-prefixed round-2 secret
/// package, participants, and group-secret-key shards, in that order.
pub open spec fn spec_round3_layout_end(b: Seq<u8>) -> int {
    let p1 = spec_list_end(b, 1);
    let p2 = spec_list_end(b, p1);
    let p3 = p2 + 2 + spec_u16_at(b, p2);
    let p4 = spec_list_end(b, p3);
    spec_list_end(b, p4)
}

/// Whether every section of the round-3 layout lies within the session
/// bytes: the four record lists and the length-prefixed secret package.
pub open spec fn spec_round3_bounds_ok(b: Seq<u8>) -> bool {
    let p1 = spec_list_end(b, 1);
    let p2 = spec_list_end(b, p1);
    let p3 = p2 + 2 + spec_u16_at(b, p2);
    let p4 = spec_list_end(b, p3);
    &&& b.len() >= 1
    &&& spec_list_in_bounds(b, 1)
    &&& spec_list_in_bounds(b, p1)
    &&& p2 + 2 <= b.len()
    &&& p3 <= b.len()
    &&& spec_list_in_bounds(b, p3)
    &&& spec_list_in_bounds(b, p4)
}

/// Whether session bytes are a well-formed round-3 payload: every section
/// in bounds and the layout ending exactly at the session cursor.
pub open spec fn spec_round3_payload_ok(b: Seq<u8>) -> bool {
    spec_round3_bounds_ok(b) && spec_round3_layout_end(b) == b.len()
}

/// Whether the list counts of a round-3 payload are consistent: the
/// cryptographic collaborator pairs each participant with a round-1 and a
/// round-2 package by index and combines at least one group-secret-key
/// shard.
pub open spec fn spec_round3_counts_ok(b: Seq<u8>) -> bool {
    let p1 = spec_list_end(b, 1);
    let p2 = spec_list_end(b, p1);
    let p3 = p2 + 2 + spec_u16_at(b, p2);
    let p4 = spec_list_end(b, p3);
    &&& spec_list_count(b, p3) <= spec_list_count(b, 1)
    &&& spec_list_count(b, p3) <= spec_list_count(b, p1)
    &&& spec_list_count(b, p4) >= 1
}

/// Parses the accumulated round-3 payload. Succeeds exactly on
/// well-formed payloads (`spec_round3_payload_ok`): every list and the
/// secret package lie within the session bytes and the payload ends
/// exactly at the session cursor; the parsed fields are pinned to their
/// wire regions. A section past the cursor is a bounds error; a
/// well-bounded payload with trailing bytes is an invalid payload.
pub fn parse_tx_min(buffer: &Buffer) -> (r: Result<MinTx, AppSW>)
    requires
        buffer.wf(),
    ensures
        r is Ok <==> spec_round3_payload_ok(buffer.bytes()),
        match r {
            Ok(tx) => {
                let b = buffer.bytes();
                let p1 = spec_list_end(b, 1);
                let p2 = spec_list_end(b, p1);
                let p3 = p2 + 2 + spec_u16_at(b, p2);
                let p4 = spec_list_end(b, p3);
                &&& b.len() >= 1
                &&& tx.identity_index == b[0]
                &&& tx.round_1_packages@.map_values(|v: Vec<u8>| v@) == spec_list_records(b, 1)
                &&& tx.round_2_packages@.map_values(|v: Vec<u8>| v@) == spec_list_records(b, p1)
                &&& tx.round_2_secret_package@ == b.subrange(p2 + 2, p3)
                &&& tx.participants@.map_values(|v: Vec<u8>| v@) == spec_list_records(b, p3)
                &&& tx.gsk_bytes@.map_values(|v: Vec<u8>| v@) == spec_list_records(b, p4)
                &&& spec_round3_layout_end(b) == b.len()
            },
            Err(e) => {
                &&& (e == AppSW::BufferOutOfBounds <==> !spec_round3_bounds_ok(buffer.bytes()))
                &&& (e == AppSW::InvalidPayload <==> spec_round3_bounds_ok(buffer.bytes())
                    && spec_round3_layout_end(buffer.bytes()) != buffer.bytes().len())
            },
        },
{
    let identity_index = match buffer.get_element(0) {
        Ok(v) => v,
        Err(e) => {
            return Err(e);
        },
    };
    let (round_1_packages, p1) = match parse_raw_list(buffer, 1) {
        Ok(v) => v,
        Err(e) => {
            return Err(e);
        },
    };
    let (round_2_packages, p2) = match parse_raw_list(buffer, p1) {
        Ok(v) => v,
        Err(e) => {
            return Err(e);
        },
    };
    let len = match buffer.get_u16(p2) {
        Ok(v) => v,
        Err(_) => {
            return Err(AppSW::BufferOutOfBounds);
        },
    };
    if len > buffer.pos() - (p2 + 2) {
        return Err(AppSW::BufferOutOfBounds);
    }
    let secret_slice = buffer.get_slice(p2 + 2, p2 + 2 + len).unwrap();
    let round_2_secret_package = vstd::slice::slice_to_vec(secret_slice);
    proof {
        assert(round_2_secret_package@ =~= buffer.bytes().subrange(
            p2 + 2,
            p2 + 2 + len,
        ));
    }
    let p3 = p2 + 2 + len;
    let (participants, p4) = match parse_raw_list(buffer, p3) {
        Ok(v) => v,
        Err(e) => {
            return Err(e);
        },
    };
    let (gsk_bytes, p5) = match parse_raw_list(buffer, p4) {
        Ok(v) => v,
        Err(e) => {
            return Err(e);
        },
    };
    if p5 != buffer.pos() {
        return Err(AppSW::InvalidPayload);
    }
    Ok(
        MinTx {
            identity_index,
            round_1_packages,
            round_2_packages,
            round_2_secret_package,
            participants,
            gsk_bytes,
        },
    )
}

/// Drives the round-3 command: accumulates the packet, and on the final
/// packet parses the payload, checks that each participant has a round-1
/// and a round-2 package and that at least one group-secret-key shard is
/// present (the collaborator pairs them by index), resets the session
/// buffer, combines the round material into the key package, public key
/// package and group secret key, and persists all three as
/// length-prefixed records in the durable store. There is no response
/// payload. A failed command leaves the durable store byte-for-byte
/// unchanged: persistence runs only after the collaborator succeeds, and
/// a failed save writes nothing.
pub fn handler_dkg_round_3(
    ctx: &mut TxContext,
    chunk: u8,
    data: &[u8],
    secret: &ironfish_frost::participant::Secret,
    store: &mut DkgKeys,
) -> (r: Result<bool, AppSW>)
    requires
        old(ctx).wf(),
        old(store).wf(),
    ensures
        final(ctx).wf(),
        final(store).wf(),
        r == Ok::<bool, AppSW>(false) <==> (chunk != CHUNK_LAST && spec_accumulate_base(
            *old(ctx),
            chunk,
        ).len() + data@.len() <= BUFFER_SIZE),
        r is Err ==> final(store).raw() == old(store).raw(),
        match r {
            Ok(false) => {
                &&& final(ctx).buffer.bytes() == spec_accumulate_base(*old(ctx), chunk).add(
                    data@,
                )
                &&& final(store).raw() == old(store).raw()
            },
            Ok(true) => {
                &&& chunk == CHUNK_LAST
                &&& spec_round3_payload_ok(spec_accumulate_base(*old(ctx), chunk).add(data@))
                &&& spec_round3_counts_ok(spec_accumulate_base(*old(ctx), chunk).add(data@))
                &&& final(ctx).buffer.pos == 0
                &&& exists|kp: Seq<u8>, pkp: Seq<u8>, gsk: Seq<u8>|
                    {
                        &&& #[trigger] spec_record_at(
                            final(store).raw(),
                            KEY_PACKAGE_POS as int,
                        ) == Some(kp)
                        &&& spec_record_at(final(store).raw(), GROUP_KEY_PACKAGE_POS as int)
                            == Some(gsk)
                        &&& gsk.len() == GROUP_SECRET_KEY_LEN
                        &&& spec_record_at(final(store).raw(), FROST_PUBLIC_PACKAGE_POS as int)
                            == Some(pkp)
                    }
            },
            Err(e) => {
                let full = spec_accumulate_base(*old(ctx), chunk).add(data@);
                ||| spec_accumulate_base(*old(ctx), chunk).len() + data@.len() > BUFFER_SIZE
                    && e == AppSW::BufferOutOfBounds
                ||| chunk == CHUNK_LAST && !spec_round3_payload_ok(full) && (e
                    == AppSW::BufferOutOfBounds || e == AppSW::InvalidPayload)
                ||| chunk == CHUNK_LAST && spec_round3_payload_ok(full)
                    && !spec_round3_counts_ok(full) && e == AppSW::InvalidPayload
                ||| chunk == CHUNK_LAST && spec_round3_payload_ok(full)
                    && spec_round3_counts_ok(full) && (e == AppSW::DkgRound3Fail || e
                    == AppSW::MissingArtifact || e == AppSW::BufferOutOfBounds)
            },
        },
{
    accumulate_data(ctx, chunk, data)?;
    if !ctx.done {
        return Ok(false);
    }
    let min_tx = match parse_tx_min(&ctx.buffer) {
        Ok(v) => v,
        Err(e) => {
            return Err(e);
        },
    };
    proof {
        let full = spec_accumulate_base(*old(ctx), chunk).add(data@);
        let p1 = spec_list_end(full, 1);
        let p2 = spec_list_end(full, p1);
        let p3 = p2 + 2 + spec_u16_at(full, p2);
        let p4 = spec_list_end(full, p3);
        assert(full == ctx.buffer.bytes());
        assert(min_tx.round_1_packages@.map_values(|v: Vec<u8>| v@) == spec_list_records(
            full,
            1,
        ));
        assert(min_tx.round_2_packages@.map_values(|v: Vec<u8>| v@) == spec_list_records(
            full,
            p1,
        ));
        assert(min_tx.participants@.map_values(|v: Vec<u8>| v@) == spec_list_records(full, p3));
        assert(min_tx.gsk_bytes@.map_values(|v: Vec<u8>| v@) == spec_list_records(full, p4));
        assert(min_tx.round_1_packages@.len() == spec_list_count(full, 1));
        assert(min_tx.round_2_packages@.len() == spec_list_count(full, p1));
        assert(spec_list_records(full, p3).len() == spec_list_count(full, p3));
        assert(spec_list_records(full, p4).len() == spec_list_count(full, p4));
        assert(min_tx.participants@.len() == min_tx.participants@.map_values(
            |v: Vec<u8>| v@,
        ).len());
        assert(min_tx.gsk_bytes@.len() == min_tx.gsk_bytes@.map_values(|v: Vec<u8>| v@).len());
        assert(min_tx.participants@.len() == spec_list_count(full, p3));
        assert(min_tx.gsk_bytes@.len() == spec_list_count(full, p4));
    }
    // the collaborator pairs participants with packages by index and
    // combines at least one group-secret-key shard
    if min_tx.participants.len() > min_tx.round_1_packages.len() || min_tx.participants.len()
        > min_tx.round_2_packages.len() || min_tx.gsk_bytes.len() == 0 {
        return Err(AppSW::InvalidPayload);
    }
    ctx.reset();
    let (key_package, public_key_package, group_secret_key) = match dkg_round3(
        secret,
        &min_tx.participants,
        min_tx.round_2_secret_package.as_slice(),
        &min_tx.round_1_packages,
        &min_tx.round_2_packages,
        &min_tx.gsk_bytes,
    ) {
        Ok(v) => v,
        Err(e) => {
            return Err(e);
        },
    };
    match store.save_keys(
        key_package.as_slice(),
        public_key_package.as_slice(),
        group_secret_key.as_slice(),
    ) {
        Ok(()) => (),
        Err(e) => {
            return Err(e);
        },
    }
    Ok(true)
}

} // verus!
