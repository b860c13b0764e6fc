use vstd::prelude::*;

use crate::accumulator::{accumulate_data, spec_accumulate_base, CHUNK_LAST};
use crate::buffer::{Buffer, BUFFER_SIZE};
use crate::context::TxContext;
use crate::crypto::{dkg_round2, public_package_from_bytes, valid_public_package_bytes};
use crate::emitter::{chunk_response, concat_chunks};
use crate::error::AppSW;
use crate::handlers::{encode_two_part_response, spec_two_part_response};
use crate::store::spec_u16_at;

verus! {

/// The count declared by a record-list header at `pos` in the session
/// bytes: one count byte, then a big-endian `u16` record length.
pub open spec fn spec_list_count(b: Seq<u8>, pos: int) -> int {
    b[pos] as int
}

/// The record length declared by a record-list header at `pos`.
pub open spec fn spec_list_stride(b: Seq<u8>, pos: int) -> int {
    spec_u16_at(b, pos + 1)
}

/// The records of the list headed at `pos`: `count` runs of `stride`
/// bytes each, starting after the three header bytes.
pub open spec fn spec_list_records(b: Seq<u8>, pos: int) -> Seq<Seq<u8>> {
    Seq::new(
        spec_list_count(b, pos) as nat,
        |i: int|
            b.subrange(
                pos + 3 + i * spec_list_stride(b, pos),
                pos + 3 + (i + 1) * spec_list_stride(b, pos),
            ),
    )
}

/// The offset just past the list headed at `pos`.
pub open spec fn spec_list_end(b: Seq<u8>, pos: int) -> int {
    pos + 3 + spec_list_count(b, pos) * spec_list_stride(b, pos)
}

/// Whether the list headed at `pos` lies entirely within the session
/// bytes.
pub open spec fn spec_list_in_bounds(b: Seq<u8>, pos: int) -> bool {
    &&& pos + 3 <= b.len()
    &&& spec_list_end(b, pos) <= b.len()
}

/// Parses the round-1 public packages out of the session buffer at
/// `tx_pos`: a record list whose every record must deserialize to a
/// round-1 public package. Succeeds exactly when the list is in bounds and
/// all records are valid, returning the materialized packages and the
/// offset just past the list.
pub fn parse_round_1_public_packages(buffer: &Buffer, tx_pos: usize) -> (r: Result<
    (Vec<ironfish_frost::dkg::round1::PublicPackage>, usize),
    AppSW,
>)
    requires
        buffer.wf(),
    ensures
        match r {
            Ok((pkgs, next)) => {
                &&& spec_list_in_bounds(buffer.bytes(), tx_pos as int)
                &&& pkgs@.len() == spec_list_count(buffer.bytes(), tx_pos as int)
                &&& next == spec_list_end(buffer.bytes(), tx_pos as int)
                &&& forall|i: int|
                    0 <= i < pkgs@.len() ==> valid_public_package_bytes(
                        #[trigger] spec_list_records(buffer.bytes(), tx_pos as int)[i],
                    )
            },
            Err(e) => {
                &&& !(spec_list_in_bounds(buffer.bytes(), tx_pos as int) && forall|i: int|
                    0 <= i < spec_list_count(buffer.bytes(), tx_pos as int)
                        ==> valid_public_package_bytes(
                        #[trigger] spec_list_records(buffer.bytes(), tx_pos as int)[i],
                    ))
                &&& (e == AppSW::BufferOutOfBounds || e == AppSW::InvalidPublicPackageRound1)
            },
        },
{
    let ghost b = buffer.bytes();
    let elements = match buffer.get_element(tx_pos) {
        Ok(v) => v,
        Err(e) => {
            return Err(e);
        },
    };
    let len = match buffer.get_u16(tx_pos + 1) {
        Ok(v) => v,
        Err(_) => {
            return Err(AppSW::BufferOutOfBounds);
        },
    };
    // pre-validate the extent before materializing any element, so a list
    // that claims more records than the buffer holds fails atomically
    proof {
        vstd::arithmetic::mul::lemma_mul_upper_bound(elements as int, 255, len as int, 0xFFFF);
    }
    let total = (elements as usize) * len;
    if total > buffer.pos() - (tx_pos + 3) {
        proof {
            vstd::arithmetic::mul::lemma_mul_is_commutative(elements as int, len as int);
        }
        return Err(AppSW::BufferOutOfBounds);
    }
    let mut pkgs: Vec<ironfish_frost::dkg::round1::PublicPackage> = Vec::new();
    let mut cur = tx_pos + 3;
    let mut i: u8 = 0;
    while i < elements
        invariant
            buffer.wf(),
            b == buffer.bytes(),
            tx_pos + 3 <= cur <= buffer.pos,
            i <= elements,
            elements == spec_list_count(b, tx_pos as int),
            len == spec_list_stride(b, tx_pos as int),
            cur == tx_pos + 3 + i * len,
            pkgs@.len() == i,
            forall|j: int|
                0 <= j < i ==> valid_public_package_bytes(
                    #[trigger] b.subrange(
                        tx_pos + 3 + j * len,
                        tx_pos + 3 + (j + 1) * len,
                    ),
                ),
        decreases elements - i,
    {
        proof {
            vstd::arithmetic::mul::lemma_mul_is_distributive_add_other_way(
                len as int,
                i as int,
                1,
            );
            vstd::arithmetic::mul::lemma_mul_inequality(i + 1, elements as int, len as int);
        }
        if len > buffer.pos() - cur {
            proof {
                vstd::arithmetic::mul::lemma_mul_inequality(i + 1, elements as int, len as int);
            }
            return Err(AppSW::BufferOutOfBounds);
        }
        let data = buffer.get_slice(cur, cur + len).unwrap();
        proof {
            assert(data@ =~= b.subrange(tx_pos + 3 + i * len, tx_pos + 3 + (i + 1) * len));
        }
        let pkg = match public_package_from_bytes(data) {
            Ok(v) => v,
            Err(e) => {
                proof {
                    assert(spec_list_records(b, tx_pos as int)[i as int] == b.subrange(
                        tx_pos + 3 + i * len,
                        tx_pos + 3 + (i + 1) * len,
                    ));
                }
                return Err(e);
            },
        };
        pkgs.push(pkg);
        cur = cur + len;
        i = i + 1;
    }
    Ok((pkgs, cur))
}

/// Parses one length-prefixed blob out of the session buffer at `tx_pos`:
/// a big-endian `u16` length then that many bytes. Succeeds exactly when
/// the blob lies within the session bytes, returning the blob and the
/// offset just past it.
pub fn parse_round_1_secret_package<'a>(buffer: &'a Buffer, tx_pos: usize) -> (r: Result<
    (&'a [u8], usize),
    AppSW,
>)
    requires
        buffer.wf(),
    ensures
        match r {
            Ok((data, next)) => {
                &&& tx_pos + 2 <= buffer.pos
                &&& next == tx_pos + 2 + spec_u16_at(buffer.bytes(), tx_pos as int)
                &&& next <= buffer.pos
                &&& data@ == buffer.bytes().subrange(tx_pos + 2, next as int)
            },
            Err(e) => {
                &&& tx_pos + 2 > buffer.pos || tx_pos + 2 + spec_u16_at(
                    buffer.bytes(),
                    tx_pos as int,
                ) > buffer.pos
                &&& e == AppSW::BufferOutOfBounds
            },
        },
{
    let ghost b = buffer.bytes();
    let len = match buffer.get_u16(tx_pos) {
        Ok(v) => v,
        Err(_) => {
            return Err(AppSW::BufferOutOfBounds);
        },
    };
    if len > buffer.pos() - (tx_pos + 2) {
        return Err(AppSW::BufferOutOfBounds);
    }
    let data = buffer.get_slice(tx_pos + 2, tx_pos + 2 + len).unwrap();
    proof {
        assert(data@ =~= b.subrange(tx_pos + 2, tx_pos + 2 + len));
    }
    Ok((data, tx_pos + 2 + len))
}

/// Whether session bytes are a well-formed round-2 payload: the identity
/// index byte, the round-1 public package list in bounds with every
/// record deserializing, and the length-prefixed round-1 secret package
/// ending exactly at the session cursor.
pub open spec fn spec_round2_payload_ok(b: Seq<u8>) -> bool {
    &&& b.len() >= 1
    &&& spec_list_in_bounds(b, 1)
    &&& forall|i: int|
        0 <= i < spec_list_count(b, 1) ==> valid_public_package_bytes(
            #[trigger] spec_list_records(b, 1)[i],
        )
    &&& spec_list_end(b, 1) + 2 <= b.len()
    &&& spec_list_end(b, 1) + 2 + spec_u16_at(b, spec_list_end(b, 1)) == b.len()
}

/// Drives the round-2 command: accumulates the packet, and on the final
/// packet parses the identity index, the round-1 public packages of all
/// participants and this device's round-1 secret package, requires the
/// payload to end exactly there, resets the session buffer, computes the
/// round-2 packages, and returns the two-part response — encrypted secret
/// package, then combined public package — split into transport chunks.
pub fn handler_dkg_round_2(
    ctx: &mut TxContext,
    chunk: u8,
    data: &[u8],
    secret: &ironfish_frost::participant::Secret,
) -> (r: Result<Option<Vec<Vec<u8>>>, AppSW>)
    requires
        old(ctx).wf(),
    ensures
        final(ctx).wf(),
        (chunk != CHUNK_LAST && spec_accumulate_base(*old(ctx), chunk).len() + data@.len()
            <= BUFFER_SIZE) ==> r matches Ok(None),
        match r {
            Ok(None) => {
                &&& chunk != CHUNK_LAST
                &&& final(ctx).buffer.bytes() == spec_accumulate_base(*old(ctx), chunk).add(
                    data@,
                )
            },
            Ok(Some(chunks)) => {
                &&& chunk == CHUNK_LAST
                &&& final(ctx).buffer.pos == 0
                &&& spec_round2_payload_ok(spec_accumulate_base(*old(ctx), chunk).add(data@))
                &&& exists|s: Seq<u8>, p: Seq<u8>|
                    concat_chunks(chunks@.map_values(|c: Vec<u8>| c@))
                        == #[trigger] spec_two_part_response(s, p)
            },
            Err(e) => {
                let full = spec_accumulate_base(*old(ctx), chunk).add(data@);
                ||| spec_accumulate_base(*old(ctx), chunk).len() + data@.len() > BUFFER_SIZE
                    && e == AppSW::BufferOutOfBounds
                ||| chunk == CHUNK_LAST && !spec_round2_payload_ok(full) && (e
                    == AppSW::BufferOutOfBounds || e == AppSW::InvalidPublicPackageRound1 || e
                    == AppSW::InvalidPayload)
                ||| chunk == CHUNK_LAST && spec_round2_payload_ok(full) && (e
                    == AppSW::DkgRound2Fail || e == AppSW::TxWrongLength)
            },
        },
{
    accumulate_data(ctx, chunk, data)?;
    if !ctx.done {
        return Ok(None);
    }
    match ctx.buffer.get_element(0) {
        Ok(v) => v,
        Err(e) => {
            return Err(e);
        },
    };
    let (round_1_public_packages, after_pkgs) = match parse_round_1_public_packages(
        &ctx.buffer,
        1,
    ) {
        Ok(v) => v,
        Err(e) => {
            return Err(e);
        },
    };
    let (round_1_secret_package, end) = match parse_round_1_secret_package(
        &ctx.buffer,
        after_pkgs,
    ) {
        Ok(v) => v,
        Err(e) => {
            return Err(e);
        },
    };
    if end != ctx.buffer.pos() {
        return Err(AppSW::InvalidPayload);
    }
    let round_1_secret_package = vstd::slice::slice_to_vec(round_1_secret_package);
    ctx.reset();
    let (secret_package, public_package) = match dkg_round2(
        secret,
        round_1_secret_package.as_slice(),
        &round_1_public_packages,
    ) {
        Ok(v) => v,
        Err(e) => {
            return Err(e);
        },
    };
    if secret_package.len() > 0xFFFF || public_package.len() > 0xFFFF {
        return Err(AppSW::TxWrongLength);
    }
    let resp = encode_two_part_response(secret_package.as_slice(), public_package.as_slice());
    let chunks = chunk_response(resp.as_slice());
    Ok(Some(chunks))
}

} // verus!
