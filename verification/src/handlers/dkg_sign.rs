use vstd::prelude::*;

use crate::accumulator::{accumulate_data, spec_accumulate_base, CHUNK_LAST};
use crate::buffer::{Buffer, BUFFER_SIZE};
use crate::context::TxContext;
use crate::crypto::{frost_sign, signature_share_of};
use crate::emitter::{chunk_response, concat_chunks};
use crate::error::AppSW;
use crate::store::{spec_record_at, spec_record_err, spec_u16_at, DkgKeys, KEY_PACKAGE_POS};

verus! {

/// The offsets of the three length-prefixed parts of a sign payload:
/// randomizer, then frost signing package, then signing nonces.
pub open spec fn spec_sign_p1(b: Seq<u8>) -> int {
    2 + spec_u16_at(b, 0)
}

/// The offset just past the signing package part.
pub open spec fn spec_sign_p2(b: Seq<u8>) -> int {
    spec_sign_p1(b) + 2 + spec_u16_at(b, spec_sign_p1(b))
}

/// The offset just past the nonces part: a well-formed payload ends
/// exactly here.
pub open spec fn spec_sign_p3(b: Seq<u8>) -> int {
    spec_sign_p2(b) + 2 + spec_u16_at(b, spec_sign_p2(b))
}

/// The randomizer bytes of a sign payload.
pub open spec fn spec_sign_randomizer(b: Seq<u8>) -> Seq<u8> {
    b.subrange(2, spec_sign_p1(b))
}

/// The signing package bytes of a sign payload.
pub open spec fn spec_sign_package(b: Seq<u8>) -> Seq<u8> {
    b.subrange(spec_sign_p1(b) + 2, spec_sign_p2(b))
}

/// The nonces bytes of a sign payload.
pub open spec fn spec_sign_nonces(b: Seq<u8>) -> Seq<u8> {
    b.subrange(spec_sign_p2(b) + 2, spec_sign_p3(b))
}

/// Whether the three length-prefixed parts of a sign payload lie within
/// the session bytes.
pub open spec fn spec_sign_bounds_ok(b: Seq<u8>) -> bool {
    &&& b.len() >= 2
    &&& spec_sign_p1(b) <= b.len()
    &&& spec_sign_p1(b) + 2 <= b.len()
    &&& spec_sign_p2(b) <= b.len()
    &&& spec_sign_p2(b) + 2 <= b.len()
    &&& spec_sign_p3(b) <= b.len()
}

/// Whether session bytes are a well-formed sign payload: the three parts
/// in bounds and the last ending exactly at the session cursor.
pub open spec fn spec_sign_payload_ok(b: Seq<u8>) -> bool {
    spec_sign_bounds_ok(b) && spec_sign_p3(b) == b.len()
}

/// Parses the accumulated sign payload into its three length-prefixed
/// parts. Succeeds exactly on well-formed payloads
/// (`spec_sign_payload_ok`): a part past the cursor is a bounds error; a
/// well-bounded payload with trailing bytes is an invalid payload.
pub fn parse_tx(buffer: &Buffer) -> (r: Result<(Vec<u8>, Vec<u8>, Vec<u8>), AppSW>)
    requires
        buffer.wf(),
    ensures
        r is Ok <==> spec_sign_payload_ok(buffer.bytes()),
        match r {
            Ok((randomizer, signing_package, nonces)) => {
                &&& randomizer@ == spec_sign_randomizer(buffer.bytes())
                &&& signing_package@ == spec_sign_package(buffer.bytes())
                &&& nonces@ == spec_sign_nonces(buffer.bytes())
            },
            Err(e) => {
                &&& (e == AppSW::BufferOutOfBounds <==> !spec_sign_bounds_ok(buffer.bytes()))
                &&& (e == AppSW::InvalidPayload <==> spec_sign_bounds_ok(buffer.bytes())
                    && spec_sign_p3(buffer.bytes()) != buffer.bytes().len())
            },
        },
{
    let ghost b = buffer.bytes();
    let len1 = match buffer.get_u16(0) {
        Ok(v) => v,
        Err(_) => {
            return Err(AppSW::BufferOutOfBounds);
        },
    };
    if len1 > buffer.pos() - 2 {
        return Err(AppSW::BufferOutOfBounds);
    }
    let randomizer_slice = buffer.get_slice(2, 2 + len1).unwrap();
    let randomizer = vstd::slice::slice_to_vec(randomizer_slice);
    let p1 = 2 + len1;
    let len2 = match buffer.get_u16(p1) {
        Ok(v) => v,
        Err(_) => {
            return Err(AppSW::BufferOutOfBounds);
        },
    };
    if len2 > buffer.pos() - (p1 + 2) {
        return Err(AppSW::BufferOutOfBounds);
    }
    let package_slice = buffer.get_slice(p1 + 2, p1 + 2 + len2).unwrap();
    let signing_package = vstd::slice::slice_to_vec(package_slice);
    let p2 = p1 + 2 + len2;
    let len3 = match buffer.get_u16(p2) {
        Ok(v) => v,
        Err(_) => {
            return Err(AppSW::BufferOutOfBounds);
        },
    };
    if len3 > buffer.pos() - (p2 + 2) {
        return Err(AppSW::BufferOutOfBounds);
    }
    let nonces_slice = buffer.get_slice(p2 + 2, p2 + 2 + len3).unwrap();
    let nonces = vstd::slice::slice_to_vec(nonces_slice);
    let p3 = p2 + 2 + len3;
    if p3 != buffer.pos() {
        return Err(AppSW::InvalidPayload);
    }
    proof {
        assert(randomizer@ =~= spec_sign_randomizer(b));
        assert(signing_package@ =~= spec_sign_package(b));
        assert(nonces@ =~= spec_sign_nonces(b));
    }
    Ok((randomizer, signing_package, nonces))
}

/// Drives the sign command: accumulates the packet, and on the final
/// packet parses the randomizer, signing package and nonces, loads the
/// persisted key package, resets the session buffer, produces this
/// participant's signature share, and returns it in transport chunks. The
/// share is the deterministic signature named by `signature_share_of`,
/// applied to the parsed parts and the persisted key package.
pub fn handler_dkg_sign(
    ctx: &mut TxContext,
    chunk: u8,
    data: &[u8],
    store: &DkgKeys,
) -> (r: Result<Option<Vec<Vec<u8>>>, AppSW>)
    requires
        old(ctx).wf(),
        store.wf(),
    ensures
        final(ctx).wf(),
        (chunk != CHUNK_LAST && spec_accumulate_base(*old(ctx), chunk).len() + data@.len()
            <= BUFFER_SIZE) ==> r matches Ok(None),
        ({
            let full = spec_accumulate_base(*old(ctx), chunk).add(data@);
            let kp_rec = spec_record_at(store.raw(), KEY_PACKAGE_POS as int);
            chunk == CHUNK_LAST && full.len() <= BUFFER_SIZE && spec_sign_payload_ok(full)
                && kp_rec is Some && signature_share_of(
                spec_sign_package(full),
                spec_sign_nonces(full),
                kp_rec.unwrap(),
                spec_sign_randomizer(full),
            ) is Some
        }) ==> r matches Ok(Some(_)),
        match r {
            Ok(None) => {
                &&& chunk != CHUNK_LAST
                &&& final(ctx).buffer.bytes() == spec_accumulate_base(*old(ctx), chunk).add(
                    data@,
                )
            },
            Ok(Some(chunks)) => {
                let full = spec_accumulate_base(*old(ctx), chunk).add(data@);
                let kp_rec = spec_record_at(store.raw(), KEY_PACKAGE_POS as int);
                &&& chunk == CHUNK_LAST
                &&& spec_sign_payload_ok(full)
                &&& kp_rec is Some
                &&& signature_share_of(
                    spec_sign_package(full),
                    spec_sign_nonces(full),
                    kp_rec.unwrap(),
                    spec_sign_randomizer(full),
                ) == Some(concat_chunks(chunks@.map_values(|c: Vec<u8>| c@)))
                &&& final(ctx).buffer.pos == 0
            },
            Err(e) => {
                let full = spec_accumulate_base(*old(ctx), chunk).add(data@);
                let kp_rec = spec_record_at(store.raw(), KEY_PACKAGE_POS as int);
                ||| spec_accumulate_base(*old(ctx), chunk).len() + data@.len() > BUFFER_SIZE
                    && e == AppSW::BufferOutOfBounds
                ||| chunk == CHUNK_LAST && !spec_sign_payload_ok(full) && (e
                    == AppSW::BufferOutOfBounds || e == AppSW::InvalidPayload)
                ||| chunk == CHUNK_LAST && spec_sign_payload_ok(full) && kp_rec is None && e
                    == spec_record_err(store.raw(), KEY_PACKAGE_POS as int)
                ||| chunk == CHUNK_LAST && spec_sign_payload_ok(full) && kp_rec is Some && (e
                    == AppSW::InvalidRandomizer || e == AppSW::InvalidSigningPackage || e
                    == AppSW::InvalidSigningNonces || e == AppSW::InvalidKeyPackage || e
                    == AppSW::TxSignFail)
            },
        },
{
    accumulate_data(ctx, chunk, data)?;
    if !ctx.done {
        return Ok(None);
    }
    let (randomizer, signing_package, nonces) = match parse_tx(&ctx.buffer) {
        Ok(v) => v,
        Err(e) => {
            return Err(e);
        },
    };
    ctx.reset();
    let key_package = match store.load_key_package() {
        Ok(v) => v,
        Err(e) => {
            return Err(e);
        },
    };
    let signature = match frost_sign(
        signing_package.as_slice(),
        nonces.as_slice(),
        key_package.as_slice(),
        randomizer.as_slice(),
    ) {
        Ok(v) => v,
        Err(e) => {
            return Err(e);
        },
    };
    let chunks = chunk_response(signature.as_slice());
    proof {
        let cs = chunks@.map_values(|c: Vec<u8>| c@);
        assert(concat_chunks(cs) == signature@);
    }
    Ok(Some(chunks))
}

} // verus!
