use vstd::prelude::*;

use crate::crypto::{combined_package_of, combined_public_package_bytes, identity_from_bytes,
    valid_identity_bytes};
use crate::emitter::{chunk_response, concat_chunks};
use crate::error::AppSW;
use crate::store::{spec_parse_records, spec_record_at, spec_u16_at, DkgKeys,
    DATA_STARTING_POS, DKG_KEYS_MAX_SIZE, FROST_PUBLIC_PACKAGE_POS, IDENTITIES_POS,
    MIN_SIGNERS_POS};

verus! {

/// Whether the GetPublicPackage command can answer on a given store image:
/// the round-1 directory slots are set, the identities region parses as a
/// run of records that all deserialize, the min-signers record is
/// readable, the public key package record exists, and the combination is
/// defined.
pub open spec fn spec_public_package_ready(d: Seq<u8>) -> bool {
    let ids = spec_parse_records(
        d,
        spec_u16_at(d, IDENTITIES_POS as int),
        spec_u16_at(d, MIN_SIGNERS_POS as int),
    );
    &&& spec_u16_at(d, IDENTITIES_POS as int) >= DATA_STARTING_POS
    &&& spec_u16_at(d, MIN_SIGNERS_POS as int) >= DATA_STARTING_POS
    &&& spec_u16_at(d, MIN_SIGNERS_POS as int) + 2 <= DKG_KEYS_MAX_SIZE
    &&& ids is Some
    &&& forall|i: int|
        0 <= i < ids.unwrap().len() ==> valid_identity_bytes(#[trigger] ids.unwrap()[i])
    &&& spec_record_at(d, FROST_PUBLIC_PACKAGE_POS as int) is Some
    &&& combined_package_of(
        spec_record_at(d, FROST_PUBLIC_PACKAGE_POS as int).unwrap(),
        ids.unwrap(),
        spec_u16_at(d, spec_u16_at(d, MIN_SIGNERS_POS as int)) as u16,
    ) is Some
}

/// Drives the GetPublicPackage command: loads the persisted round-1
/// identities and min-signers and the round-3 public key package, combines
/// them into the group's combined public key package, and returns it in
/// transport chunks. Succeeds exactly when every needed artifact is
/// persisted and well-formed (`spec_public_package_ready`); the response
/// is the named deterministic function of the persisted artifacts.
pub fn handler_dkg_get_public_package(store: &DkgKeys) -> (r: Result<Vec<Vec<u8>>, AppSW>)
    requires
        store.wf(),
    ensures
        r is Ok <==> spec_public_package_ready(store.raw()),
        (r matches Ok(chunks) ==> combined_package_of(
            spec_record_at(store.raw(), FROST_PUBLIC_PACKAGE_POS as int).unwrap(),
            spec_parse_records(
                store.raw(),
                spec_u16_at(store.raw(), IDENTITIES_POS as int),
                spec_u16_at(store.raw(), MIN_SIGNERS_POS as int),
            ).unwrap(),
            spec_u16_at(store.raw(), spec_u16_at(store.raw(), MIN_SIGNERS_POS as int)) as u16,
        ) == Some(concat_chunks(chunks@.map_values(|c: Vec<u8>| c@)))),
{
    let identity_records = match store.load_identities() {
        Ok(v) => v,
        Err(e) => {
            return Err(e);
        },
    };
    let min_signers = match store.load_min_signers() {
        Ok(v) => v,
        Err(e) => {
            return Err(e);
        },
    };
    let ghost ids = spec_parse_records(
        store.raw(),
        spec_u16_at(store.raw(), IDENTITIES_POS as int),
        spec_u16_at(store.raw(), MIN_SIGNERS_POS as int),
    ).unwrap();
    let mut i: usize = 0;
    while i < identity_records.len()
        invariant
            i <= identity_records@.len(),
            ids == identity_records@.map_values(|x: Vec<u8>| x@),
            spec_parse_records(
                store.raw(),
                spec_u16_at(store.raw(), IDENTITIES_POS as int),
                spec_u16_at(store.raw(), MIN_SIGNERS_POS as int),
            ) == Some(ids),
            forall|j: int|
                0 <= j < i ==> valid_identity_bytes(#[trigger] identity_records@[j]@),
        decreases identity_records@.len() - i,
    {
        match identity_from_bytes(identity_records[i].as_slice()) {
            Ok(_) => (),
            Err(e) => {
                proof {
                    let d = store.raw();
                    let parsed = spec_parse_records(
                        d,
                        spec_u16_at(d, IDENTITIES_POS as int),
                        spec_u16_at(d, MIN_SIGNERS_POS as int),
                    );
                    assert(ids[i as int] == identity_records@[i as int]@);
                    assert(0 <= i < parsed.unwrap().len());
                    assert(!valid_identity_bytes(parsed.unwrap()[i as int]));
                    assert(!spec_public_package_ready(d));
                }
                return Err(e);
            },
        }
        i = i + 1;
    }
    proof {
        assert(forall|j: int| 0 <= j < ids.len() ==> ids[j] == #[trigger] identity_records@[j]@);
    }
    let public_key_package = match store.load_frost_public_key_package() {
        Ok(v) => v,
        Err(e) => {
            return Err(e);
        },
    };
    let combined = match combined_public_package_bytes(
        public_key_package.as_slice(),
        &identity_records,
        min_signers as u16,
    ) {
        Ok(v) => v,
        Err(e) => {
            return Err(e);
        },
    };
    Ok(chunk_response(combined.as_slice()))
}

} // verus!
