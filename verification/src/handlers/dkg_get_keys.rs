use vstd::prelude::*;

use crate::crypto::{frost_verifying_key, verifying_key_of};
use crate::emitter::{chunk_response, concat_chunks};
use crate::error::AppSW;
use crate::keys::{
    derive_account_keys, public_address_point_of, spec_account_keys_ok, spec_hash_viewing_key,
    spec_nk, spec_nsk, spec_ovk, MultisigAccountKeys,
};
use crate::store::{spec_record_at, DkgKeys, FROST_PUBLIC_PACKAGE_POS, GROUP_KEY_PACKAGE_POS,
    GROUP_SECRET_KEY_LEN};

verus! {

/// Key kind selecting the public address.
pub const KEY_TYPE_ADDRESS: u8 = 0;

/// Key kind selecting the view keys.
pub const KEY_TYPE_VIEW_KEYS: u8 = 1;

/// Key kind selecting the proof-generation keys.
pub const KEY_TYPE_PROOF_KEYS: u8 = 2;

/// The response payload for a key kind, as a fixed function of the group's
/// verifying key and group secret key.
pub open spec fn spec_get_keys_response(vk: Seq<u8>, gsk: Seq<u8>, key_type: u8) -> Seq<u8> {
    let nk = spec_nk(gsk);
    let ivk = spec_hash_viewing_key(vk, nk);
    if key_type == KEY_TYPE_ADDRESS {
        public_address_point_of(ivk)
    } else if key_type == KEY_TYPE_VIEW_KEYS {
        vk.add(nk).add(ivk).add(spec_ovk(gsk))
    } else {
        vk.add(spec_nsk(gsk))
    }
}

/// Assembles the response for a requested key kind out of derived account
/// keys. Succeeds exactly on the three defined key kinds, with the exact
/// concatenation for each; any other kind is rejected.
pub fn get_requested_keys(account_keys: &MultisigAccountKeys, key_type: u8) -> (r: Result<
    Vec<u8>,
    AppSW,
>)
    ensures
        match r {
            Ok(v) => {
                &&& key_type <= 2
                &&& (key_type == KEY_TYPE_ADDRESS ==> v@ == account_keys.public_address.bytes@)
                &&& (key_type == KEY_TYPE_VIEW_KEYS ==> v@
                    == account_keys.view_key.authorizing_key@.add(
                    account_keys.view_key.nullifier_deriving_key@,
                ).add(account_keys.incoming_viewing_key.view_key@).add(
                    account_keys.outgoing_viewing_key.view_key@,
                ))
                &&& (key_type == KEY_TYPE_PROOF_KEYS ==> v@
                    == account_keys.view_key.authorizing_key@.add(
                    account_keys.proof_authorizing_key@,
                ))
            },
            Err(e) => key_type > 2 && e == AppSW::InvalidKeyType,
        },
{
    let mut resp: Vec<u8> = Vec::new();
    if key_type == KEY_TYPE_ADDRESS {
        resp.extend_from_slice(account_keys.public_address.bytes.as_slice());
        proof {
            assert(resp@ =~= account_keys.public_address.bytes@);
        }
        Ok(resp)
    } else if key_type == KEY_TYPE_VIEW_KEYS {
        resp.extend_from_slice(account_keys.view_key.authorizing_key.as_slice());
        resp.extend_from_slice(account_keys.view_key.nullifier_deriving_key.as_slice());
        resp.extend_from_slice(account_keys.incoming_viewing_key.view_key.as_slice());
        resp.extend_from_slice(account_keys.outgoing_viewing_key.view_key.as_slice());
        proof {
            assert(resp@ =~= account_keys.view_key.authorizing_key@.add(
                account_keys.view_key.nullifier_deriving_key@,
            ).add(account_keys.incoming_viewing_key.view_key@).add(
                account_keys.outgoing_viewing_key.view_key@,
            ));
        }
        Ok(resp)
    } else if key_type == KEY_TYPE_PROOF_KEYS {
        resp.extend_from_slice(account_keys.view_key.authorizing_key.as_slice());
        resp.extend_from_slice(account_keys.proof_authorizing_key.as_slice());
        proof {
            assert(resp@ =~= account_keys.view_key.authorizing_key@.add(
                account_keys.proof_authorizing_key@,
            ));
        }
        Ok(resp)
    } else {
        Err(AppSW::InvalidKeyType)
    }
}

/// Drives the GetKeys command: loads the persisted group secret key and
/// public key package, derives the account keys, and returns the payload
/// for the requested key kind in transport chunks.
///
/// The response is a fixed function of the persisted artifacts and the
/// key kind: re-running the command with the same kind over an unchanged
/// store returns byte-identical output. Success is owed exactly when the
/// two artifacts are persisted and well-formed, the derivation is
/// possible, and the key kind is one of the three defined ones.
pub fn handler_dkg_get_keys(store: &DkgKeys, key_type: u8) -> (r: Result<Vec<Vec<u8>>, AppSW>)
    requires
        store.wf(),
    ensures
        r is Ok <==> ({
            let gsk_rec = spec_record_at(store.raw(), GROUP_KEY_PACKAGE_POS as int);
            let pkp_rec = spec_record_at(store.raw(), FROST_PUBLIC_PACKAGE_POS as int);
            &&& gsk_rec is Some
            &&& gsk_rec.unwrap().len() == GROUP_SECRET_KEY_LEN
            &&& pkp_rec is Some
            &&& verifying_key_of(pkp_rec.unwrap()) is Some
            &&& spec_account_keys_ok(verifying_key_of(pkp_rec.unwrap()).unwrap(), gsk_rec.unwrap())
            &&& key_type <= 2
        }),
        match r {
            Ok(chunks) => {
                let gsk_rec = spec_record_at(store.raw(), GROUP_KEY_PACKAGE_POS as int);
                let pkp_rec = spec_record_at(store.raw(), FROST_PUBLIC_PACKAGE_POS as int);
                &&& key_type <= 2
                &&& gsk_rec is Some
                &&& pkp_rec is Some
                &&& verifying_key_of(pkp_rec.unwrap()) is Some
                &&& spec_account_keys_ok(
                    verifying_key_of(pkp_rec.unwrap()).unwrap(),
                    gsk_rec.unwrap(),
                )
                &&& concat_chunks(chunks@.map_values(|c: Vec<u8>| c@))
                    == spec_get_keys_response(
                    verifying_key_of(pkp_rec.unwrap()).unwrap(),
                    gsk_rec.unwrap(),
                    key_type,
                )
            },
            Err(_) => true,
        },
{
    let group_secret_key = match store.load_group_secret_key() {
        Ok(v) => v,
        Err(e) => {
            return Err(e);
        },
    };
    let public_key_package = match store.load_frost_public_key_package() {
        Ok(v) => v,
        Err(e) => {
            return Err(e);
        },
    };
    let verifying_key = match frost_verifying_key(public_key_package.as_slice()) {
        Ok(v) => v,
        Err(e) => {
            return Err(e);
        },
    };
    let account_keys = match derive_account_keys(
        verifying_key.as_slice(),
        group_secret_key.as_slice(),
    ) {
        Ok(v) => v,
        Err(e) => {
            return Err(e);
        },
    };
    let resp = match get_requested_keys(&account_keys, key_type) {
        Ok(v) => v,
        Err(e) => {
            return Err(e);
        },
    };
    Ok(chunk_response(resp.as_slice()))
}

} // verus!
