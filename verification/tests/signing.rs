//! Tests of the post-DKG commands: commitments, nonces, and signing, plus
//! the account key derivation they rest on.

use ironfish_dkg::context::TxContext;
use ironfish_dkg::error::AppSW;
use ironfish_dkg::handlers::dkg_commitment::handler_dkg_commitment;
use ironfish_dkg::handlers::dkg_nonces::handler_dkg_nonces;
use ironfish_dkg::handlers::dkg_sign::handler_dkg_sign;
use ironfish_dkg::keys::{derive_account_keys, hash_viewing_key, PublicAddress, SaplingKey};
use ironfish_dkg::store::DkgKeys;

use ironfish_frost::participant::Secret;
use rand_chacha::rand_core::SeedableRng;
use rand_chacha::ChaCha20Rng;

fn rng(seed: u8) -> ChaCha20Rng {
    ChaCha20Rng::from_seed([seed; 32])
}

/// A store holding a persisted key package produced by a real single-run
/// key generation, so that the signing commands can load it.
fn store_with_key_package(secrets: &[Secret]) -> DkgKeys {
    let identities: Vec<_> = secrets.iter().map(|s| s.to_identity()).collect();
    let min_signers = 2u16;
    let r1: Vec<_> = (0..3)
        .map(|i| {
            ironfish_frost::dkg::round1::round1(
                &identities[i],
                min_signers,
                &identities,
                rng(10 + i as u8),
            )
            .unwrap()
        })
        .collect();
    let r1_pkgs: Vec<_> = r1.iter().map(|(_, p)| p.clone()).collect();
    let r2: Vec<_> = (0..3)
        .map(|i| {
            ironfish_frost::dkg::round2::round2(
                &secrets[i],
                &r1[i].0,
                &r1_pkgs,
                rng(20 + i as u8),
            )
            .unwrap()
        })
        .collect();
    let r2_combined: Vec<_> = r2.iter().map(|(_, c)| c.clone()).collect();
    let (key_package, _public_key_package, group_secret_key) = ironfish_frost::dkg::round3::round3(
        &secrets[0],
        &r2[0].0,
        &r1_pkgs,
        &r2_combined,
    )
    .unwrap();
    let mut store = DkgKeys::new();
    let identity_bytes: Vec<Vec<u8>> = identities.iter().map(|i| i.serialize().to_vec()).collect();
    store.save_round_1_data(&identity_bytes, min_signers as u8).unwrap();
    store
        .save_keys(
            &key_package.serialize().unwrap(),
            &_public_key_package
                .frost_public_key_package()
                .serialize()
                .unwrap(),
            &group_secret_key,
        )
        .unwrap();
    store
}

fn nonces_payload(identities: &[ironfish_frost::participant::Identity], hash: &[u8; 32]) -> Vec<u8> {
    let mut payload = vec![identities.len() as u8];
    for identity in identities {
        payload.extend(identity.serialize());
    }
    payload.extend(hash);
    payload
}

#[test]
fn commitment_and_nonces_are_deterministic_for_same_inputs() {
    let secrets: Vec<Secret> = (0..3).map(|i| Secret::random(&mut rng(i))).collect();
    let identities: Vec<_> = secrets.iter().map(|s| s.to_identity()).collect();
    let store = store_with_key_package(&secrets);
    let hash = [0x5Au8; 32];
    let payload = nonces_payload(&identities[..2], &hash);

    let mut ctx = TxContext::new();
    let first = handler_dkg_commitment(&mut ctx, 2, &payload, &store)
        .unwrap()
        .unwrap();
    let mut ctx = TxContext::new();
    let second = handler_dkg_commitment(&mut ctx, 2, &payload, &store)
        .unwrap()
        .unwrap();
    assert_eq!(first, second);

    let mut ctx = TxContext::new();
    let nonces_first = handler_dkg_nonces(&mut ctx, 2, &payload, &store)
        .unwrap()
        .unwrap();
    let mut ctx = TxContext::new();
    let nonces_second = handler_dkg_nonces(&mut ctx, 2, &payload, &store)
        .unwrap()
        .unwrap();
    assert_eq!(nonces_first, nonces_second);
}

#[test]
fn nonces_payload_with_trailing_bytes_is_rejected() {
    let secrets: Vec<Secret> = (0..3).map(|i| Secret::random(&mut rng(i))).collect();
    let identities: Vec<_> = secrets.iter().map(|s| s.to_identity()).collect();
    let store = store_with_key_package(&secrets);
    let mut payload = nonces_payload(&identities[..2], &[0u8; 32]);
    payload.push(0);
    let mut ctx = TxContext::new();
    let r = handler_dkg_nonces(&mut ctx, 2, &payload, &store);
    assert_eq!(r, Err(AppSW::InvalidPayload));
}

#[test]
fn sign_before_key_package_is_persisted_reports_missing_artifact() {
    let store = DkgKeys::new();
    // three empty length-prefixed parts: parses, but nothing is persisted
    let payload = vec![0u8, 0, 0, 0, 0, 0];
    let mut ctx = TxContext::new();
    let r = handler_dkg_sign(&mut ctx, 2, &payload, &store);
    assert_eq!(r, Err(AppSW::MissingArtifact));
}

#[test]
fn sign_rejects_malformed_randomizer_with_its_own_status() {
    let secrets: Vec<Secret> = (0..3).map(|i| Secret::random(&mut rng(i))).collect();
    let store = store_with_key_package(&secrets);
    // a one-byte randomizer cannot deserialize
    let payload = vec![0u8, 1, 0xFF, 0, 0, 0, 0];
    let mut ctx = TxContext::new();
    let r = handler_dkg_sign(&mut ctx, 2, &payload, &store);
    assert_eq!(r, Err(AppSW::InvalidRandomizer));
}

#[test]
fn derive_account_keys_is_idempotent_and_matches_parts() {
    let gsk = [7u8; 32];
    let group_key = SaplingKey::new(&gsk).unwrap();
    let ak_bytes = group_key.view_key.authorizing_key.clone();
    let first = derive_account_keys(&ak_bytes, &gsk).unwrap();
    let second = derive_account_keys(&ak_bytes, &gsk).unwrap();
    assert_eq!(
        first.proof_authorizing_key,
        second.proof_authorizing_key
    );
    assert_eq!(
        first.public_address.bytes,
        second.public_address.bytes
    );
    assert_eq!(
        first.incoming_viewing_key.view_key,
        second.incoming_viewing_key.view_key
    );
    // the proof authorizing key is the group key's nsk
    assert_eq!(first.proof_authorizing_key, group_key.proof_authorizing_key);
    // and the outgoing view key is the group key's ovk
    assert_eq!(
        first.outgoing_viewing_key.view_key,
        group_key.outgoing_viewing_key.view_key
    );
}

#[test]
fn sapling_key_parts_match_the_reference_hashes() {
    let sk = [3u8; 32];
    let key = SaplingKey::new(&sk).unwrap();
    // spend authorizing key: wide BLAKE2b expansion reduced into the field
    let mut hasher = blake2b_simd::Params::new()
        .hash_length(64)
        .personal(b"Iron Fish Money ")
        .to_state();
    hasher.update(&sk);
    hasher.update(&[0]);
    let mut wide = [0u8; 64];
    wide.copy_from_slice(hasher.finalize().as_ref());
    let expected_ask = jubjub::Fr::from_bytes_wide(&wide).to_bytes().to_vec();
    assert_eq!(key.spend_authorizing_key, expected_ask);
    // incoming view key: masked BLAKE2s digest of ak and nk
    let mut data = Vec::new();
    data.extend(&key.view_key.authorizing_key);
    data.extend(&key.view_key.nullifier_deriving_key);
    let digest = blake2s_simd::Params::new()
        .hash_length(32)
        .personal(b"Zcashivk")
        .hash(&data);
    let mut expected_ivk = digest.as_bytes().to_vec();
    expected_ivk[31] &= 0x07;
    assert_eq!(key.incoming_viewing_key.view_key, expected_ivk);
    assert_eq!(
        hash_viewing_key(&key.view_key.authorizing_key, &key.view_key.nullifier_deriving_key)
            .unwrap(),
        expected_ivk
    );
}

#[test]
fn public_address_round_trips_through_its_bytes() {
    let sk = [9u8; 32];
    let key = SaplingKey::new(&sk).unwrap();
    let address = PublicAddress::from_key(&key);
    let bytes = address.public_address();
    assert_eq!(bytes.len(), 32);
    let reread = PublicAddress::new(&bytes).unwrap();
    assert_eq!(reread.public_address(), bytes);
    // a byte string that is not a point encoding is refused
    assert!(PublicAddress::new(&[0xFFu8; 32]).is_err());
}

#[test]
fn sign_produces_a_signature_share_and_is_deterministic() {
    let secrets: Vec<Secret> = (0..3).map(|i| Secret::random(&mut rng(i))).collect();
    let identities: Vec<_> = secrets.iter().map(|s| s.to_identity()).collect();
    let store = store_with_key_package(&secrets);
    let hash = [0x5Au8; 32];
    let payload = nonces_payload(&identities[..2], &hash);

    // this device's commitments and nonces, through the handlers
    let mut ctx = TxContext::new();
    let commitments0 = handler_dkg_commitment(&mut ctx, 2, &payload, &store)
        .unwrap()
        .unwrap()
        .concat();
    let mut ctx = TxContext::new();
    let nonces0 = handler_dkg_nonces(&mut ctx, 2, &payload, &store)
        .unwrap()
        .unwrap()
        .concat();

    // a second signer's commitments, straight through the collaborator
    let kp0 = ironfish_frost::frost::keys::KeyPackage::deserialize(
        &store.load_key_package().unwrap(),
    )
    .unwrap();
    let nonces1 = ironfish_frost::nonces::deterministic_signing_nonces(
        kp0.signing_share(),
        &[0x77u8; 32],
        &identities[..2],
    );
    let commitments1 = ironfish_frost::frost::round1::SigningCommitments::from(&nonces1);

    // the coordinator's signing package over both commitments
    let mut commitment_map = std::collections::BTreeMap::new();
    commitment_map.insert(
        identities[0].to_frost_identifier(),
        ironfish_frost::frost::round1::SigningCommitments::deserialize(&commitments0).unwrap(),
    );
    commitment_map.insert(identities[1].to_frost_identifier(), commitments1);
    let signing_package = ironfish_frost::frost::SigningPackage::new(commitment_map, &hash);
    let sp_bytes = signing_package.serialize().unwrap();
    let randomizer =
        ironfish_frost::frost::Randomizer::new(rng(9), &signing_package).unwrap();
    let r_bytes = randomizer.serialize();

    let mut sign_payload = Vec::new();
    let mut push_part = |part: &[u8]| {
        sign_payload.push((part.len() >> 8) as u8);
        sign_payload.push((part.len() & 0xff) as u8);
        sign_payload.extend(part);
    };
    push_part(&r_bytes);
    push_part(&sp_bytes);
    push_part(&nonces0);

    let mut ctx = TxContext::new();
    let first = handler_dkg_sign(&mut ctx, 2, &sign_payload, &store)
        .unwrap()
        .unwrap();
    assert!(!first.concat().is_empty());
    let mut ctx = TxContext::new();
    let second = handler_dkg_sign(&mut ctx, 2, &sign_payload, &store)
        .unwrap()
        .unwrap();
    assert_eq!(first, second);
}
