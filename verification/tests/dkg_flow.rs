//! End-to-end tests of the DKG round state machine, driving the library's
//! handlers for one participant and the cryptographic library directly for
//! the others.

use ironfish_dkg::context::TxContext;
use ironfish_dkg::error::AppSW;
use ironfish_dkg::handlers::dkg_get_identity::handler_dkg_get_identity;
use ironfish_dkg::handlers::dkg_get_keys::handler_dkg_get_keys;
use ironfish_dkg::handlers::dkg_get_public_package::handler_dkg_get_public_package;
use ironfish_dkg::handlers::dkg_round_1::handler_dkg_round_1;
use ironfish_dkg::handlers::dkg_round_2::handler_dkg_round_2;
use ironfish_dkg::handlers::dkg_round_3::handler_dkg_round_3;
use ironfish_dkg::store::{DkgKeys, DATA_STARTING_POS, IDENTITIES_POS};

use ironfish_frost::dkg;
use ironfish_frost::participant::Secret;
use rand_chacha::rand_core::SeedableRng;
use rand_chacha::ChaCha20Rng;

fn rng(seed: u8) -> ChaCha20Rng {
    ChaCha20Rng::from_seed([seed; 32])
}

/// Splits a two-part response into its length-prefixed halves.
fn split_two_part(resp: &[u8]) -> (Vec<u8>, Vec<u8>) {
    let len1 = ((resp[0] as usize) << 8) | resp[1] as usize;
    let first = resp[2..2 + len1].to_vec();
    let rest = &resp[2 + len1..];
    let len2 = ((rest[0] as usize) << 8) | rest[1] as usize;
    let second = rest[2..2 + len2].to_vec();
    assert_eq!(rest.len(), 2 + len2, "no trailing bytes after second part");
    (first, second)
}

fn concat(chunks: &[Vec<u8>]) -> Vec<u8> {
    chunks.concat()
}

#[test]
fn get_identity_returns_one_identity_chunk() {
    let secret = Secret::random(&mut rng(1));
    let chunks = handler_dkg_get_identity(&secret);
    assert_eq!(chunks.len(), 1);
    assert_eq!(chunks[0].len(), 129);
    assert_eq!(chunks[0], secret.to_identity().serialize().to_vec());
}

#[test]
fn full_dkg_flow_through_the_handlers() {
    let secrets: Vec<Secret> = (0..3).map(|i| Secret::random(&mut rng(i))).collect();
    let identities: Vec<_> = secrets.iter().map(|s| s.to_identity()).collect();
    let min_signers = 2u8;

    // round 1, participant 0 through the handler, split across two packets
    let mut ctx = TxContext::new();
    let mut store = DkgKeys::new();
    let mut payload = vec![0u8, 3u8];
    for identity in &identities {
        payload.extend(identity.serialize());
    }
    payload.push(min_signers);
    let (head, tail) = payload.split_at(100);
    let r = handler_dkg_round_1(&mut ctx, 0, head, &secrets[0], &mut store).unwrap();
    assert!(r.is_none(), "more chunks expected after a first packet");
    let chunks = handler_dkg_round_1(&mut ctx, 2, tail, &secrets[0], &mut store)
        .unwrap()
        .expect("final packet completes the command");
    let (r1_secret_0, r1_public_0) = split_two_part(&concat(&chunks));

    // round 1 persisted the broadcast data
    assert_eq!(store.get_u16(IDENTITIES_POS).unwrap(), DATA_STARTING_POS);
    assert_eq!(store.load_min_signers().unwrap(), min_signers as usize);
    let stored: Vec<Vec<u8>> = store.load_identities().unwrap();
    assert_eq!(stored.len(), 3);
    for (stored_identity, identity) in stored.iter().zip(&identities) {
        assert_eq!(stored_identity, &identity.serialize().to_vec());
    }

    // round 1 for the other participants, through the library under test's
    // own collaborator
    let (r1_secret_1, r1_public_pkg_1) =
        dkg::round1::round1(&identities[1], min_signers as u16, &identities, rng(11)).unwrap();
    let (r1_secret_2, r1_public_pkg_2) =
        dkg::round1::round1(&identities[2], min_signers as u16, &identities, rng(12)).unwrap();
    let r1_publics = [
        r1_public_0.clone(),
        r1_public_pkg_1.serialize(),
        r1_public_pkg_2.serialize(),
    ];
    let pkg_len = r1_publics[0].len();
    assert!(r1_publics.iter().all(|p| p.len() == pkg_len));

    // round 2, participant 0 through the handler
    let mut payload = vec![0u8, 3u8, (pkg_len >> 8) as u8, (pkg_len & 0xff) as u8];
    for public in &r1_publics {
        payload.extend(public);
    }
    payload.push((r1_secret_0.len() >> 8) as u8);
    payload.push((r1_secret_0.len() & 0xff) as u8);
    payload.extend(&r1_secret_0);
    let mut mid = TxContext::new();
    let chunks = handler_dkg_round_2(&mut mid, 2, &payload, &secrets[0])
        .unwrap()
        .expect("single final packet completes the command");
    let (r2_secret_0, r2_public_0) = split_two_part(&concat(&chunks));

    // round 2 for the other participants
    let r1_public_pkgs: Vec<_> = r1_publics
        .iter()
        .map(|p| dkg::round1::PublicPackage::deserialize_from(p.as_slice()).unwrap())
        .collect();
    let (_r2_secret_1, r2_combined_1) =
        dkg::round2::round2(&secrets[1], &r1_secret_1, &r1_public_pkgs, rng(21)).unwrap();
    let (_r2_secret_2, r2_combined_2) =
        dkg::round2::round2(&secrets[2], &r1_secret_2, &r1_public_pkgs, rng(22)).unwrap();
    let _ = dkg::round2::CombinedPublicPackage::deserialize_from(r2_public_0.as_slice()).unwrap();

    // round 3, participant 0 through the handler: per-participant frost
    // packages from the two other participants
    let participants = [&identities[1], &identities[2]];
    let r1_frost: Vec<Vec<u8>> = [&r1_public_pkgs[1], &r1_public_pkgs[2]]
        .iter()
        .map(|p| p.frost_package().serialize().unwrap())
        .collect();
    let r2_frost: Vec<Vec<u8>> = [&r2_combined_1, &r2_combined_2]
        .iter()
        .map(|c| {
            c.package_for(&identities[0])
                .unwrap()
                .frost_package()
                .serialize()
                .unwrap()
        })
        .collect();
    let gsk_blobs: Vec<Vec<u8>> = r1_public_pkgs
        .iter()
        .map(|p| p.group_secret_key_shard_encrypted().to_vec())
        .collect();

    let mut payload = vec![0u8];
    let push_list = |payload: &mut Vec<u8>, items: &[Vec<u8>]| {
        let len = items[0].len();
        assert!(items.iter().all(|i| i.len() == len));
        payload.push(items.len() as u8);
        payload.push((len >> 8) as u8);
        payload.push((len & 0xff) as u8);
        for item in items {
            payload.extend(item);
        }
    };
    push_list(&mut payload, &r1_frost);
    push_list(&mut payload, &r2_frost);
    payload.push((r2_secret_0.len() >> 8) as u8);
    payload.push((r2_secret_0.len() & 0xff) as u8);
    payload.extend(&r2_secret_0);
    let participant_bytes: Vec<Vec<u8>> = participants
        .iter()
        .map(|i| i.serialize().to_vec())
        .collect();
    push_list(&mut payload, &participant_bytes);
    push_list(&mut payload, &gsk_blobs);

    let mut ctx3 = TxContext::new();
    let done = handler_dkg_round_3(&mut ctx3, 2, &payload, &secrets[0], &mut store).unwrap();
    assert!(done);

    // the three artifacts are persisted and load back
    let key_package = store.load_key_package().unwrap();
    assert!(ironfish_frost::frost::keys::KeyPackage::deserialize(&key_package).is_ok());
    let group_secret_key = store.load_group_secret_key().unwrap();
    assert_eq!(group_secret_key.len(), 32);
    let public_key_package = store.load_frost_public_key_package().unwrap();
    assert!(
        ironfish_frost::frost::keys::PublicKeyPackage::deserialize(&public_key_package).is_ok()
    );

    // GetKeys: all three kinds answer, and re-running with the same kind
    // over the unchanged store returns byte-identical output
    for key_type in 0..=2u8 {
        let first = handler_dkg_get_keys(&store, key_type).unwrap();
        let second = handler_dkg_get_keys(&store, key_type).unwrap();
        assert_eq!(first, second, "key kind {key_type}");
        assert!(!concat(&first).is_empty());
    }
    assert_eq!(
        handler_dkg_get_keys(&store, 3),
        Err(AppSW::InvalidKeyType)
    );

    // the view-keys response carries the verifying key first
    let view_keys = concat(&handler_dkg_get_keys(&store, 1).unwrap());
    assert_eq!(view_keys.len(), 128);
    let pkg =
        ironfish_frost::frost::keys::PublicKeyPackage::deserialize(&public_key_package).unwrap();
    assert_eq!(
        &view_keys[..32],
        pkg.verifying_key().serialize().unwrap().as_slice()
    );

    // GetPublicPackage combines the persisted artifacts
    let combined = concat(&handler_dkg_get_public_package(&store).unwrap());
    let parsed =
        dkg::round3::PublicKeyPackage::deserialize_from(combined.as_slice()).unwrap();
    assert_eq!(parsed.identities().len(), 3);
    assert_eq!(parsed.min_signers(), min_signers as u16);
}

#[test]
fn round_2_claiming_more_packages_than_present_fails_before_deserializing() {
    // a payload that claims five round-1 public packages but carries only
    // four records' worth of bytes
    let len = 10usize;
    let mut payload = vec![0u8, 5u8, 0u8, len as u8];
    payload.extend(std::iter::repeat(0u8).take(4 * len));
    let secret = Secret::random(&mut rng(3));
    let mut ctx = TxContext::new();
    let r = handler_dkg_round_2(&mut ctx, 2, &payload, &secret);
    assert_eq!(r, Err(AppSW::BufferOutOfBounds));
}

#[test]
fn round_3_before_earlier_rounds_fails_with_missing_artifact() {
    // before round 3 has persisted anything, every reader of the durable
    // store reports a missing artifact instead of reading zeroed memory
    let store = DkgKeys::new();
    assert_eq!(
        handler_dkg_get_keys(&store, 0),
        Err(AppSW::MissingArtifact)
    );
    assert_eq!(
        handler_dkg_get_public_package(&store),
        Err(AppSW::MissingArtifact)
    );
}

#[test]
fn round_1_payload_with_trailing_bytes_is_rejected() {
    let secret = Secret::random(&mut rng(4));
    let identity = secret.to_identity();
    let mut payload = vec![0u8, 1u8];
    payload.extend(identity.serialize());
    payload.push(2u8);
    payload.push(99u8);  // trailing garbage
    let mut ctx = TxContext::new();
    let mut store = DkgKeys::new();
    let r = handler_dkg_round_1(&mut ctx, 2, &payload, &secret, &mut store);
    assert_eq!(r, Err(AppSW::InvalidPayload));
}

#[test]
fn round_3_with_fewer_packages_than_participants_is_rejected() {
    // a well-formed layout whose participants list is longer than the
    // round-1 and round-2 package lists: one package each, two
    // participants, one shard
    let secret = Secret::random(&mut rng(7));
    let mut payload = vec![0u8];
    let push_list = |payload: &mut Vec<u8>, count: u8, len: usize| {
        payload.push(count);
        payload.push((len >> 8) as u8);
        payload.push((len & 0xff) as u8);
        payload.extend(std::iter::repeat(0u8).take(count as usize * len));
    };
    push_list(&mut payload, 1, 4);  // round-1 packages
    push_list(&mut payload, 1, 4);  // round-2 packages
    payload.extend([0u8, 2, 9, 9]);  // round-2 secret package
    push_list(&mut payload, 2, 3);  // participants
    push_list(&mut payload, 1, 5);  // group-secret-key shards
    let mut ctx = TxContext::new();
    let mut store = DkgKeys::new();
    let r = handler_dkg_round_3(&mut ctx, 2, &payload, &secret, &mut store);
    assert_eq!(r, Err(AppSW::InvalidPayload));
}

#[test]
fn round_3_without_group_secret_key_shards_is_rejected() {
    let secret = Secret::random(&mut rng(8));
    let mut payload = vec![0u8];
    let push_list = |payload: &mut Vec<u8>, count: u8, len: usize| {
        payload.push(count);
        payload.push((len >> 8) as u8);
        payload.push((len & 0xff) as u8);
        payload.extend(std::iter::repeat(0u8).take(count as usize * len));
    };
    push_list(&mut payload, 1, 4);  // round-1 packages
    push_list(&mut payload, 1, 4);  // round-2 packages
    payload.extend([0u8, 2, 9, 9]);  // round-2 secret package
    push_list(&mut payload, 1, 3);  // participants
    push_list(&mut payload, 0, 5);  // no group-secret-key shards
    let mut ctx = TxContext::new();
    let mut store = DkgKeys::new();
    let r = handler_dkg_round_3(&mut ctx, 2, &payload, &secret, &mut store);
    assert_eq!(r, Err(AppSW::InvalidPayload));
}
