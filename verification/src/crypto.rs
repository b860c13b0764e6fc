use vstd::prelude::*;

use crate::error::AppSW;

verus! {

/// Length in bytes of a serialized participant identity.
pub const IDENTITY_LEN: usize = 129;

/// Length in bytes of a serialized verifying key.
pub const VERIFYING_KEY_LEN: usize = 32;

#[verifier::external_type_specification]
#[verifier::external_body]
pub struct ExSecret(ironfish_frost::participant::Secret);

#[verifier::external_type_specification]
#[verifier::external_body]
pub struct ExIdentity(ironfish_frost::participant::Identity);

#[verifier::external_type_specification]
#[verifier::external_body]
pub struct ExPublicPackage(ironfish_frost::dkg::round1::PublicPackage);

/// Whether a byte sequence deserializes to a participant identity.
pub uninterp spec fn valid_identity_bytes(b: Seq<u8>) -> bool;

/// Whether a byte sequence deserializes to a round-1 public package.
pub uninterp spec fn valid_public_package_bytes(b: Seq<u8>) -> bool;

/// The verifying key carried by a serialized public key package, if the
/// bytes deserialize to one.
pub uninterp spec fn verifying_key_of(b: Seq<u8>) -> Option<Seq<u8>>;

/// The signature share produced for a signing package, nonces, key package
/// and randomizer, all serialized, if they all deserialize and signing
/// succeeds. Signing with given nonces is deterministic in its inputs.
pub uninterp spec fn signature_share_of(
    signing_package: Seq<u8>,
    nonces: Seq<u8>,
    key_package: Seq<u8>,
    randomizer: Seq<u8>,
) -> Option<Seq<u8>>;

/// The serialized deterministic signing nonces for a serialized key
/// package, a transaction hash and the signing participants' serialized
/// identities, if the key package deserializes and serialization succeeds.
/// The nonces are drawn from a stream seeded by exactly these inputs.
pub uninterp spec fn nonces_bytes_of(
    key_package: Seq<u8>,
    tx_hash: Seq<u8>,
    identities: Seq<Seq<u8>>,
) -> Option<Seq<u8>>;

/// The serialized signing commitment belonging to the deterministic
/// signing nonces for the same inputs.
pub uninterp spec fn commitments_bytes_of(
    key_package: Seq<u8>,
    tx_hash: Seq<u8>,
    identities: Seq<Seq<u8>>,
) -> Option<Seq<u8>>;

/// The serialized combined public key package built from a serialized
/// frost public key package, the participants' serialized identities and
/// the min-signers threshold, if the package deserializes.
pub uninterp spec fn combined_package_of(
    public_key_package: Seq<u8>,
    identities: Seq<Seq<u8>>,
    min_signers: u16,
) -> Option<Seq<u8>>;

/// Relies on ironfish_frost::participant::Secret::to_identity: derives the
/// public identity belonging to a participant secret.
#[verifier::external_body]
pub(crate) fn secret_to_identity(secret: &ironfish_frost::participant::Secret) -> (r:
    ironfish_frost::participant::Identity)
{
    secret.to_identity()
}

/// Relies on ironfish_frost::participant::Identity::serialize: an identity
/// serializes to exactly `IDENTITY_LEN` bytes.
#[verifier::external_body]
pub(crate) fn identity_to_bytes(identity: &ironfish_frost::participant::Identity) -> (r: Vec<u8>)
    ensures
        r@.len() == IDENTITY_LEN,
        valid_identity_bytes(r@),
{
    identity.serialize().to_vec()
}

/// Relies on ironfish_frost::participant::Identity::deserialize_from,
/// which succeeds exactly on bytes that carry a well-formed identity; the
/// read is a function of the bytes alone.
#[verifier::external_body]
pub(crate) fn identity_from_bytes(b: &[u8]) -> (r: Result<
    ironfish_frost::participant::Identity,
    AppSW,
>)
    ensures
        r is Ok <==> valid_identity_bytes(b@),
        r is Err ==> (r matches Err(e) && e == AppSW::InvalidIdentity),
{
    ironfish_frost::participant::Identity::deserialize_from(b).map_err(
        |_| AppSW::InvalidIdentity,
    )
}

/// Relies on ironfish_frost::dkg::round1::round1: computes this
/// participant's encrypted round-1 secret package and public package. The
/// result is randomized, so nothing is stated of its value.
#[verifier::external_body]
pub(crate) fn dkg_round1(
    self_identity: &ironfish_frost::participant::Identity,
    min_signers: u16,
    participants: &Vec<ironfish_frost::participant::Identity>,
) -> (r: Result<(Vec<u8>, Vec<u8>), AppSW>)
    ensures
        r is Err ==> (r matches Err(e) && e == AppSW::DkgRound1Fail),
{
    match ironfish_frost::dkg::round1::round1(
        self_identity,
        min_signers,
        participants.iter(),
        rand_core::OsRng,
    ) {
        Ok((secret_package, public_package)) => Ok((secret_package, public_package.serialize())),
        Err(_) => Err(AppSW::DkgRound1Fail),
    }
}

/// Relies on ironfish_frost::dkg::round1::PublicPackage::deserialize_from,
/// which succeeds exactly on bytes that carry a well-formed round-1 public
/// package; the read is a function of the bytes alone.
#[verifier::external_body]
pub(crate) fn public_package_from_bytes(b: &[u8]) -> (r: Result<
    ironfish_frost::dkg::round1::PublicPackage,
    AppSW,
>)
    ensures
        r is Ok <==> valid_public_package_bytes(b@),
        r is Err ==> (r matches Err(e) && e == AppSW::InvalidPublicPackageRound1),
{
    ironfish_frost::dkg::round1::PublicPackage::deserialize_from(b).map_err(
        |_| AppSW::InvalidPublicPackageRound1,
    )
}

/// Relies on ironfish_frost::dkg::round2::round2: computes this
/// participant's encrypted round-2 secret package and combined public
/// package. The result is randomized, so nothing is stated of its value.
#[verifier::external_body]
pub(crate) fn dkg_round2(
    secret: &ironfish_frost::participant::Secret,
    round1_secret_package: &[u8],
    round1_public_packages: &Vec<ironfish_frost::dkg::round1::PublicPackage>,
) -> (r: Result<(Vec<u8>, Vec<u8>), AppSW>)
    ensures
        r is Err ==> (r matches Err(e) && e == AppSW::DkgRound2Fail),
{
    match ironfish_frost::dkg::round2::round2(
        secret,
        round1_secret_package,
        round1_public_packages.iter(),
        rand_core::OsRng,
    ) {
        Ok((secret_package, public_package)) => Ok((secret_package, public_package.serialize())),
        Err(_) => Err(AppSW::DkgRound2Fail),
    }
}

/// Relies on ironfish_frost::dkg::round3::round3_min: combines the
/// serialized round-1 and round-2 material into this participant's key
/// package, the group's public key package, and the 32-byte group secret
/// key. round3_min pairs each participant with a round-1 and a round-2
/// package by index and combines at least one group-secret-key shard, so
/// shorter package lists or an empty shard list are left out here.
#[verifier::external_body]
pub(crate) fn dkg_round3(
    secret: &ironfish_frost::participant::Secret,
    participants: &Vec<Vec<u8>>,
    round2_secret_package: &[u8],
    round1_packages: &Vec<Vec<u8>>,
    round2_packages: &Vec<Vec<u8>>,
    gsk_bytes: &Vec<Vec<u8>>,
) -> (r: Result<(Vec<u8>, Vec<u8>, Vec<u8>), AppSW>)
    requires
        participants@.len() <= round1_packages@.len(),
        participants@.len() <= round2_packages@.len(),
        gsk_bytes@.len() >= 1,
    ensures
        (r matches Ok(v) ==> v.2@.len() == crate::store::GROUP_SECRET_KEY_LEN),
        r is Err ==> (r matches Err(e) && e == AppSW::DkgRound3Fail),
{
    let (key_package, public_key_package, group_secret_key) = ironfish_frost::dkg::round3::round3_min(
        secret,
        participants.iter().map(|p| p.as_slice()).collect(),
        round2_secret_package,
        round1_packages.iter().map(|p| p.as_slice()).collect(),
        round2_packages.iter().map(|p| p.as_slice()).collect(),
        gsk_bytes.iter().map(|p| p.as_slice()).collect(),
    ).map_err(|_| AppSW::DkgRound3Fail)?;
    let kp = key_package.serialize().map_err(|_| AppSW::DkgRound3Fail)?;
    let pkp = public_key_package.serialize().map_err(|_| AppSW::DkgRound3Fail)?;
    Ok((kp, pkp, group_secret_key.to_vec()))
}

/// Relies on ironfish_frost::nonces::deterministic_signing_nonces (and
/// KeyPackage::deserialize, Identity::deserialize_from and
/// SigningNonces::serialize around it): derives this participant's signing
/// nonces for a transaction hash, a function of the serialized inputs
/// alone, named by `nonces_bytes_of`. The identity records must
/// deserialize (the callers have validated them), so the conversion cannot
/// fail.
#[verifier::external_body]
pub(crate) fn signing_nonces_bytes(
    key_package: &[u8],
    tx_hash: &[u8],
    identities: &Vec<Vec<u8>>,
) -> (r: Result<Vec<u8>, AppSW>)
    requires
        forall|i: int|
            0 <= i < identities@.len() ==> valid_identity_bytes(#[trigger] identities@[i]@),
    ensures
        r is Ok <==> nonces_bytes_of(
            key_package@,
            tx_hash@,
            identities@.map_values(|v: Vec<u8>| v@),
        ) is Some,
        (r matches Ok(v) ==> nonces_bytes_of(
            key_package@,
            tx_hash@,
            identities@.map_values(|v: Vec<u8>| v@),
        ) == Some(v@)),
        r is Err ==> (r matches Err(e) && (e == AppSW::InvalidKeyPackage || e
            == AppSW::TxSignFail)),
{
    let kp = ironfish_frost::frost::keys::KeyPackage::deserialize(key_package).map_err(
        |_| AppSW::InvalidKeyPackage,
    )?;
    let participants: Vec<ironfish_frost::participant::Identity> = identities.iter().map(
        |b| ironfish_frost::participant::Identity::deserialize_from(b.as_slice()).unwrap(),
    ).collect();
    let nonces = ironfish_frost::nonces::deterministic_signing_nonces(
        kp.signing_share(),
        tx_hash,
        &participants,
    );
    nonces.serialize().map_err(|_| AppSW::TxSignFail)
}

/// Relies on ironfish_frost::nonces::deterministic_signing_nonces and
/// frost::round1::SigningCommitments::from (and KeyPackage::deserialize,
/// Identity::deserialize_from and SigningCommitments::serialize around
/// them): derives this participant's signing commitment for a transaction
/// hash, a function of the serialized inputs alone, named by
/// `commitments_bytes_of`. The identity records must deserialize (the
/// callers have validated them), so the conversion cannot fail.
#[verifier::external_body]
pub(crate) fn signing_commitments_bytes(
    key_package: &[u8],
    tx_hash: &[u8],
    identities: &Vec<Vec<u8>>,
) -> (r: Result<Vec<u8>, AppSW>)
    requires
        forall|i: int|
            0 <= i < identities@.len() ==> valid_identity_bytes(#[trigger] identities@[i]@),
    ensures
        r is Ok <==> commitments_bytes_of(
            key_package@,
            tx_hash@,
            identities@.map_values(|v: Vec<u8>| v@),
        ) is Some,
        (r matches Ok(v) ==> commitments_bytes_of(
            key_package@,
            tx_hash@,
            identities@.map_values(|v: Vec<u8>| v@),
        ) == Some(v@)),
        r is Err ==> (r matches Err(e) && (e == AppSW::InvalidKeyPackage || e
            == AppSW::TxSignFail)),
{
    let kp = ironfish_frost::frost::keys::KeyPackage::deserialize(key_package).map_err(
        |_| AppSW::InvalidKeyPackage,
    )?;
    let participants: Vec<ironfish_frost::participant::Identity> = identities.iter().map(
        |b| ironfish_frost::participant::Identity::deserialize_from(b.as_slice()).unwrap(),
    ).collect();
    let nonces = ironfish_frost::nonces::deterministic_signing_nonces(
        kp.signing_share(),
        tx_hash,
        &participants,
    );
    let commitments = ironfish_frost::frost::round1::SigningCommitments::from(&nonces);
    commitments.serialize().map_err(|_| AppSW::TxSignFail)
}

/// Relies on ironfish_frost::frost::round2::sign (and the deserialization
/// of its four serialized inputs): produces this participant's signature
/// share. Signing with given nonces is a function of the inputs alone,
/// named by `signature_share_of`.
#[verifier::external_body]
pub(crate) fn frost_sign(
    signing_package: &[u8],
    nonces: &[u8],
    key_package: &[u8],
    randomizer: &[u8],
) -> (r: Result<Vec<u8>, AppSW>)
    ensures
        r is Ok <==> signature_share_of(signing_package@, nonces@, key_package@, randomizer@)
            is Some,
        r matches Ok(v) ==> signature_share_of(
            signing_package@,
            nonces@,
            key_package@,
            randomizer@,
        ) == Some(v@),
        r is Err ==> (r matches Err(e) && (e == AppSW::InvalidRandomizer || e
            == AppSW::InvalidSigningPackage || e == AppSW::InvalidSigningNonces || e
            == AppSW::InvalidKeyPackage || e == AppSW::TxSignFail)),
{
    let randomizer = ironfish_frost::frost::Randomizer::deserialize(randomizer).map_err(
        |_| AppSW::InvalidRandomizer,
    )?;
    let signing_package = ironfish_frost::frost::SigningPackage::deserialize(
        signing_package,
    ).map_err(|_| AppSW::InvalidSigningPackage)?;
    let nonces = ironfish_frost::frost::round1::SigningNonces::deserialize(nonces).map_err(
        |_| AppSW::InvalidSigningNonces,
    )?;
    let kp = ironfish_frost::frost::keys::KeyPackage::deserialize(key_package).map_err(
        |_| AppSW::InvalidKeyPackage,
    )?;
    let share = ironfish_frost::frost::round2::sign(&signing_package, &nonces, &kp, randomizer)
        .map_err(|_| AppSW::TxSignFail)?;
    Ok(share.serialize())
}

/// Relies on frost keys::PublicKeyPackage::deserialize and
/// VerifyingKey::serialize: reads the group's verifying key out of a
/// serialized public key package, a function of the bytes alone.
#[verifier::external_body]
pub(crate) fn frost_verifying_key(public_key_package: &[u8]) -> (r: Result<Vec<u8>, AppSW>)
    ensures
        r is Ok <==> verifying_key_of(public_key_package@) is Some,
        r matches Ok(v) ==> verifying_key_of(public_key_package@) == Some(v@) && v@.len()
            == VERIFYING_KEY_LEN,
        r is Err ==> (r matches Err(e) && e == AppSW::InvalidPublicPackage),
{
    let pkg = ironfish_frost::frost::keys::PublicKeyPackage::deserialize(
        public_key_package,
    ).map_err(|_| AppSW::InvalidPublicPackage)?;
    let vk = pkg.verifying_key().serialize().map_err(|_| AppSW::InvalidPublicPackage)?;
    Ok(vk)
}

/// Relies on ironfish_frost::dkg::round3::PublicKeyPackage::from_frost and
/// its serialize (and frost keys::PublicKeyPackage::deserialize and
/// Identity::deserialize_from around them): combines the frost public key
/// package with the participant identities and min-signers into the
/// combined public key package blob, a function of the serialized inputs
/// alone, named by `combined_package_of`. The identity records must
/// deserialize (the callers have validated them), so the conversion cannot
/// fail.
#[verifier::external_body]
pub(crate) fn combined_public_package_bytes(
    frost_public_key_package: &[u8],
    identities: &Vec<Vec<u8>>,
    min_signers: u16,
) -> (r: Result<Vec<u8>, AppSW>)
    requires
        forall|i: int|
            0 <= i < identities@.len() ==> valid_identity_bytes(#[trigger] identities@[i]@),
    ensures
        r is Ok <==> combined_package_of(
            frost_public_key_package@,
            identities@.map_values(|v: Vec<u8>| v@),
            min_signers,
        ) is Some,
        (r matches Ok(v) ==> combined_package_of(
            frost_public_key_package@,
            identities@.map_values(|v: Vec<u8>| v@),
            min_signers,
        ) == Some(v@)),
        r is Err ==> (r matches Err(e) && e == AppSW::InvalidPublicPackage),
{
    let pkg = ironfish_frost::frost::keys::PublicKeyPackage::deserialize(
        frost_public_key_package,
    ).map_err(|_| AppSW::InvalidPublicPackage)?;
    let participants: Vec<ironfish_frost::participant::Identity> = identities.iter().map(
        |b| ironfish_frost::participant::Identity::deserialize_from(b.as_slice()).unwrap(),
    ).collect();
    let combined = ironfish_frost::dkg::round3::PublicKeyPackage::from_frost(
        pkg,
        participants,
        min_signers,
    );
    Ok(combined.serialize())
}

} // verus!
