use vstd::prelude::*;

use crate::error::AppSW;

verus! {

/// Size in bytes of a spending key, a derived key part, or an address.
pub const KEY_SIZE: usize = 32;

/// The all-zero 32-byte sequence: an illegal value for derived scalars.
pub open spec fn zero32() -> Seq<u8> {
    Seq::new(32nat, |i: int| 0u8)
}

/// The 64-byte expansion of a spending key under the given modifier byte,
/// as computed by the seeded BLAKE2b hash.
pub uninterp spec fn expand_of(key: Seq<u8>, modifier: u8) -> Seq<u8>;

/// The 32-byte BLAKE2s digest, under the incoming-view-key
/// personalization, of the concatenated authorizing and nullifier keys.
pub uninterp spec fn crh_ivk_of(data: Seq<u8>) -> Seq<u8>;

/// The canonical 32-byte representation of a wide 64-byte value reduced
/// into the scalar field.
pub uninterp spec fn fr_wide_reduce_of(wide: Seq<u8>) -> Seq<u8>;

/// The affine bytes of the spend-authorizing generator multiplied by the
/// given scalar bits.
pub uninterp spec fn spend_auth_point_of(scalar: Seq<u8>) -> Seq<u8>;

/// The affine bytes of the proof-generation generator multiplied by the
/// given scalar bits.
pub uninterp spec fn nullifier_point_of(scalar: Seq<u8>) -> Seq<u8>;

/// The affine bytes of the public-key generator multiplied by the given
/// scalar bits.
pub uninterp spec fn public_address_point_of(scalar: Seq<u8>) -> Seq<u8>;

/// Whether 32 bytes are the canonical encoding of a curve point.
pub uninterp spec fn valid_point_bytes(b: Seq<u8>) -> bool;

/// Relies on blake2b_simd with the expanded-spending-key personalization:
/// a 64-byte keyed expansion, a function of the key and modifier alone.
#[verifier::external_body]
fn blake2b_expand(key: &[u8], modifier: u8) -> (r: Vec<u8>)
    ensures
        r@.len() == 64,
        r@ == expand_of(key@, modifier),
{
    let mut hasher = blake2b_simd::Params::new().hash_length(64).personal(
        b"Iron Fish Money ",
    ).to_state();
    hasher.update(key);
    hasher.update(&[modifier]);
    hasher.finalize().as_ref().to_vec()
}

/// Relies on blake2s_simd with the incoming-view-key personalization: a
/// 32-byte digest, a function of the input alone.
#[verifier::external_body]
fn blake2s_crh_ivk(data: &[u8]) -> (r: Vec<u8>)
    ensures
        r@.len() == 32,
        r@ == crh_ivk_of(data@),
{
    blake2s_simd::Params::new().hash_length(32).personal(b"Zcashivk").hash(
        data,
    ).as_bytes().to_vec()
}

/// Relies on jubjub::Fr::from_bytes_wide and to_bytes: reduces 64 wide
/// bytes into the scalar field and returns the canonical 32-byte form, a
/// function of the input alone. The zero scalar's canonical form is the
/// all-zero sequence.
#[verifier::external_body]
fn fr_from_wide(wide: &[u8]) -> (r: Vec<u8>)
    requires
        wide@.len() == 64,
    ensures
        r@.len() == 32,
        r@ == fr_wide_reduce_of(wide@),
{
    let mut arr = [0u8; 64];
    arr.copy_from_slice(wide);
    jubjub::Fr::from_bytes_wide(&arr).to_bytes().to_vec()
}

/// Relies on jubjub's AffineNielsPoint::multiply_bits over the Sapling
/// spend-authorizing generator, and AffinePoint::to_bytes: a function of
/// the scalar bits alone.
#[verifier::external_body]
fn mul_spend_auth_generator(scalar: &[u8]) -> (r: Vec<u8>)
    requires
        scalar@.len() == 32,
    ensures
        r@.len() == 32,
        r@ == spend_auth_point_of(scalar@),
{
    let mut arr = [0u8; 32];
    arr.copy_from_slice(scalar);
    let base = jubjub::AffinePoint::from_raw_unchecked(
        jubjub::Fq::from_raw([0x47bf_4692_0a95_a753, 0xd5b9_a7d3_ef8e_2827, 0xd418_a7ff_2675_3b6a, 0x0926_d4f3_2059_c712]),
        jubjub::Fq::from_raw([0x3056_32ad_aaf2_b530, 0x6d65_674d_cedb_ddbc, 0x53bb_37d0_c21c_fd05, 0x57a1_019e_6de9_b675]),
    ).to_niels();
    jubjub::AffinePoint::from(&base.multiply_bits(&arr)).to_bytes().to_vec()
}

/// Relies on jubjub's AffineNielsPoint::multiply_bits over the Sapling
/// proof-generation generator, and AffinePoint::to_bytes: a function of
/// the scalar bits alone.
#[verifier::external_body]
fn mul_nullifier_generator(scalar: &[u8]) -> (r: Vec<u8>)
    requires
        scalar@.len() == 32,
    ensures
        r@.len() == 32,
        r@ == nullifier_point_of(scalar@),
{
    let mut arr = [0u8; 32];
    arr.copy_from_slice(scalar);
    let base = jubjub::AffinePoint::from_raw_unchecked(
        jubjub::Fq::from_raw([0x3af2_dbef_b96e_2571, 0xadf2_d038_f2fb_b820, 0x7043_03f1_e890_6081, 0x1457_a502_31cd_e2df]),
        jubjub::Fq::from_raw([0x467a_f9f7_e05d_e8e7, 0x50df_51ea_f5a1_49d2, 0xdec9_0184_0f49_48cc, 0x54b6_d107_18df_2a7a]),
    ).to_niels();
    jubjub::AffinePoint::from(&base.multiply_bits(&arr)).to_bytes().to_vec()
}

/// Relies on jubjub's AffineNielsPoint::multiply_bits over the Sapling
/// public-key generator, and AffinePoint::to_bytes: a function of the
/// scalar bits alone.
#[verifier::external_body]
fn mul_public_key_generator(scalar: &[u8]) -> (r: Vec<u8>)
    requires
        scalar@.len() == 32,
    ensures
        r@.len() == 32,
        r@ == public_address_point_of(scalar@),
{
    let mut arr = [0u8; 32];
    arr.copy_from_slice(scalar);
    let base = jubjub::AffinePoint::from_raw_unchecked(
        jubjub::Fq::from_raw([0x3edc_c85f_4d1a_44cd, 0x77ff_8c90_a9a0_d8f4, 0x0daf_03b5_47e2_022b, 0x6dad_65e6_2328_d37a]),
        jubjub::Fq::from_raw([0x5095_1f1f_eff0_8278, 0xf0b7_03d5_3a3e_dd4e, 0xca01_f580_9c00_eee2, 0x6996_932c_ece1_f4bb]),
    ).to_niels();
    jubjub::AffinePoint::from(&base.multiply_bits(&arr)).to_bytes().to_vec()
}

/// Relies on jubjub::AffinePoint::from_bytes: whether 32 bytes encode a
/// curve point, a function of the bytes alone.
#[verifier::external_body]
fn point_bytes_valid(b: &[u8]) -> (r: bool)
    requires
        b@.len() == 32,
    ensures
        r == valid_point_bytes(b@),
{
    let mut arr = [0u8; 32];
    arr.copy_from_slice(b);
    bool::from(jubjub::AffinePoint::from_bytes(arr).is_some())
}

/// Key that allows someone to view a transaction that has been received.
pub struct IncomingViewKey {
    pub view_key: Vec<u8>,
}

/// Key that allows someone to view a transaction that has been spent.
pub struct OutgoingViewKey {
    pub view_key: Vec<u8>,
}

/// The two key parts that, with the outgoing view key, give full view
/// access to an account.
pub struct ViewKey {
    pub authorizing_key: Vec<u8>,
    pub nullifier_deriving_key: Vec<u8>,
}

/// The key pair used when generating spending proofs.
pub struct ProofGenerationKey {
    pub ak: Vec<u8>,
    pub nsk: Vec<u8>,
}

/// The address to which funds can be sent, as the canonical bytes of a
/// public transmission key.
pub struct PublicAddress {
    pub bytes: Vec<u8>,
}

/// The incoming view key derived from an authorizing key and a nullifier
/// deriving key: the personalized digest of their concatenation with the
/// top five bits of the last byte dropped, refused when it comes out all
/// zero.
pub open spec fn spec_hash_viewing_key(ak: Seq<u8>, nk: Seq<u8>) -> Seq<u8> {
    let h = crh_ivk_of(ak.add(nk));
    h.update(31, (h[31] & 0x07) as u8)
}

/// The spend-authorizing scalar derived from a spending key.
pub open spec fn spec_ask(sk: Seq<u8>) -> Seq<u8> {
    fr_wide_reduce_of(expand_of(sk, 0))
}

/// The proof-authorizing scalar derived from a spending key.
pub open spec fn spec_nsk(sk: Seq<u8>) -> Seq<u8> {
    fr_wide_reduce_of(expand_of(sk, 1))
}

/// The outgoing view key derived from a spending key.
pub open spec fn spec_ovk(sk: Seq<u8>) -> Seq<u8> {
    expand_of(sk, 2).take(32)
}

/// The authorizing key derived from a spending key: the spend-authorizing
/// generator times the spend-authorizing scalar.
pub open spec fn spec_ak(sk: Seq<u8>) -> Seq<u8> {
    spend_auth_point_of(spec_ask(sk))
}

/// The nullifier deriving key derived from a spending key: the
/// proof-generation generator times the proof-authorizing scalar.
pub open spec fn spec_nk(sk: Seq<u8>) -> Seq<u8> {
    nullifier_point_of(spec_nsk(sk))
}

/// Whether every byte of `b` is zero.
pub fn bytes_all_zero(b: &[u8]) -> (r: bool)
    ensures
        r <==> b@ == Seq::new(b@.len(), |i: int| 0u8),
{
    let mut i: usize = 0;
    while i < b.len()
        invariant
            i <= b@.len(),
            forall|j: int| 0 <= j < i ==> b@[j] == 0,
        decreases b@.len() - i,
    {
        if *vstd::slice::slice_index_get(b, i) != 0 {
            proof {
                assert(b@[i as int] != 0);
                assert(Seq::new(b@.len(), |j: int| 0u8)[i as int] == 0);
            }
            return false;
        }
        i = i + 1;
    }
    proof {
        assert(b@ =~= Seq::new(b@.len(), |j: int| 0u8));
    }
    true
}

/// Derives the incoming view key bytes from the authorizing key and the
/// nullifier deriving key. Fails exactly when the masked digest is all
/// zero, which cannot be read as a scalar.
pub fn hash_viewing_key(authorizing_key: &[u8], nullifier_deriving_key: &[u8]) -> (r: Result<
    Vec<u8>,
    AppSW,
>)
    requires
        authorizing_key@.len() == 32,
        nullifier_deriving_key@.len() == 32,
    ensures
        match r {
            Ok(v) => v@.len() == 32 && v@ == spec_hash_viewing_key(
                authorizing_key@,
                nullifier_deriving_key@,
            ) && v@ != zero32(),
            Err(e) => spec_hash_viewing_key(authorizing_key@, nullifier_deriving_key@) == zero32()
                && e == AppSW::KeyDeriveFail,
        },
{
    let mut contents: Vec<u8> = Vec::new();
    contents.extend_from_slice(authorizing_key);
    contents.extend_from_slice(nullifier_deriving_key);
    proof {
        assert(contents@ =~= authorizing_key@.add(nullifier_deriving_key@));
    }
    let mut hash = blake2s_crh_ivk(contents.as_slice());
    // drop the last five bits, so the digest reads as a scalar
    let last = hash[31] & 0x07;
    hash.set(31, last);
    if bytes_all_zero(hash.as_slice()) {
        proof {
            assert(hash@ =~= zero32());
        }
        return Err(AppSW::KeyDeriveFail);
    }
    proof {
        assert(zero32() =~= Seq::new(hash@.len(), |i: int| 0u8));
    }
    Ok(hash)
}

/// A single private key and the key parts derived from it, each a fixed
/// function of the spending key.
pub struct SaplingKey {
    pub spending_key: Vec<u8>,
    pub spend_authorizing_key: Vec<u8>,
    pub proof_authorizing_key: Vec<u8>,
    pub outgoing_viewing_key: OutgoingViewKey,
    pub view_key: ViewKey,
    pub incoming_viewing_key: IncomingViewKey,
}

impl SaplingKey {
    /// All parts present with their fixed sizes and derivations from the
    /// spending key.
    pub open spec fn wf(&self) -> bool {
        &&& self.spending_key@.len() == 32
        &&& self.spend_authorizing_key@.len() == 32
        &&& self.proof_authorizing_key@.len() == 32
        &&& self.outgoing_viewing_key.view_key@.len() == 32
        &&& self.view_key.authorizing_key@.len() == 32
        &&& self.view_key.nullifier_deriving_key@.len() == 32
        &&& self.incoming_viewing_key.view_key@.len() == 32
        &&& self.spend_authorizing_key@ == spec_ask(self.spending_key@)
        &&& self.proof_authorizing_key@ == spec_nsk(self.spending_key@)
        &&& self.outgoing_viewing_key.view_key@ == spec_ovk(self.spending_key@)
        &&& self.view_key.authorizing_key@ == spec_ak(self.spending_key@)
        &&& self.view_key.nullifier_deriving_key@ == spec_nk(self.spending_key@)
        &&& self.incoming_viewing_key.view_key@ == spec_hash_viewing_key(
            spec_ak(self.spending_key@),
            spec_nk(self.spending_key@),
        )
    }

    /// Derives every key part from a 32-byte spending key. Fails exactly
    /// when the spend-authorizing scalar reduces to zero or the incoming
    /// view key digest comes out all zero.
    pub fn new(spending_key: &[u8]) -> (r: Result<SaplingKey, AppSW>)
        requires
            spending_key@.len() == 32,
        ensures
            match r {
                Ok(k) => {
                    &&& k.wf()
                    &&& k.spending_key@ == spending_key@
                    &&& spec_ask(spending_key@) != zero32()
                    &&& spec_hash_viewing_key(spec_ak(spending_key@), spec_nk(spending_key@))
                        != zero32()
                },
                Err(e) => {
                    &&& e == AppSW::KeyDeriveFail
                    &&& {
                        ||| spec_ask(spending_key@) == zero32()
                        ||| spec_hash_viewing_key(spec_ak(spending_key@), spec_nk(spending_key@))
                            == zero32()
                    }
                },
            },
    {
        let wide0 = blake2b_expand(spending_key, 0);
        let ask = fr_from_wide(wide0.as_slice());
        if bytes_all_zero(ask.as_slice()) {
            proof {
                assert(ask@ =~= zero32());
            }
            return Err(AppSW::KeyDeriveFail);
        }
        proof {
            assert(zero32() =~= Seq::new(ask@.len(), |i: int| 0u8));
        }
        let wide1 = blake2b_expand(spending_key, 1);
        let nsk = fr_from_wide(wide1.as_slice());
        let wide2 = blake2b_expand(spending_key, 2);
        let ovk = vstd::slice::slice_to_vec(vstd::slice::slice_subrange(wide2.as_slice(), 0, 32));
        proof {
            assert(ovk@ =~= spec_ovk(spending_key@));
        }
        let ak = mul_spend_auth_generator(ask.as_slice());
        let nk = mul_nullifier_generator(nsk.as_slice());
        let ivk = match hash_viewing_key(ak.as_slice(), nk.as_slice()) {
            Ok(v) => v,
            Err(e) => {
                return Err(e);
            },
        };
        Ok(
            SaplingKey {
                spending_key: vstd::slice::slice_to_vec(spending_key),
                spend_authorizing_key: ask,
                proof_authorizing_key: nsk,
                outgoing_viewing_key: OutgoingViewKey { view_key: ovk },
                view_key: ViewKey { authorizing_key: ak, nullifier_deriving_key: nk },
                incoming_viewing_key: IncomingViewKey { view_key: ivk },
            },
        )
    }

    /// The publicly visible outgoing viewing key.
    pub fn outgoing_view_key(&self) -> (r: &OutgoingViewKey)
        ensures
            r == &self.outgoing_viewing_key,
    {
        &self.outgoing_viewing_key
    }

    /// The publicly visible incoming viewing key.
    pub fn incoming_view_key(&self) -> (r: &IncomingViewKey)
        ensures
            r == &self.incoming_viewing_key,
    {
        &self.incoming_viewing_key
    }

    /// The proof generation key pair: the authorizing key and the
    /// proof-authorizing scalar.
    pub fn sapling_proof_generation_key(&self) -> (r: ProofGenerationKey)
        ensures
            r.ak@ == self.view_key.authorizing_key@,
            r.nsk@ == self.proof_authorizing_key@,
    {
        ProofGenerationKey {
            ak: vstd::slice::slice_to_vec(self.view_key.authorizing_key.as_slice()),
            nsk: vstd::slice::slice_to_vec(self.proof_authorizing_key.as_slice()),
        }
    }
}

impl PublicAddress {
    /// Reads a public address from its 32-byte form. Fails exactly when the
    /// bytes do not encode a curve point.
    pub fn new(bytes: &[u8]) -> (r: Result<PublicAddress, AppSW>)
        requires
            bytes@.len() == 32,
        ensures
            match r {
                Ok(p) => valid_point_bytes(bytes@) && p.bytes@ == bytes@,
                Err(e) => !valid_point_bytes(bytes@) && e == AppSW::AddrDisplayFail,
            },
    {
        if point_bytes_valid(bytes) {
            Ok(PublicAddress { bytes: vstd::slice::slice_to_vec(bytes) })
        } else {
            Err(AppSW::AddrDisplayFail)
        }
    }

    /// Derives the public address belonging to an incoming view key.
    pub fn from_view_key(view_key: &IncomingViewKey) -> (r: PublicAddress)
        requires
            view_key.view_key@.len() == 32,
        ensures
            r.bytes@.len() == 32,
            r.bytes@ == public_address_point_of(view_key.view_key@),
    {
        PublicAddress { bytes: mul_public_key_generator(view_key.view_key.as_slice()) }
    }

    /// Derives the public address belonging to a sapling key.
    pub fn from_key(sapling_key: &SaplingKey) -> (r: PublicAddress)
        requires
            sapling_key.incoming_viewing_key.view_key@.len() == 32,
        ensures
            r.bytes@.len() == 32,
            r.bytes@ == public_address_point_of(sapling_key.incoming_viewing_key.view_key@),
    {
        Self::from_view_key(&sapling_key.incoming_viewing_key)
    }

    /// The public address in byte form.
    pub fn public_address(&self) -> (r: Vec<u8>)
        ensures
            r@ == self.bytes@,
    {
        vstd::slice::slice_to_vec(self.bytes.as_slice())
    }
}

impl IncomingViewKey {
    /// Derives the unique public address of this incoming view key.
    pub fn public_address(&self) -> (r: PublicAddress)
        requires
            self.view_key@.len() == 32,
        ensures
            r.bytes@.len() == 32,
            r.bytes@ == public_address_point_of(self.view_key@),
    {
        PublicAddress::from_view_key(self)
    }
}

/// The account key parts derivable by a multisig participant from the
/// group's authorizing key and group secret key.
pub struct MultisigAccountKeys {
    pub proof_authorizing_key: Vec<u8>,
    pub outgoing_viewing_key: OutgoingViewKey,
    pub view_key: ViewKey,
    pub incoming_viewing_key: IncomingViewKey,
    pub public_address: PublicAddress,
}

impl MultisigAccountKeys {
    /// Every part carries the derivation from the group inputs, so two
    /// derivations from the same inputs agree part for part.
    pub open spec fn derived_from(&self, authorizing_key: Seq<u8>, group_secret_key: Seq<u8>)
        -> bool {
        &&& self.proof_authorizing_key@.len() == 32
        &&& self.outgoing_viewing_key.view_key@.len() == 32
        &&& self.view_key.authorizing_key@.len() == 32
        &&& self.view_key.nullifier_deriving_key@.len() == 32
        &&& self.incoming_viewing_key.view_key@.len() == 32
        &&& self.public_address.bytes@.len() == 32
        &&& self.proof_authorizing_key@ == spec_nsk(group_secret_key)
        &&& self.outgoing_viewing_key.view_key@ == spec_ovk(group_secret_key)
        &&& self.view_key.authorizing_key@ == authorizing_key
        &&& self.view_key.nullifier_deriving_key@ == spec_nk(group_secret_key)
        &&& self.incoming_viewing_key.view_key@ == spec_hash_viewing_key(
            authorizing_key,
            spec_nk(group_secret_key),
        )
        &&& self.public_address.bytes@ == public_address_point_of(
            spec_hash_viewing_key(authorizing_key, spec_nk(group_secret_key)),
        )
    }
}

/// Whether account keys can be derived at all from the group inputs: the
/// group key's scalar parts and both incoming view key digests must be
/// legal, and the authorizing key must encode a curve point.
pub open spec fn spec_account_keys_ok(authorizing_key: Seq<u8>, group_secret_key: Seq<u8>)
    -> bool {
    &&& spec_ask(group_secret_key) != zero32()
    &&& spec_hash_viewing_key(spec_ak(group_secret_key), spec_nk(group_secret_key)) != zero32()
    &&& valid_point_bytes(authorizing_key)
    &&& spec_hash_viewing_key(authorizing_key, spec_nk(group_secret_key)) != zero32()
}

/// Derives the multisig account keys from the group's 32-byte authorizing
/// key and 32-byte group secret key. The result is a fixed function of the
/// two inputs: re-running the derivation with unchanged inputs returns
/// byte-identical key material. Fails exactly when the derivation is
/// impossible (`spec_account_keys_ok`).
pub fn derive_account_keys(authorizing_key: &[u8], group_secret_key: &[u8]) -> (r: Result<
    MultisigAccountKeys,
    AppSW,
>)
    requires
        authorizing_key@.len() == 32,
        group_secret_key@.len() == 32,
    ensures
        match r {
            Ok(keys) => spec_account_keys_ok(authorizing_key@, group_secret_key@)
                && keys.derived_from(authorizing_key@, group_secret_key@),
            Err(e) => !spec_account_keys_ok(authorizing_key@, group_secret_key@) && e
                == AppSW::KeyDeriveFail,
        },
{
    let group_key = match SaplingKey::new(group_secret_key) {
        Ok(k) => k,
        Err(_) => {
            return Err(AppSW::KeyDeriveFail);
        },
    };
    if !point_bytes_valid(authorizing_key) {
        return Err(AppSW::KeyDeriveFail);
    }
    let proof_authorizing_key = vstd::slice::slice_to_vec(
        group_key.proof_authorizing_key.as_slice(),
    );
    let nullifier_deriving_key = mul_nullifier_generator(proof_authorizing_key.as_slice());
    let ivk = match hash_viewing_key(authorizing_key, nullifier_deriving_key.as_slice()) {
        Ok(v) => v,
        Err(_) => {
            return Err(AppSW::KeyDeriveFail);
        },
    };
    let incoming_viewing_key = IncomingViewKey { view_key: ivk };
    let public_address = incoming_viewing_key.public_address();
    Ok(
        MultisigAccountKeys {
            proof_authorizing_key,
            outgoing_viewing_key: OutgoingViewKey {
                view_key: vstd::slice::slice_to_vec(
                    group_key.outgoing_viewing_key.view_key.as_slice(),
                ),
            },
            view_key: ViewKey {
                authorizing_key: vstd::slice::slice_to_vec(authorizing_key),
                nullifier_deriving_key,
            },
            incoming_viewing_key,
            public_address,
        },
    )
}

} // verus!
