use vstd::prelude::*;

use crate::deserialize::RawField;
use crate::error::ParserError;
use crate::parser::burns::{Burn, BURN_LEN};
use crate::parser::mints::{Mint, MINT_LEN};
use crate::parser::outputs::{Output, OUTPUT_LEN};
use crate::parser::spends::{Spend, SPEND_LEN};
use crate::parser::tx_version::TransactionVersion;

verus! {

/// Size in bytes of a public key on the wire.
pub const KEY_LENGTH: usize = 32;

/// Size in bytes of a binding signature on the wire.
pub const REDJUBJUB_SIGNATURE_LEN: usize = 64;

/// Size in bytes of the fixed transaction header: version byte, four
/// little-endian record counts, fee, expiration, and two public keys.
pub const TX_HEADER_LEN: usize = 109;

/// The little-endian 64-bit value read at offset `i`.
pub open spec fn le_u64_at(b: Seq<u8>, i: int) -> int {
    (((((((b[i + 7] * 256 + b[i + 6]) * 256 + b[i + 5]) * 256 + b[i + 4]) * 256 + b[i + 3]) * 256
        + b[i + 2]) * 256 + b[i + 1]) * 256 + b[i])
}

/// The little-endian 32-bit value read at offset `i`.
pub open spec fn le_u32_at(b: Seq<u8>, i: int) -> int {
    ((b[i + 3] * 256 + b[i + 2]) * 256 + b[i + 1]) * 256 + b[i]
}

/// Reads a little-endian `u64` out of `b` at offset `i`.
pub fn read_le_u64(b: &[u8], i: usize) -> (r: u64)
    requires
        i + 8 <= b@.len(),
        i + 8 <= usize::MAX,
    ensures
        r == le_u64_at(b@, i as int),
{
    let v7 = *vstd::slice::slice_index_get(b, i + 7) as u64;
    let v6 = v7 * 256 + (*vstd::slice::slice_index_get(b, i + 6) as u64);
    let v5 = v6 * 256 + (*vstd::slice::slice_index_get(b, i + 5) as u64);
    let v4 = v5 * 256 + (*vstd::slice::slice_index_get(b, i + 4) as u64);
    let v3 = v4 * 256 + (*vstd::slice::slice_index_get(b, i + 3) as u64);
    let v2 = v3 * 256 + (*vstd::slice::slice_index_get(b, i + 2) as u64);
    let v1 = v2 * 256 + (*vstd::slice::slice_index_get(b, i + 1) as u64);
    v1 * 256 + (*vstd::slice::slice_index_get(b, i) as u64)
}

/// Reads a little-endian `u32` out of `b` at offset `i`.
pub fn read_le_u32(b: &[u8], i: usize) -> (r: u32)
    requires
        i + 4 <= b@.len(),
        i + 4 <= usize::MAX,
    ensures
        r == le_u32_at(b@, i as int),
{
    let v3 = *vstd::slice::slice_index_get(b, i + 3) as u32;
    let v2 = v3 * 256 + (*vstd::slice::slice_index_get(b, i + 2) as u32);
    let v1 = v2 * 256 + (*vstd::slice::slice_index_get(b, i + 1) as u32);
    v1 * 256 + (*vstd::slice::slice_index_get(b, i) as u32)
}

/// Whether `b` is a well-formed transaction image: a full header, a known
/// version byte, record counts that fit one byte each, and a total length
/// that is exactly the header, the four record runs, and the binding
/// signature — no trailing and no missing bytes.
pub open spec fn spec_tx_wf(b: Seq<u8>) -> bool {
    &&& b.len() >= TX_HEADER_LEN
    &&& (b[0] == 1 || b[0] == 2)
    &&& le_u64_at(b, 1) <= 255
    &&& le_u64_at(b, 9) <= 255
    &&& le_u64_at(b, 17) <= 255
    &&& le_u64_at(b, 25) <= 255
    &&& b.len() == TX_HEADER_LEN + le_u64_at(b, 1) * SPEND_LEN + le_u64_at(b, 9) * OUTPUT_LEN
        + le_u64_at(b, 17) * MINT_LEN + le_u64_at(b, 25) * BURN_LEN + REDJUBJUB_SIGNATURE_LEN
}

/// A parsed shielded transaction: header fields by value, and the four
/// record runs as zero-copy fixed-stride descriptors over the input.
pub struct Transaction<'a> {
    pub tx_version: TransactionVersion,
    pub random_pubkey: &'a [u8],
    pub pubkey_randomness: &'a [u8],
    pub spends: RawField<'a, Spend>,
    pub outputs: RawField<'a, Output>,
    pub mints: RawField<'a, Mint>,
    pub burns: RawField<'a, Burn>,
    pub fee: i64,
    pub expiration: u32,
    pub binding_sig: &'a [u8],
}

impl<'a> Transaction<'a> {
    /// Parses a transaction image. Succeeds exactly on well-formed images
    /// (`spec_tx_wf`); in particular an image whose length does not exactly
    /// match the sum of its declared runs is rejected, never truncated or
    /// padded. Each field of the result is pinned to its wire bytes.
    pub fn from_bytes(input: &'a [u8]) -> (r: Result<Transaction<'a>, ParserError>)
        ensures
            match r {
                Ok(tx) => {
                    &&& spec_tx_wf(input@)
                    &&& (tx.tx_version == TransactionVersion::V1 <==> input@[0] == 1)
                    &&& (tx.tx_version == TransactionVersion::V2 <==> input@[0] == 2)
                    &&& tx.spends.num_elements == le_u64_at(input@, 1)
                    &&& tx.outputs.num_elements == le_u64_at(input@, 9)
                    &&& tx.mints.num_elements == le_u64_at(input@, 17)
                    &&& tx.burns.num_elements == le_u64_at(input@, 25)
                    &&& tx.spends.len == SPEND_LEN
                    &&& tx.outputs.len == OUTPUT_LEN
                    &&& tx.mints.len == MINT_LEN
                    &&& tx.burns.len == BURN_LEN
                    &&& tx.spends.raw@ == input@.subrange(
                        TX_HEADER_LEN as int,
                        TX_HEADER_LEN + le_u64_at(input@, 1) * SPEND_LEN,
                    )
                    &&& tx.outputs.raw@ == input@.subrange(
                        TX_HEADER_LEN + le_u64_at(input@, 1) * SPEND_LEN,
                        TX_HEADER_LEN + le_u64_at(input@, 1) * SPEND_LEN + le_u64_at(input@, 9)
                            * OUTPUT_LEN,
                    )
                    &&& tx.mints.raw@ == input@.subrange(
                        TX_HEADER_LEN + le_u64_at(input@, 1) * SPEND_LEN + le_u64_at(input@, 9)
                            * OUTPUT_LEN,
                        TX_HEADER_LEN + le_u64_at(input@, 1) * SPEND_LEN + le_u64_at(input@, 9)
                            * OUTPUT_LEN + le_u64_at(input@, 17) * MINT_LEN,
                    )
                    &&& tx.burns.raw@ == input@.subrange(
                        TX_HEADER_LEN + le_u64_at(input@, 1) * SPEND_LEN + le_u64_at(input@, 9)
                            * OUTPUT_LEN + le_u64_at(input@, 17) * MINT_LEN,
                        input@.len() - REDJUBJUB_SIGNATURE_LEN,
                    )
                    &&& tx.fee == le_u64_at(input@, 33) as u64 as i64
                    &&& tx.expiration == le_u32_at(input@, 41)
                    &&& tx.random_pubkey@ == input@.subrange(45, 45 + KEY_LENGTH)
                    &&& tx.pubkey_randomness@ == input@.subrange(
                        45 + KEY_LENGTH,
                        45 + 2 * KEY_LENGTH,
                    )
                    &&& tx.binding_sig@ == input@.subrange(
                        input@.len() - REDJUBJUB_SIGNATURE_LEN,
                        input@.len() as int,
                    )
                },
                Err(_) => !spec_tx_wf(input@),
            },
    {
        if input.len() < TX_HEADER_LEN {
            return Err(ParserError::UnexpectedBufferEnd);
        }
        let version_byte = *vstd::slice::slice_index_get(input, 0);
        let tx_version = match TransactionVersion::try_from(version_byte) {
            Ok(v) => v,
            Err(e) => {
                return Err(e);
            },
        };
        let num_spends = read_le_u64(input, 1);
        let num_outputs = read_le_u64(input, 9);
        let num_mints = read_le_u64(input, 17);
        let num_burns = read_le_u64(input, 25);
        if num_spends > 255 || num_outputs > 255 || num_mints > 255 || num_burns > 255 {
            return Err(ParserError::InvalidPayload);
        }
        let ns = num_spends as usize;
        let no = num_outputs as usize;
        let nm = num_mints as usize;
        let nb = num_burns as usize;
        let expected = TX_HEADER_LEN + ns * SPEND_LEN + no * OUTPUT_LEN + nm * MINT_LEN + nb
            * BURN_LEN + REDJUBJUB_SIGNATURE_LEN;
        if input.len() != expected {
            return Err(ParserError::InvalidPayload);
        }
        let fee_bits = read_le_u64(input, 33);
        let fee = fee_bits as i64;
        let expiration = read_le_u32(input, 41);
        let random_pubkey = vstd::slice::slice_subrange(input, 45, 45 + KEY_LENGTH);
        let pubkey_randomness = vstd::slice::slice_subrange(
            input,
            45 + KEY_LENGTH,
            45 + 2 * KEY_LENGTH,
        );
        let spends_end = TX_HEADER_LEN + ns * SPEND_LEN;
        let outputs_end = spends_end + no * OUTPUT_LEN;
        let mints_end = outputs_end + nm * MINT_LEN;
        let burns_end = mints_end + nb * BURN_LEN;
        let spends = RawField::<Spend>::new(
            num_spends as u8,
            SPEND_LEN,
            vstd::slice::slice_subrange(input, TX_HEADER_LEN, spends_end),
        );
        let outputs = RawField::<Output>::new(
            num_outputs as u8,
            OUTPUT_LEN,
            vstd::slice::slice_subrange(input, spends_end, outputs_end),
        );
        let mints = RawField::<Mint>::new(
            num_mints as u8,
            MINT_LEN,
            vstd::slice::slice_subrange(input, outputs_end, mints_end),
        );
        let burns = RawField::<Burn>::new(
            num_burns as u8,
            BURN_LEN,
            vstd::slice::slice_subrange(input, mints_end, burns_end),
        );
        let binding_sig = vstd::slice::slice_subrange(
            input,
            burns_end,
            burns_end + REDJUBJUB_SIGNATURE_LEN,
        );
        Ok(
            Transaction {
                tx_version,
                random_pubkey,
                pubkey_randomness,
                spends,
                outputs,
                mints,
                burns,
                fee,
                expiration,
                binding_sig,
            },
        )
    }
}

} // verus!
