//! Tests of the transaction parser, version tags, instruction decoding,
//! derivation paths, and error mapping.

use ironfish_dkg::error::{AppSW, ParserError};
use ironfish_dkg::instruction::Instruction;
use ironfish_dkg::parser::burns::BURN_LEN;
use ironfish_dkg::parser::mints::MINT_LEN;
use ironfish_dkg::parser::outputs::OUTPUT_LEN;
use ironfish_dkg::parser::spends::SPEND_LEN;
use ironfish_dkg::parser::transaction::{Transaction, TX_HEADER_LEN};
use ironfish_dkg::parser::tx_version::TransactionVersion;
use ironfish_dkg::utils::Bip32Path;

fn tx_image(version: u8, spends: u64, outputs: u64, mints: u64, burns: u64) -> Vec<u8> {
    let mut image = vec![version];
    image.extend(spends.to_le_bytes());
    image.extend(outputs.to_le_bytes());
    image.extend(mints.to_le_bytes());
    image.extend(burns.to_le_bytes());
    image.extend((-5i64).to_le_bytes());  // fee
    image.extend(7u32.to_le_bytes());  // expiration
    image.extend([0xA1u8; 32]);  // randomized public key
    image.extend([0xB2u8; 32]);  // public key randomness
    image.extend(vec![0u8; spends as usize * SPEND_LEN]);
    image.extend(vec![1u8; outputs as usize * OUTPUT_LEN]);
    image.extend(vec![2u8; mints as usize * MINT_LEN]);
    image.extend(vec![3u8; burns as usize * BURN_LEN]);
    image.extend([0xC3u8; 64]);  // binding signature
    image
}

#[test]
fn transaction_parses_exact_image() {
    let image = tx_image(2, 1, 2, 0, 3);
    let tx = Transaction::from_bytes(&image).unwrap();
    assert_eq!(tx.tx_version, TransactionVersion::V2);
    assert_eq!(tx.fee, -5);
    assert_eq!(tx.expiration, 7);
    assert_eq!(tx.random_pubkey, &[0xA1u8; 32]);
    assert_eq!(tx.pubkey_randomness, &[0xB2u8; 32]);
    assert_eq!(tx.spends.num_elements, 1);
    assert_eq!(tx.spends.len, SPEND_LEN);
    assert_eq!(tx.spends.raw.len(), SPEND_LEN);
    assert_eq!(tx.outputs.num_elements, 2);
    assert_eq!(tx.outputs.raw.len(), 2 * OUTPUT_LEN);
    assert_eq!(tx.mints.num_elements, 0);
    assert_eq!(tx.burns.num_elements, 3);
    assert_eq!(tx.binding_sig, &[0xC3u8; 64]);
    assert_eq!(image.len(), TX_HEADER_LEN + SPEND_LEN + 2 * OUTPUT_LEN + 3 * BURN_LEN + 64);
}

#[test]
fn transaction_with_wrong_length_is_rejected_not_truncated() {
    let mut image = tx_image(1, 0, 1, 1, 0);
    assert!(Transaction::from_bytes(&image).is_ok());
    // one trailing byte: the length no longer matches the declared runs
    image.push(0);
    assert!(Transaction::from_bytes(&image).is_err());
    // one missing byte: same
    image.truncate(image.len() - 2);
    assert!(Transaction::from_bytes(&image).is_err());
}

#[test]
fn transaction_with_unknown_version_is_rejected() {
    let image = tx_image(3, 0, 0, 0, 0);
    assert!(matches!(
        Transaction::from_bytes(&image),
        Err(ParserError::InvalidTxVersion)
    ));
}

#[test]
fn transaction_too_short_for_header_is_rejected() {
    assert!(matches!(
        Transaction::from_bytes(&[1, 2, 3]),
        Err(ParserError::UnexpectedBufferEnd)
    ));
}

#[test]
fn tx_version_try_from_accepts_only_known_tags() {
    assert_eq!(TransactionVersion::try_from(1), Ok(TransactionVersion::V1));
    assert_eq!(TransactionVersion::try_from(2), Ok(TransactionVersion::V2));
    assert_eq!(
        TransactionVersion::try_from(0),
        Err(ParserError::InvalidTxVersion)
    );
    assert_eq!(
        TransactionVersion::try_from(3),
        Err(ParserError::InvalidTxVersion)
    );
}

#[test]
fn instruction_decodes_command_headers() {
    assert_eq!(Instruction::try_from(3, 0, 0), Ok(Instruction::GetVersion));
    assert_eq!(Instruction::try_from(4, 0, 0), Ok(Instruction::GetAppName));
    assert_eq!(
        Instruction::try_from(16, 0, 0),
        Ok(Instruction::DkgGetIdentity)
    );
    assert_eq!(
        Instruction::try_from(17, 2, 0),
        Ok(Instruction::DkgRound1 { chunk: 2 })
    );
    assert_eq!(
        Instruction::try_from(18, 1, 0),
        Ok(Instruction::DkgRound2 { chunk: 1 })
    );
    assert_eq!(
        Instruction::try_from(19, 0, 0),
        Ok(Instruction::DkgRound3 { chunk: 0 })
    );
    assert_eq!(
        Instruction::try_from(20, 1, 0),
        Ok(Instruction::DkgCommitment { chunk: 1 })
    );
    assert_eq!(
        Instruction::try_from(21, 2, 0),
        Ok(Instruction::DkgSign { chunk: 2 })
    );
    assert_eq!(
        Instruction::try_from(22, 1, 0),
        Ok(Instruction::DkgGetKeys { key_type: 1 })
    );
    // a chunk index out of range matches no accepted header
    assert_eq!(Instruction::try_from(17, 3, 0), Err(AppSW::InsNotSupported));
    // version and app-name codes with bad parameters report the parameters
    assert_eq!(Instruction::try_from(3, 1, 0), Err(AppSW::WrongP1P2));
    assert_eq!(Instruction::try_from(5, 0, 0), Err(AppSW::WrongP1P2));
    // unknown instruction
    assert_eq!(Instruction::try_from(99, 0, 0), Err(AppSW::InsNotSupported));
}

#[test]
fn bip32_path_reads_big_endian_components() {
    let mut data = vec![2u8];
    data.extend(0x8000002Cu32.to_be_bytes());
    data.extend(0x000004D2u32.to_be_bytes());
    let path = Bip32Path::try_from(&data).unwrap();
    assert_eq!(path.components(), &vec![0x8000002C, 0x000004D2]);
}

#[test]
fn bip32_path_rejects_bad_lengths() {
    assert!(matches!(
        Bip32Path::try_from(&[]),
        Err(AppSW::WrongApduLength)
    ));
    // length byte says two components but only one follows
    let mut data = vec![2u8];
    data.extend(1u32.to_be_bytes());
    assert!(matches!(
        Bip32Path::try_from(&data),
        Err(AppSW::WrongApduLength)
    ));
}

#[test]
fn parser_errors_map_to_parsing_failure_status() {
    assert_eq!(AppSW::from(ParserError::NoError), AppSW::Success);
    assert_eq!(AppSW::from(ParserError::InvalidPayload), AppSW::TxParsingFail);
    assert_eq!(
        AppSW::from(ParserError::UnexpectedBufferEnd),
        AppSW::TxParsingFail
    );
    assert_eq!(AppSW::Success.code(), 0x9000);
    assert_eq!(AppSW::Deny.code(), 0x6985);
    assert_eq!(AppSW::WrongApduLength.code(), 0x6700);
    assert_eq!(AppSW::TxParsingFail.code(), 0xB005);
}
