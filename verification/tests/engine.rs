//! Tests of the session engine: bounded buffers, accumulation, the lazy
//! structured reader, chunking, and the persistent store.

use ironfish_dkg::accumulator::accumulate_data;
use ironfish_dkg::buffer::{Buffer, BUFFER_SIZE};
use ironfish_dkg::context::TxContext;
use ironfish_dkg::deserialize::{Deserializable, RawField, RawFieldIterator};
use ironfish_dkg::emitter::{chunk_response, MAX_APDU_SIZE};
use ironfish_dkg::error::{AppSW, ParserError};
use ironfish_dkg::parser::burns::{Burn, BURN_LEN};
use ironfish_dkg::parser::parse_round;
use ironfish_dkg::store::{
    DkgKeys, DATA_STARTING_POS, DKG_KEYS_MAX_SIZE, FROST_PUBLIC_PACKAGE_POS,
    GROUP_KEY_PACKAGE_POS, IDENTITIES_POS, KEY_PACKAGE_POS, MIN_SIGNERS_POS,
};

fn filled_buffer(data: &[u8]) -> Buffer {
    let mut buffer = Buffer::new();
    buffer.append(data).unwrap();
    buffer
}

#[test]
fn buffer_get_byte_fails_iff_at_or_past_cursor() {
    let buffer = filled_buffer(&[10, 20, 30]);
    assert_eq!(buffer.get_element(0), Ok(10));
    assert_eq!(buffer.get_element(2), Ok(30));
    assert_eq!(buffer.get_element(3), Err(AppSW::BufferOutOfBounds));
    assert_eq!(buffer.get_element(2999), Err(AppSW::BufferOutOfBounds));
}

#[test]
fn buffer_get_slice_fails_iff_end_past_cursor() {
    let buffer = filled_buffer(&[1, 2, 3, 4]);
    assert_eq!(buffer.get_slice(1, 3).unwrap(), &[2, 3]);
    // end == pos is allowed
    assert_eq!(buffer.get_slice(0, 4).unwrap(), &[1, 2, 3, 4]);
    assert_eq!(buffer.get_slice(4, 4).unwrap(), &[] as &[u8]);
    // end > pos is not
    assert!(buffer.get_slice(0, 5).is_err());
}

#[test]
fn buffer_get_u16_reads_big_endian() {
    let buffer = filled_buffer(&[0x12, 0x34, 0xFF]);
    assert_eq!(buffer.get_u16(0), Ok(0x1234));
    assert_eq!(buffer.get_u16(1), Ok(0x34FF));
    assert_eq!(buffer.get_u16(2), Err(AppSW::BufferOutOfBounds));
}

#[test]
fn buffer_set_slice_rejects_writes_past_capacity() {
    let mut buffer = Buffer::new();
    assert!(buffer.set_slice(BUFFER_SIZE - 2, &[1, 2]).is_ok());
    assert_eq!(
        buffer.set_slice(BUFFER_SIZE - 1, &[1, 2]),
        Err(AppSW::BufferOutOfBounds)
    );
}

#[test]
fn accumulator_assembles_chunks_in_order() {
    let mut ctx = TxContext::new();
    accumulate_data(&mut ctx, 0, &[1, 2]).unwrap();
    assert!(!ctx.done);
    accumulate_data(&mut ctx, 1, &[3]).unwrap();
    assert!(!ctx.done);
    accumulate_data(&mut ctx, 2, &[4, 5]).unwrap();
    assert!(ctx.done);
    assert_eq!(ctx.buffer.get_slice(0, 5).unwrap(), &[1, 2, 3, 4, 5]);
}

#[test]
fn accumulator_first_chunk_discards_previous_command() {
    let mut ctx = TxContext::new();
    accumulate_data(&mut ctx, 0, &[9, 9, 9]).unwrap();
    accumulate_data(&mut ctx, 0, &[7]).unwrap();
    assert_eq!(ctx.buffer.pos(), 1);
    assert_eq!(ctx.buffer.get_element(0), Ok(7));
}

#[test]
fn accumulator_rejects_overflow_and_keeps_state() {
    let mut ctx = TxContext::new();
    let big = vec![0u8; BUFFER_SIZE];
    accumulate_data(&mut ctx, 0, &big).unwrap();
    let r = accumulate_data(&mut ctx, 1, &[1]);
    assert_eq!(r, Err(AppSW::BufferOutOfBounds));
    assert!(!ctx.done);
    assert_eq!(ctx.buffer.pos(), BUFFER_SIZE);
}

#[test]
fn raw_field_iteration_visits_exactly_count_elements() {
    // three records of BURN_LEN bytes each
    let mut bytes = Vec::new();
    for i in 0..3u8 {
        bytes.extend(std::iter::repeat(i + 1).take(BURN_LEN));
    }
    let field: RawField<Burn> = RawField::new(3, BURN_LEN, &bytes);
    let mut it = RawFieldIterator::new(&field);
    let mut visited = 0;
    while it.advance().unwrap() {
        let burn = it.current().unwrap();
        assert_eq!(burn.raw.len(), BURN_LEN);
        assert_eq!(burn.raw[0], visited + 1);
        visited += 1;
    }
    assert_eq!(visited, 3);
    // after completion, advancing keeps reporting the end
    assert_eq!(it.advance(), Ok(false));
}

#[test]
fn raw_field_iterator_reports_truncated_record_as_error() {
    // two records declared, but only one and a half records of bytes
    let bytes = vec![0u8; BURN_LEN + BURN_LEN / 2];
    let field: RawField<Burn> = RawField::new(2, BURN_LEN, &bytes);
    let mut it = RawFieldIterator::new(&field);
    assert_eq!(it.advance(), Ok(true));
    assert_eq!(it.advance(), Err(ParserError::UnexpectedBufferEnd));
    assert!(it.current().is_none());
}

#[test]
fn parse_round_rejects_count_beyond_data_before_any_element() {
    // header claims 5 records of BURN_LEN bytes but only 4 are present
    let mut payload = vec![5u8, (BURN_LEN >> 8) as u8, (BURN_LEN & 0xff) as u8];
    payload.extend(std::iter::repeat(0u8).take(4 * BURN_LEN));
    let buffer = filled_buffer(&payload);
    let mut count = 0u8;
    let mut stride = 0usize;
    let r = parse_round::<Burn>(&buffer, 0, &mut count, &mut stride);
    assert!(r.is_err());
    // the out parameters stay untouched on failure
    assert_eq!(count, 0);
    assert_eq!(stride, 0);
}

#[test]
fn parse_round_accepts_exact_run_and_returns_it() {
    let mut payload = vec![2u8, (BURN_LEN >> 8) as u8, (BURN_LEN & 0xff) as u8];
    payload.extend(std::iter::repeat(0xAAu8).take(2 * BURN_LEN));
    let buffer = filled_buffer(&payload);
    let mut count = 0u8;
    let mut stride = 0usize;
    let (slice, next) = parse_round::<Burn>(&buffer, 0, &mut count, &mut stride).unwrap();
    assert_eq!(count, 2);
    assert_eq!(stride, BURN_LEN);
    assert_eq!(next, 3 + 2 * BURN_LEN);
    assert_eq!(slice.len(), 2 * BURN_LEN);
}

#[test]
fn chunking_empty_payload_yields_no_chunks() {
    assert!(chunk_response(&[]).is_empty());
}

#[test]
fn chunking_produces_ceil_chunks_and_concatenation_restores_payload() {
    for n in [1usize, 252, 253, 254, 506, 507, 600] {
        let data: Vec<u8> = (0..n).map(|i| (i % 251) as u8).collect();
        let chunks = chunk_response(&data);
        assert_eq!(chunks.len(), (n + MAX_APDU_SIZE - 1) / MAX_APDU_SIZE, "n = {n}");
        for chunk in chunks.iter().take(chunks.len() - 1) {
            assert_eq!(chunk.len(), MAX_APDU_SIZE);
        }
        assert!(chunks.last().unwrap().len() <= MAX_APDU_SIZE);
        assert!(!chunks.last().unwrap().is_empty());
        let joined: Vec<u8> = chunks.concat();
        assert_eq!(joined, data);
    }
}

#[test]
fn store_record_round_trip_is_byte_identical() {
    let mut store = DkgKeys::new();
    store
        .save_round_1_data(&vec![vec![1, 2, 3], vec![4, 5]], 2)
        .unwrap();
    let key_package = vec![0xABu8; 100];
    let public_key_package = vec![0xCDu8; 50];
    let group_secret_key = vec![0x42u8; 32];
    store
        .save_keys(&key_package, &public_key_package, &group_secret_key)
        .unwrap();
    assert_eq!(store.load_key_package().unwrap(), key_package);
    assert_eq!(store.load_group_secret_key().unwrap(), group_secret_key);
    assert_eq!(
        store.load_frost_public_key_package().unwrap(),
        public_key_package
    );
}

#[test]
fn store_round_1_directory_offsets_are_strictly_increasing() {
    let mut store = DkgKeys::new();
    let identities = vec![vec![0x11u8; 129], vec![0x22u8; 129], vec![0x33u8; 129]];
    store.save_round_1_data(&identities, 2).unwrap();
    let identities_off = store.get_u16(IDENTITIES_POS).unwrap();
    let min_signers_off = store.get_u16(MIN_SIGNERS_POS).unwrap();
    assert_eq!(identities_off, DATA_STARTING_POS);
    // each identity record costs two length bytes plus its payload
    assert_eq!(min_signers_off, DATA_STARTING_POS + 3 * (2 + 129));
    assert!(identities_off < min_signers_off);
    assert_eq!(store.load_min_signers().unwrap(), 2);
    assert_eq!(store.load_identities().unwrap(), identities);
}

#[test]
fn store_keys_directory_offsets_are_strictly_increasing() {
    let mut store = DkgKeys::new();
    store.save_round_1_data(&vec![vec![9u8; 129]], 1).unwrap();
    store
        .save_keys(&vec![1u8; 10], &vec![2u8; 20], &vec![3u8; 32])
        .unwrap();
    let kp = store.get_u16(KEY_PACKAGE_POS).unwrap();
    let gsk = store.get_u16(GROUP_KEY_PACKAGE_POS).unwrap();
    let pkp = store.get_u16(FROST_PUBLIC_PACKAGE_POS).unwrap();
    assert!(kp < gsk && gsk < pkp);
    assert_eq!(gsk, kp + 2 + 10);
    assert_eq!(pkp, gsk + 2 + 32);
}

#[test]
fn fresh_store_reports_missing_artifacts_not_zeroed_data() {
    let store = DkgKeys::new();
    assert_eq!(store.load_key_package(), Err(AppSW::MissingArtifact));
    assert_eq!(store.load_group_secret_key(), Err(AppSW::MissingArtifact));
    assert_eq!(
        store.load_frost_public_key_package(),
        Err(AppSW::MissingArtifact)
    );
    assert_eq!(store.load_min_signers(), Err(AppSW::MissingArtifact));
    assert_eq!(store.load_identities(), Err(AppSW::MissingArtifact));
}

#[test]
fn save_keys_requires_round_1_data_first() {
    let mut store = DkgKeys::new();
    let r = store.save_keys(&vec![1u8; 4], &vec![2u8; 4], &vec![3u8; 32]);
    assert_eq!(r, Err(AppSW::MissingArtifact));
}

#[test]
fn store_group_secret_key_must_be_exactly_32_bytes() {
    let mut store = DkgKeys::new();
    store.save_round_1_data(&vec![vec![9u8; 129]], 1).unwrap();
    store
        .save_keys(&vec![1u8; 4], &vec![2u8; 4], &vec![3u8; 31])
        .unwrap();
    assert_eq!(
        store.load_group_secret_key(),
        Err(AppSW::InvalidGroupSecretKey)
    );
}

#[test]
fn store_set_slice_with_len_prefixes_the_length() {
    let mut store = DkgKeys::new();
    let next = store.set_slice_with_len(100, &[7, 8, 9]).unwrap();
    assert_eq!(next, 105);
    assert_eq!(store.get_u16(100).unwrap(), 3);
    assert_eq!(store.get_slice(102, 105).unwrap(), &[7, 8, 9]);
}

#[test]
fn burn_from_bytes_takes_exactly_one_record() {
    let data = vec![5u8; BURN_LEN + 7];
    let burn = Burn::from_bytes(&data).unwrap();
    assert_eq!(burn.raw, vec![5u8; BURN_LEN]);
    assert!(Burn::from_bytes(&data[..BURN_LEN - 1]).is_err());
    assert!(Burn::from_bytes_check(&data).is_ok());
}

#[test]
fn store_capacity_is_enforced_on_save() {
    let mut store = DkgKeys::new();
    let identities = vec![vec![0u8; 129]; 25];
    // 25 * 131 = 3275 bytes cannot fit below the capacity
    assert!(3275 > DKG_KEYS_MAX_SIZE - DATA_STARTING_POS);
    assert_eq!(
        store.save_round_1_data(&identities, 13),
        Err(AppSW::BufferOutOfBounds)
    );
}

#[test]
fn raw_field_iter_gives_a_fresh_cursor() {
    let bytes = vec![9u8; 2 * BURN_LEN];
    let field: RawField<Burn> = RawField::new(2, BURN_LEN, &bytes);
    // a live cursor is not restartable; a second iteration takes a fresh
    // cursor from the same descriptor
    for _ in 0..2 {
        let mut it = field.iter();
        let mut visited = 0;
        while it.advance().unwrap() {
            visited += 1;
        }
        assert_eq!(visited, 2);
    }
}
