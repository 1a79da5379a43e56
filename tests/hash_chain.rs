use asterizm_client::codec::{serialize_init_message_eth, InitMessage};
use asterizm_client::hash_chain::{build_crosschain_hash, chunk_count, link_input};

fn message(tx_id: u32, payload: Vec<u8>) -> InitMessage {
    InitMessage {
        src_chain_id: 1,
        src_address: [0xAA; 32],
        dst_chain_id: 2,
        dst_address: [0xBB; 32],
        tx_id,
        payload,
    }
}

const SCENARIO_A_ID: [u8; 32] = [
    143, 167, 65, 23, 100, 212, 141, 212, 88, 152, 146, 60, 192, 210, 230, 94, 165, 168, 254, 139,
    105, 206, 78, 174, 126, 194, 193, 59, 226, 79, 89, 46,
];

#[test]
fn scenario_a_identifier() {
    let encoded = serialize_init_message_eth(message(7, vec![]));
    let id = build_crosschain_hash(&encoded);
    assert_eq!(id, SCENARIO_A_ID);
    assert_eq!(build_crosschain_hash(&encoded), id);
}

#[test]
fn identifier_with_payload() {
    let encoded = serialize_init_message_eth(message(8, (0..200u8).collect()));
    assert_eq!(encoded.len(), 456);
    let expected: [u8; 32] = [
        160, 97, 202, 131, 99, 112, 63, 83, 180, 240, 239, 252, 214, 209, 37, 7, 23, 103, 101,
        189, 42, 184, 9, 72, 94, 66, 224, 247, 188, 60, 151, 233,
    ];
    assert_eq!(build_crosschain_hash(&encoded), expected);
}

#[test]
fn prefix_only_is_plain_sha256() {
    let expected: [u8; 32] = [
        181, 253, 171, 120, 216, 148, 126, 172, 200, 100, 191, 238, 203, 77, 33, 0, 120, 14, 90,
        254, 28, 216, 239, 175, 177, 36, 136, 121, 19, 172, 73, 250,
    ];
    assert_eq!(build_crosschain_hash(&[0u8; 112]), expected);
}

#[test]
fn one_chunk_of_zeros() {
    let expected: [u8; 32] = [
        217, 163, 139, 98, 175, 71, 190, 154, 53, 106, 0, 86, 180, 85, 145, 147, 43, 61, 40, 19,
        0, 188, 135, 234, 235, 152, 151, 230, 2, 87, 37, 193,
    ];
    assert_eq!(build_crosschain_hash(&[0u8; 112 + 127]), expected);
}

#[test]
fn chunk_counts() {
    assert_eq!(chunk_count(112), 0);
    assert_eq!(chunk_count(112 + 126), 0);
    assert_eq!(chunk_count(112 + 127), 1);
    assert_eq!(chunk_count(112 + 254), 2);
    assert_eq!(chunk_count(112 + 130), 1);
}

#[test]
fn partial_chunk_is_left_out() {
    let data: Vec<u8> = (0..(112 + 130)).map(|i| (i % 251) as u8).collect();
    let full = build_crosschain_hash(&data);
    assert_eq!(build_crosschain_hash(&data[..112 + 127]), full);
    let mut changed = data.clone();
    changed[112 + 128] ^= 0xFF;
    assert_eq!(build_crosschain_hash(&changed), full);
    let mut inside = data.clone();
    inside[112 + 5] ^= 0xFF;
    assert_ne!(build_crosschain_hash(&inside), full);
}

#[test]
fn two_chunks_differ_from_one() {
    let data: Vec<u8> = (0..(112 + 254)).map(|i| (i % 253) as u8).collect();
    let two = build_crosschain_hash(&data);
    let one = build_crosschain_hash(&data[..112 + 127]);
    assert_ne!(two, one);
    let mut last = data.clone();
    last[112 + 253] ^= 1;
    assert_ne!(build_crosschain_hash(&last), two);
}

#[test]
fn link_input_concatenates() {
    let r = link_input(&[1u8; 32], &[2u8; 32]);
    assert_eq!(&r[..32], &[1u8; 32]);
    assert_eq!(&r[32..], &[2u8; 32]);
}
