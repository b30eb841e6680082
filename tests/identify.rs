use hoku_sdk::identify::{cid_from_digest, identify, matches_identifier};

const EMPTY_BLAKE3: [u8; 32] = [
    0xaf, 0x13, 0x49, 0xb9, 0xf5, 0xf9, 0xa1, 0xa6, 0xa0, 0x40, 0x4d, 0xea, 0x36, 0xdc, 0xc9,
    0x49, 0x9b, 0xcb, 0x25, 0xc9, 0xad, 0xc1, 0x12, 0xb7, 0xcc, 0x9a, 0x93, 0xca, 0xe4, 0x1f,
    0x32, 0x62,
];

#[test]
fn identifier_of_empty_content() {
    let mut expected = vec![0x01, 0x55, 0x1e, 0x20];
    expected.extend_from_slice(&EMPTY_BLAKE3);
    assert_eq!(identify(&[]).to_bytes(), expected);
}

#[test]
fn identifier_wraps_digest() {
    let cid = cid_from_digest(&EMPTY_BLAKE3);
    assert_eq!(cid.to_bytes().len(), 36);
    assert_eq!(&cid.to_bytes()[..4], &[0x01, 0x55, 0x1e, 0x20]);
    assert_eq!(cid, identify(&[]));
}

#[test]
fn identify_is_deterministic() {
    let data: Vec<u8> = (0..3000u32).map(|i| (i % 251) as u8).collect();
    let copy = data.clone();
    assert_eq!(identify(&data), identify(&copy));
}

#[test]
fn identify_tells_contents_apart() {
    assert_ne!(identify(b"hello"), identify(b"hellp"));
}

#[test]
fn fetched_blob_is_checked_against_identifier() {
    let cid = identify(b"some content");
    assert!(matches_identifier(b"some content", &cid));
    assert!(!matches_identifier(b"other content", &cid));
}
