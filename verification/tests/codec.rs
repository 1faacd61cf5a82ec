use voice_gateway::codec::{decode, encode, extract_channel};

#[test]
fn header_is_sixteen_bytes_empty_payload() {
    let frame = encode(&[]);
    assert_eq!(frame.len(), 16);
}

#[test]
fn header_is_sixteen_bytes_regardless_of_payload_length() {
    for n in [1usize, 2, 15, 16, 17, 1000] {
        let payload = vec![0xABu8; n];
        let frame = encode(&payload);
        assert_eq!(frame.len(), n + 16);
    }
}

#[test]
fn encode_header_carries_crc32_big_endian_and_zeros() {
    let payload = b"agent speech bytes".to_vec();
    let frame = encode(&payload);
    let checksum = crc32fast::hash(&payload);
    assert_eq!(&frame[0..4], checksum.to_be_bytes().as_slice());
    for i in 4..16 {
        assert_eq!(frame[i], 0, "reserved byte {} must be zero", i);
    }
    assert_eq!(&frame[16..], payload.as_slice());
}

#[test]
fn encode_decode_round_trip() {
    let payload = vec![1u8, 2, 3, 250, 251, 252];
    let frame = encode(&payload);
    let decoded = decode(&frame).expect("a full frame must decode");
    assert_eq!(decoded.payload, payload);
    assert_eq!(decoded.checksum, crc32fast::hash(&payload));
}

#[test]
fn encode_decode_round_trip_empty() {
    let frame = encode(&[]);
    let decoded = decode(&frame).expect("a header-only frame must decode");
    assert!(decoded.payload.is_empty());
    assert_eq!(decoded.checksum, crc32fast::hash(&[]));
}

#[test]
fn decode_rejects_short_input() {
    assert!(decode(&[0u8; 15]).is_none());
    assert!(decode(&[]).is_none());
}

#[test]
fn extract_channel_keeps_low_half_of_each_sample_pair() {
    let frame = vec![1u8, 2, 3, 4, 5, 6, 7, 8];
    assert_eq!(extract_channel(&frame), vec![1, 2, 5, 6]);
}

#[test]
fn extract_channel_drops_trailing_partial_sample() {
    let frame = vec![9u8, 8, 7, 6, 5];
    assert_eq!(extract_channel(&frame), vec![9, 8]);
}

#[test]
fn extract_channel_empty() {
    assert!(extract_channel(&[]).is_empty());
}
