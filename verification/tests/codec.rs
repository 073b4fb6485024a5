use l1j_rust::network::codec::{decode_length, encode_frame};

#[test]
fn test_encode_frame() {
    let payload = vec![0x96, 0x01, 0x02, 0x03]; // opcode 150 + 3 bytes
    let frame = encode_frame(&payload);
    assert_eq!(frame[0], 6); // length = 4 + 2 = 6
    assert_eq!(frame[1], 0);
    assert_eq!(&frame[2..], &payload);
}

#[test]
fn test_decode_length_valid() {
    assert_eq!(decode_length(6, 0), Some(4));
    assert_eq!(decode_length(18, 0), Some(16));
    assert_eq!(decode_length(0x00, 0x01), Some(254)); // 256 - 2
}

#[test]
fn test_decode_length_invalid() {
    assert_eq!(decode_length(0, 0), None); // length 0
    assert_eq!(decode_length(1, 0), None); // length 1 (< 2)
}

#[test]
fn frame_length_round_trip() {
    for len in [0usize, 1, 2, 253, 254, 255, 256, 1000, 65532, 65533] {
        let payload = vec![0x5a; len];
        let frame = encode_frame(&payload);
        assert_eq!(frame.len(), len + 2);
        assert_eq!(decode_length(frame[0], frame[1]), Some(len));
        assert_eq!(&frame[2..], &payload[..]);
    }
}

#[test]
fn empty_payload_frame() {
    assert_eq!(encode_frame(&[]), vec![2, 0]);
    assert_eq!(decode_length(2, 0), Some(0));
}

#[test]
fn largest_header() {
    assert_eq!(decode_length(0xff, 0xff), Some(65533));
}

#[test]
fn largest_payload() {
    let payload = vec![7u8; 65533];
    let frame = encode_frame(&payload);
    assert_eq!(frame.len(), 65535);
    assert_eq!((frame[0], frame[1]), (0xff, 0xff));
    assert_eq!(decode_length(frame[0], frame[1]), Some(65533));
}
