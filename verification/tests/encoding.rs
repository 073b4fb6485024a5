use l1j_rust::protocol::encoding::{decode_big5, encode_big5};
use l1j_rust::protocol::packet::{PacketBuilder, PacketReader};

#[test]
fn test_ascii_roundtrip() {
    let original = "Hello World";
    let encoded = encode_big5(original);
    let decoded = decode_big5(&encoded);
    assert_eq!(decoded, original);
}

#[test]
fn test_chinese_roundtrip() {
    let original = "天堂伺服器";
    let encoded = encode_big5(original);
    let decoded = decode_big5(&encoded);
    assert_eq!(decoded, original);
}

#[test]
fn test_mixed_text() {
    let original = "+7 裁決之劍";
    let encoded = encode_big5(original);
    let decoded = decode_big5(&encoded);
    assert_eq!(decoded, original);
}

#[test]
fn test_big5_encoded_length() {
    // Each Chinese character = 2 bytes in Big5
    let text = "天堂";
    let encoded = encode_big5(text);
    assert_eq!(encoded.len(), 4); // 2 chars * 2 bytes
}

#[test]
fn exact_big5_bytes() {
    assert_eq!(encode_big5("天堂"), vec![0xa4, 0xd1, 0xb0, 0xf3]);
    assert_eq!(decode_big5(&[0xa4, 0xd1, 0xb0, 0xf3]), "天堂");
    assert_eq!(encode_big5(""), Vec::<u8>::new());
    assert_eq!(decode_big5(&[]), "");
}

#[test]
fn unmappable_characters_do_not_fail() {
    let encoded = encode_big5("a\u{1F600}b");
    assert_eq!(encoded, b"a&#128512;b".to_vec());
    assert_eq!(decode_big5(&[b'a', 0xff, b'b']), "a\u{FFFD}b");
}

#[test]
fn strings_cross_the_wire_in_big5() {
    let pkt = PacketBuilder::new(1).write_s(Some("天堂")).build();
    assert_eq!(pkt, vec![1, 0xa4, 0xd1, 0xb0, 0xf3, 0]);
    let mut r = PacketReader::after_opcode(&pkt);
    assert_eq!(r.read_s(), "天堂");
    assert!(!r.has_remaining());
}
