use l1j_rust::protocol::packet::{clamp_to, cut_len, cut_to_32, cut_u32, PacketBuilder, PacketReader};

#[test]
fn test_builder_write_types() {
    let pkt = PacketBuilder::new(0x8B)
        .write_c(0x01)
        .write_h(0x1234)
        .write_d(0x12345678)
        .write_s(Some("hi"))
        .build();

    assert_eq!(pkt[0], 0x8B); // opcode
    assert_eq!(pkt[1], 0x01); // writeC
    assert_eq!(pkt[2], 0x34); // writeH low
    assert_eq!(pkt[3], 0x12); // writeH high
    assert_eq!(pkt[4], 0x78); // writeD byte 0
    assert_eq!(pkt[5], 0x56); // writeD byte 1
    assert_eq!(pkt[6], 0x34); // writeD byte 2
    assert_eq!(pkt[7], 0x12); // writeD byte 3
    assert_eq!(pkt[8], b'h');
    assert_eq!(pkt[9], b'i');
    assert_eq!(pkt[10], 0x00); // null terminator
}

#[test]
fn test_reader_read_types() {
    let data = vec![
        0x8B, 0x01, 0x34, 0x12, 0x78, 0x56, 0x34, 0x12, b'h', b'i', 0x00,
    ];
    let mut r = PacketReader::new(&data);
    assert_eq!(r.read_c(), 0x8B);
    assert_eq!(r.read_c(), 0x01);
    assert_eq!(r.read_h(), 0x1234);
    assert_eq!(r.read_d(), 0x12345678);
    assert_eq!(r.read_s(), "hi");
}

#[test]
fn negative_numbers_are_written_in_twos_complement() {
    let pkt = PacketBuilder::new(1).write_c(-1).write_h(-2).write_d(-3).build();
    assert_eq!(pkt, vec![1, 0xff, 0xfe, 0xff, 0xfd, 0xff, 0xff, 0xff]);
    let pkt = PacketBuilder::new(1).write_d(i32::MIN).write_d(i32::MAX).build();
    assert_eq!(pkt, vec![1, 0, 0, 0, 0x80, 0xff, 0xff, 0xff, 0x7f]);
}

#[test]
fn wide_values_are_cut_by_the_narrow_writers() {
    let pkt = PacketBuilder::new(1).write_c(0x1234).write_h(0x12345678).build();
    assert_eq!(pkt, vec![1, 0x34, 0x78, 0x56]);
}

#[test]
fn absent_string_is_the_bare_terminator() {
    assert_eq!(PacketBuilder::new(9).write_s(None).build(), vec![9, 0]);
    assert_eq!(PacketBuilder::new(9).write_s(Some("")).build(), vec![9, 0]);
}

#[test]
fn raw_bytes_are_written_as_they_are() {
    assert_eq!(PacketBuilder::new(9).write_bytes(&[1, 0, 2]).build(), vec![9, 1, 0, 2]);
}

#[test]
fn written_fields_are_read_back() {
    for v in [0, 1, -1, 255, 256, 65535, 65536, i32::MAX, i32::MIN, -123456789] {
        let pkt = PacketBuilder::new(0).write_d(v).write_h(v).write_c(v).build();
        let mut r = PacketReader::after_opcode(&pkt);
        assert_eq!(r.read_d(), v);
        assert_eq!(r.read_h(), (v & 0xffff) as u16);
        assert_eq!(r.read_c(), (v & 0xff) as u8);
        assert!(!r.has_remaining());
    }
}

#[test]
fn reads_past_the_end_yield_zero_and_do_not_move() {
    let data = vec![0x10, 0x20, 0x30];
    let mut r = PacketReader::new(&data);
    assert_eq!(r.read_d(), 0); // three bytes are not enough
    assert_eq!(r.read_h(), 0x2010); // the cursor did not move
    assert_eq!(r.read_h(), 0); // one byte is not enough
    assert_eq!(r.read_c(), 0x30);
    assert!(!r.has_remaining());
    assert_eq!(r.read_c(), 0);
    assert_eq!(r.read_h(), 0);
    assert_eq!(r.read_d(), 0);
    assert_eq!(r.read_s(), "");
}

#[test]
fn signed_read() {
    let data = vec![0xff, 0xff, 0xff, 0xff, 0x00, 0x00, 0x00, 0x80];
    let mut r = PacketReader::new(&data);
    assert_eq!(r.read_d(), -1);
    assert_eq!(r.read_d(), i32::MIN);
}

#[test]
fn string_without_terminator_runs_to_the_end() {
    let data = vec![b'a', b'b'];
    let mut r = PacketReader::new(&data);
    assert_eq!(r.read_s(), "ab");
    assert!(!r.has_remaining());
}

#[test]
fn strings_follow_each_other() {
    let data = vec![0, b'a', 0, 0, b'b', b'c', 0, 7];
    let mut r = PacketReader::after_opcode(&data);
    assert_eq!(r.read_s(), "a");
    assert_eq!(r.read_s(), "");
    assert_eq!(r.read_s(), "bc");
    assert_eq!(r.read_c(), 7);
}

#[test]
fn skip_moves_the_cursor_even_past_the_end() {
    let data = vec![1, 2, 3, 4];
    let mut r = PacketReader::new(&data);
    r.skip(2);
    assert_eq!(r.read_c(), 3);
    r.skip(10);
    assert!(!r.has_remaining());
    assert_eq!(r.read_c(), 0);
    assert_eq!(r.read_s(), "");
}

#[test]
fn empty_packet() {
    let data: Vec<u8> = Vec::new();
    let mut r = PacketReader::after_opcode(&data);
    assert!(!r.has_remaining());
    assert_eq!(r.read_c(), 0);
    assert_eq!(r.read_s(), "");
}

#[test]
fn cutting_to_32_bits() {
    assert_eq!(cut_to_32(0), 0);
    assert_eq!(cut_to_32(-1), -1);
    assert_eq!(cut_to_32(0x8000_0000), i32::MIN);
    assert_eq!(cut_to_32(0x1_0000_0005), 5);
    assert_eq!(cut_to_32(-0x1_0000_0005), -5);
    assert_eq!(cut_u32(0xffff_ffff), -1);
    assert_eq!(cut_u32(7), 7);
    assert_eq!(cut_len(3), 3);
    assert_eq!(clamp_to(0, 1, 127), 1);
    assert_eq!(clamp_to(200, 1, 127), 127);
    assert_eq!(clamp_to(50, 1, 127), 50);
}
