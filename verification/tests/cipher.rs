use l1j_rust::network::cipher::Cipher;

#[test]
fn test_cipher_init_deterministic() {
    let c1 = Cipher::new(0x12345678);
    let c2 = Cipher::new(0x12345678);
    assert_eq!(c1.encrypt_key(), c2.encrypt_key());
    assert_eq!(c1.decrypt_key(), c2.decrypt_key());
}

#[test]
fn test_encrypt_decrypt_roundtrip() {
    // Server encrypts, client decrypts using same key
    let mut server_cipher = Cipher::new(0xDEADBEEF);
    let mut client_cipher = Cipher::new(0xDEADBEEF);

    let original = b"Hello, Lineage!".to_vec();

    // Pad to 4-byte alignment
    let mut data = original.clone();
    while data.len() % 4 != 0 {
        data.push(0);
    }

    let plaintext_copy = data.clone();

    // Server encrypts
    server_cipher.encrypt(&mut data);
    assert_ne!(data, plaintext_copy, "Encrypted data should differ from plaintext");

    // Client decrypts (using db key, same initial state)
    client_cipher.decrypt(&mut data);
    assert_eq!(data, plaintext_copy, "Decrypted data should match original");
}

#[test]
fn test_multiple_packets_stay_in_sync() {
    let mut server = Cipher::new(0xCAFEBABE);
    let mut client = Cipher::new(0xCAFEBABE);

    for i in 0..10 {
        let mut data = vec![i as u8; 8 + (i * 4)]; // Varying sizes, 4-byte aligned
        let original = data.clone();

        server.encrypt(&mut data);
        client.decrypt(&mut data);

        assert_eq!(data, original, "Packet {} roundtrip failed", i);
    }
}

#[test]
fn test_minimum_4_byte_packet() {
    let mut enc = Cipher::new(0x11111111);
    let mut dec = Cipher::new(0x11111111);

    let mut data = vec![0xAA, 0xBB, 0xCC, 0xDD];
    let original = data.clone();

    enc.encrypt(&mut data);
    dec.decrypt(&mut data);
    assert_eq!(data, original);
}

#[test]
fn test_key_diverges_without_sync() {
    let mut enc = Cipher::new(0x99999999);
    let mut dec = Cipher::new(0x99999999);

    // Encrypt two packets on server side
    let mut pkt1 = vec![1, 2, 3, 4, 5, 6, 7, 8];
    let mut pkt2 = vec![10, 20, 30, 40];

    enc.encrypt(&mut pkt1);
    enc.encrypt(&mut pkt2);

    // Client decrypts the first packet, then the second
    dec.decrypt(&mut pkt1);
    let pkt2_orig = vec![10, 20, 30, 40];
    dec.decrypt(&mut pkt2);
    assert_eq!(pkt2, pkt2_orig, "Sequential decrypt should stay in sync");
}

#[test]
fn seed_gives_exact_key_bytes() {
    let c = Cipher::new(0x12345678);
    let expected = [0x24, 0x70, 0x0c, 0x1a, 0x55, 0x4e, 0x71, 0xf5];
    assert_eq!(c.encrypt_key(), expected);
    assert_eq!(c.decrypt_key(), expected);
}

#[test]
fn encrypt_gives_exact_ciphertext_and_next_key() {
    let mut c = Cipher::new(0x11111111);
    let mut data = vec![0xAA, 0xBB, 0xCC, 0xDD];
    c.encrypt(&mut data);
    assert_eq!(data, vec![0x63, 0x90, 0x99, 0x46]);
    assert_eq!(c.encrypt_key(), [0xa4, 0xd2, 0x88, 0xfc, 0x42, 0x57, 0xb8, 0xf6]);
    // the decrypt direction is untouched
    assert_eq!(c.decrypt_key(), Cipher::new(0x11111111).decrypt_key());

    let mut c = Cipher::new(0x12345678);
    let mut data = vec![1, 2, 3, 4, 5, 6, 7, 8];
    c.encrypt(&mut data);
    assert_eq!(data, vec![0x61, 0x0a, 0x08, 0x4a, 0x16, 0x5e, 0x28, 0xd5]);
    assert_eq!(c.encrypt_key(), [0x25, 0x72, 0x0f, 0x1e, 0x18, 0x4e, 0xf0, 0x1d]);
}

#[test]
fn decrypt_advances_only_the_decrypt_key() {
    let mut enc = Cipher::new(0x12345678);
    let mut dec = Cipher::new(0x12345678);
    let mut data = vec![1, 2, 3, 4, 5, 6, 7, 8];
    enc.encrypt(&mut data);
    dec.decrypt(&mut data);
    assert_eq!(data, vec![1, 2, 3, 4, 5, 6, 7, 8]);
    assert_eq!(dec.decrypt_key(), enc.encrypt_key());
    assert_eq!(dec.encrypt_key(), Cipher::new(0x12345678).encrypt_key());
}

#[test]
fn skipped_packet_desynchronizes() {
    let mut enc = Cipher::new(0x99999999);
    let mut dec = Cipher::new(0x99999999);
    let mut pkt1 = vec![1, 2, 3, 4, 5, 6, 7, 8];
    let mut pkt2 = vec![10, 20, 30, 40, 50, 60, 70, 80];
    enc.encrypt(&mut pkt1);
    enc.encrypt(&mut pkt2);
    // the receiver never sees the first packet
    assert_ne!(enc.encrypt_key(), dec.decrypt_key());
    dec.decrypt(&mut pkt2);
    assert_ne!(pkt2, vec![10, 20, 30, 40, 50, 60, 70, 80]);
}

#[test]
fn wrong_order_desynchronizes() {
    let mut enc = Cipher::new(0x42);
    let mut dec = Cipher::new(0x42);
    let mut pkt1 = vec![1, 2, 3, 4, 5, 6, 7, 8];
    let mut pkt2 = vec![9, 9, 9, 9, 9, 9, 9, 9];
    enc.encrypt(&mut pkt1);
    enc.encrypt(&mut pkt2);
    dec.decrypt(&mut pkt2);
    dec.decrypt(&mut pkt1);
    assert_ne!(pkt1, vec![1, 2, 3, 4, 5, 6, 7, 8]);
    assert_ne!(dec.decrypt_key(), enc.encrypt_key());
}

#[test]
fn different_seeds_give_different_keys() {
    assert_ne!(Cipher::new(1).encrypt_key(), Cipher::new(2).encrypt_key());
}
