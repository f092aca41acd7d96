use ccargo::serde_bin::{BinaryReader, BinaryWriter};

#[test]
fn binary_round_trip() {
    let mut w = BinaryWriter::new();
    w.write_u8(7);
    w.write_u32(0xdeadbeef);
    w.write_u64(0x0123456789abcdef);
    w.write_bytes(b"hello");
    w.write_path(b"src/a.c");
    let bytes = w.into_inner();
    let mut r = BinaryReader::new(&bytes);
    assert_eq!(Some(7), r.read_u8());
    assert_eq!(Some(0xdeadbeef), r.read_u32());
    assert_eq!(Some(0x0123456789abcdef), r.read_u64());
    assert_eq!(Some(b"hello".to_vec()), r.read_bytes());
    assert_eq!(Some(b"src/a.c".to_vec()), r.read_path());
    assert_eq!(None, r.read_u8());
}

#[test]
fn binary_reader_truncated() {
    let mut w = BinaryWriter::new();
    w.write_u64(65536);
    let bytes = w.into_inner();
    // the length prefix promises more bytes than there are
    let mut r = BinaryReader::new(&bytes);
    assert_eq!(None, r.read_bytes());
    let mut r2 = BinaryReader::new(&bytes[..3]);
    assert_eq!(None, r2.read_u32());
}

#[test]
fn to_hex_format() {
    assert_eq!(b"efcdab8967452301".to_vec(), ccargo::hashing::to_hex(0x0123456789abcdef));
    assert_eq!(b"0000000000000000".to_vec(), ccargo::hashing::to_hex(0));
    let a = ccargo::hashing::hash_u64(b"abc");
    let b = ccargo::hashing::hash_u64(b"abc");
    assert_eq!(a, b);
    assert_ne!(ccargo::hashing::hash_u64(b"abc"), ccargo::hashing::hash_u64(b"abd"));
}
