use pocket_relay::models::game_manager::compute_version_hash;

#[test]
fn decode_error() {
    let value: i32 = -2146566144;
    let bytes = value.to_le_bytes();
    let mut out = [0u8; 2];
    out.copy_from_slice(&bytes[2..]);
    let out = u16::from_le_bytes(out);
    println!("{:#00x}", out);
}

/// Ensure the version hashing algorithm produces the correct result
#[test]
fn test_compute_version_hash() {
    let input: &str = "ME3-295976325-179181965240128";
    let expected: u64 = 0x5a4f2b378b715c6;
    let output: u64 = compute_version_hash(input);
    assert_eq!(output, expected);
}

#[test]
fn test() {
    let bytes = 17477u32.to_be_bytes();
    println!("{}", String::from_utf8_lossy(&bytes));
}
