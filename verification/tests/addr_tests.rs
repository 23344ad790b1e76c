use cch24_core::addr::{dest_octets, ipv6_xor, key_octets};

#[test]
fn test_dest_octets_plain() {
    let from = vec![10u8, 0, 0, 0];
    let key = vec![1u8, 2, 3, 4];
    assert_eq!(dest_octets(&from, &key), vec![11u8, 2, 3, 4]);
}

#[test]
fn test_dest_octets_wraps() {
    let from = vec![128u8, 128, 255, 255];
    let key = vec![128u8, 200, 1, 255];
    assert_eq!(dest_octets(&from, &key), vec![0u8, 72, 0, 254]);
}

#[test]
fn test_key_octets_plain_and_wrapping() {
    let from = vec![10u8, 0, 0, 0];
    let to = vec![11u8, 2, 3, 4];
    assert_eq!(key_octets(&from, &to), vec![1u8, 2, 3, 4]);
    let from = vec![255u8, 1, 0, 0];
    let to = vec![0u8, 0, 0, 0];
    assert_eq!(key_octets(&from, &to), vec![1u8, 255, 0, 0]);
}

#[test]
fn test_key_then_dest_round_trips() {
    let from = vec![192u8, 168, 1, 44];
    let to = vec![72u8, 26, 245, 7];
    let key = key_octets(&from, &to);
    assert_eq!(dest_octets(&from, &key), to);
}

#[test]
fn test_ipv6_xor_both_directions() {
    let from: Vec<u8> = (0u8..16).collect();
    let key: Vec<u8> = (16u8..32).collect();
    let dest = ipv6_xor(&from, &key);
    for i in 0..16 {
        assert_eq!(dest[i], from[i] ^ key[i]);
    }
    // XOR is its own inverse: applying the key to the destination gives the
    // source back.
    assert_eq!(ipv6_xor(&dest, &key), from);
}
