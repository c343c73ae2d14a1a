use decryptor::derive_key;
use decryptor::render_key_index;

#[test]
fn derived_key_is_24_bytes_zero_padded() {
    let key = derive_key(7);
    assert_eq!(key.len(), 24);
    assert_eq!(&key[..6], b"000007");
    for j in 6..24 {
        assert_eq!(key[j], b'0');
    }
}

#[test]
fn derived_key_smallest_index() {
    let key = derive_key(0);
    assert_eq!(key, vec![b'0'; 24]);
}

#[test]
fn derived_key_largest_index() {
    let key = derive_key(999999);
    assert_eq!(key.len(), 24);
    assert_eq!(&key[..6], b"999999");
    assert_eq!(&key[6..], &[b'0'; 18]);
}

#[test]
fn derived_key_all_digits() {
    let key = derive_key(123456);
    assert_eq!(&key[..6], b"123456");
}

#[test]
fn derivation_is_deterministic() {
    assert_eq!(derive_key(424242), derive_key(424242));
    assert_eq!(render_key_index(424242), render_key_index(424242));
}

#[test]
fn rendering_zero_pads_to_six_digits() {
    assert_eq!(render_key_index(42), "000042");
    assert_eq!(render_key_index(0), "000000");
    assert_eq!(render_key_index(999999), "999999");
    assert_eq!(render_key_index(100000), "100000");
    assert_eq!(render_key_index(7), "000007");
}

#[test]
fn rendering_matches_key_prefix() {
    for i in [0u32, 1, 9, 10, 99999, 100001, 999999] {
        let key = derive_key(i);
        let rendered = render_key_index(i);
        assert_eq!(rendered.as_bytes(), &key[..6]);
    }
}
