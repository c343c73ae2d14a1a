use decryptor::decrypt_authinfo;
use decryptor::derive_key;
use decryptor::search_key_space;
use decryptor::split_fields;
use decryptor::AuthError;

fn make_ciphertext(index: u32, plaintext: &[u8]) -> Vec<u8> {
    let key = derive_key(index);
    let iv = [0u8; 8];
    openssl::symm::encrypt(openssl::symm::Cipher::des_ede3(), &key, Some(&iv), plaintext).unwrap()
}

#[test]
fn example_scenario_key_000042() {
    let plaintext = b"r1$tok2$u3$d4$1.2.3.4$aa:bb:cc:dd:ee:ff$0$OTT123";
    let ciphertext = make_ciphertext(42, plaintext);
    let token = hex::encode(&ciphertext);

    let (key, text) = decrypt_authinfo(&token).unwrap();
    assert_eq!(key, "000042");
    assert_eq!(text.as_bytes(), plaintext);

    let fields = split_fields(&text).unwrap();
    assert_eq!(fields[0], "r1");
    assert_eq!(fields[1], "tok2");
    assert_eq!(fields[2], "u3");
    assert_eq!(fields[3], "d4");
    assert_eq!(fields[4], "1.2.3.4");
    assert_eq!(fields[5], "aa:bb:cc:dd:ee:ff");
    assert_eq!(fields[6], "0");
    assert_eq!(fields[7], "OTT123");
}

#[test]
fn uppercase_hex_decodes_the_same() {
    let plaintext = b"r1$tok2$u3$d4$1.2.3.4$aa:bb:cc:dd:ee:ff$0$OTT123";
    let ciphertext = make_ciphertext(42, plaintext);
    let token = hex::encode(&ciphertext).to_uppercase();

    let (key, _) = decrypt_authinfo(&token).unwrap();
    assert_eq!(key, "000042");
}

#[test]
fn round_trip_returns_the_encrypting_index() {
    // DES ignores the parity bit of each key byte, so an index is only
    // recoverable as itself when no smaller index derives an equivalent
    // key; digits that are all even (8 here) guarantee that.
    let plaintext = "caf\u{e9} OTT token".as_bytes();
    let ciphertext = make_ciphertext(8, plaintext);
    let token = hex::encode(&ciphertext);

    let (key, text) = decrypt_authinfo(&token).unwrap();
    assert_eq!(key, "000008");
    // the candidate bytes are decoded as UTF-8, not copied byte for byte
    assert_eq!(text, "caf\u{e9} OTT token");
}

#[test]
fn smallest_index_wins() {
    let plaintext = b"zero key OTT";
    let ciphertext = make_ciphertext(0, plaintext);

    let (index, text) = search_key_space(&ciphertext).unwrap();
    assert_eq!(index, 0);
    assert_eq!(text.as_bytes(), plaintext);
}

#[test]
fn ascending_order_with_two_accepting_indices() {
    // The derived keys of indices 0 and 1 differ only in a DES parity
    // bit, so both decrypt this ciphertext to the accepted plaintext;
    // the search must report the smaller index.
    let plaintext = b"both keys OTT";
    let ciphertext = make_ciphertext(1, plaintext);

    let (index, text) = search_key_space(&ciphertext).unwrap();
    assert_eq!(index, 0);
    assert_eq!(text.as_bytes(), plaintext);
}

#[test]
fn invalid_hex_odd_length() {
    assert_eq!(
        decrypt_authinfo("abc").unwrap_err(),
        AuthError::InvalidInputEncoding
    );
}

#[test]
fn invalid_hex_bad_characters() {
    assert_eq!(
        decrypt_authinfo("zz").unwrap_err(),
        AuthError::InvalidInputEncoding
    );
    assert_eq!(
        decrypt_authinfo("0g").unwrap_err(),
        AuthError::InvalidInputEncoding
    );
}

#[test]
fn exhaustion_reports_key_not_found() {
    // Three ciphertext bytes: no key in the space can decrypt a length
    // that is not a multiple of the cipher's block size.
    assert_eq!(
        decrypt_authinfo("aabbcc").unwrap_err(),
        AuthError::KeyNotFound
    );
}
