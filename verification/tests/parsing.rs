use decryptor::split_fields;
use decryptor::validate_plaintext;
use decryptor::AuthError;

#[test]
fn validator_accepts_text_with_marker() {
    assert!(validate_plaintext("hello OTT world"));
    assert!(validate_plaintext("OTT"));
    assert!(validate_plaintext("xxOTT"));
    assert!(validate_plaintext("OTTOTT"));
    assert!(validate_plaintext("r1$tok2$u3$d4$1.2.3.4$aa:bb:cc:dd:ee:ff$0$OTT123"));
}

#[test]
fn validator_rejects_text_without_marker() {
    assert!(!validate_plaintext(""));
    assert!(!validate_plaintext("OT"));
    assert!(!validate_plaintext("O T T"));
    assert!(!validate_plaintext("ott"));
    assert!(!validate_plaintext("OTxTOTx"));
}

#[test]
fn split_yields_exactly_eight_fields() {
    let fields = split_fields("a$b$c$d$e$f$g$h").unwrap();
    assert_eq!(fields.len(), 8);
    assert_eq!(fields[0], "a");
    assert_eq!(fields[1], "b");
    assert_eq!(fields[7], "h");
}

#[test]
fn split_keeps_empty_fields() {
    let fields = split_fields("$$$$$$$").unwrap();
    assert_eq!(fields.len(), 8);
    for f in &fields {
        assert_eq!(f, "");
    }
}

#[test]
fn split_rejects_too_few_fields() {
    assert_eq!(split_fields("a$b").unwrap_err(), AuthError::MalformedPlaintext);
    assert_eq!(split_fields("").unwrap_err(), AuthError::MalformedPlaintext);
    assert_eq!(split_fields("no delimiters at all").unwrap_err(), AuthError::MalformedPlaintext);
}

#[test]
fn split_rejects_too_many_fields() {
    assert_eq!(
        split_fields("a$b$c$d$e$f$g$h$i").unwrap_err(),
        AuthError::MalformedPlaintext
    );
}

#[test]
fn error_messages() {
    assert_eq!(
        AuthError::InvalidInputEncoding.message(),
        "Invalid hex encoding for authinfo"
    );
    assert_eq!(AuthError::KeyNotFound.message(), "Could not find a possible key");
    assert_eq!(
        AuthError::MalformedPlaintext.message(),
        "Plaintext does not split into exactly 8 fields"
    );
}
