//! Recovery of a Triple-DES key from a small, fully enumerable key space.
//!
//! The key space is the set of integers 0..=999999; each index is turned
//! into a 24-byte cipher key by zero-padding it to six decimal digits and
//! appending eighteen ASCII `'0'` bytes.  The search tries every index in
//! ascending order against a decryption oracle, accepts the first candidate
//! plaintext that contains the marker `"OTT"`, and parses the accepted
//! plaintext into eight `$`-delimited fields.

pub mod errors;
pub mod fields;
pub mod hexcodec;
pub mod keys;
pub mod oracle;
pub mod search;
pub mod validator;

pub use errors::AuthError;
pub use fields::split_fields;
pub use keys::derive_key;
pub use keys::render_key_index;
pub use search::decrypt_authinfo;
pub use search::search_key_space;
pub use validator::validate_plaintext;
