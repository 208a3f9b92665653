//! Keyed hashing and encodings that the library takes from outside crates.

use vstd::prelude::*;
use vstd::utf8::{decode_utf8, valid_utf8};
use hmac::Mac;

verus! {

/// The HMAC-SHA256 tag of `msg` under `key`.
pub uninterp spec fn hmac_sha256_tag(key: Seq<u8>, msg: Seq<u8>) -> Seq<u8>;

/// `Hmac::<Sha256>::new_from_slice(key)`, `update(msg)`, `finalize()` (crates `hmac` and
/// `sha2`). The contract names the tag, a function of the key and the message alone,
/// and states its length, the 32 bytes of a SHA-256 output. The crate's
/// `new_from_slice` accepts keys of every length, so the call does not fail.
#[verifier::external_body]
pub(crate) fn hmac_sha256(key: &[u8], msg: &[u8]) -> (tag: Vec<u8>)
    ensures
        tag@ == hmac_sha256_tag(key@, msg@),
        tag@.len() == 32,
{
    let mut mac = <hmac::Hmac<sha2::Sha256> as Mac>::new_from_slice(key).unwrap();
    mac.update(msg);
    mac.finalize().into_bytes().to_vec()
}

/// The lower-case hexadecimal digit of a value below 16.
pub open spec fn lower_hex_digit(d: u8) -> char {
    if d < 10 {
        (d + 48) as char
    } else {
        (d + 87) as char
    }
}

/// `data` written as lower-case hexadecimal, two digits per byte, high half first.
pub open spec fn hex_lower(data: Seq<u8>) -> Seq<char>
    decreases data.len(),
{
    if data.len() == 0 {
        Seq::empty()
    } else {
        hex_lower(data.drop_last()) + seq![
            lower_hex_digit(data.last() / 16),
            lower_hex_digit(data.last() % 16),
        ]
    }
}

/// `hex::encode(data)`: each byte as two lower-case hexadecimal digits, high half first,
/// as the crate's table lookup writes them.
#[verifier::external_body]
pub(crate) fn hex_encode(data: &[u8]) -> (r: String)
    ensures
        r@ == hex_lower(data@),
{
    hex::encode(data)
}

/// The text that `String::from_utf8_lossy` reads from `bytes`.
pub uninterp spec fn utf8_lossy(bytes: Seq<u8>) -> Seq<char>;

/// `String::from_utf8_lossy(bytes)`. Where `bytes` is valid UTF-8, its documentation
/// says the text is what the bytes encode; elsewhere invalid sequences become
/// replacement characters, which the contract leaves under the name.
#[verifier::external_body]
pub(crate) fn from_utf8_lossy(bytes: &[u8]) -> (r: String)
    ensures
        r@ == utf8_lossy(bytes@),
        valid_utf8(bytes@) ==> r@ == decode_utf8(bytes@),
{
    String::from_utf8_lossy(bytes).into_owned()
}

} // verus!
