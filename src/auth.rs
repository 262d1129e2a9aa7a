//! The Basic-Auth header value sent with every request to the player.
use vstd::prelude::*;

use base64::engine::general_purpose::STANDARD;
use base64::Engine;

verus! {

/// The standard base64 encoding, with padding, of a text's UTF-8 bytes.
pub uninterp spec fn base64_standard(text: Seq<char>) -> Seq<char>;

/// Relies on `base64::engine::general_purpose::STANDARD.encode`: the standard
/// alphabet with padding, over the text's UTF-8 bytes. It panics only where
/// the encoded length overflows `usize`, which the bound on the input excludes.
#[verifier::external_body]
fn encode_base64(text: &str) -> (r: String)
    requires
        text@.len() <= usize::MAX / 8,
    ensures
        r@ == base64_standard(text@),
{
    STANDARD.encode(text)
}

/// The credentials that the player expects: an empty user name, a colon, and
/// the password.
pub fn credentials(password: &str) -> (r: String)
    ensures
        r@ == ":"@ + password@,
{
    ":".to_owned().concat(password)
}

/// The header value for credentials already encoded in base64.
pub fn basic_auth_from_encoded(encoded: &str) -> (r: String)
    ensures
        r@ == "Basic "@ + encoded@,
{
    "Basic ".to_owned().concat(encoded)
}

/// The `Authorization` header value for the player's password.
pub fn basic_auth_value(password: &str) -> (r: String)
    requires
        password@.len() < usize::MAX / 8,
    ensures
        r@ == "Basic "@ + base64_standard(":"@ + password@),
{
    proof {
        reveal_strlit(":");
    }
    let cred = credentials(password);
    let encoded = encode_base64(cred.as_str());
    basic_auth_from_encoded(encoded.as_str())
}

} // verus!
