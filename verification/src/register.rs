//! Fresh device registration: the random device identifier, the two
//! derived query parameters the `/register` endpoint checks, and the
//! request itself.

use vstd::prelude::*;
use vstd::utf8::encode_utf8;
use md5::{Digest, Md5};
use crate::client::{API_HOST, APP_VER, OS_VER_DEFAULT};
use crate::error::{ApiError, Result};
use crate::request::{api_url, pair, pairs_view};
use crate::text::push_str;

verus! {

/// Salt baked into the official Android app, appended to the device token
/// before hashing it into the security key.
pub const REGISTER_SALT: &'static str = "4Kin9vGg";

/// The MD5 digest of `data` (`md5::Md5`, the RustCrypto `md-5` crate).
pub uninterp spec fn md5(data: Seq<u8>) -> Seq<u8>;

/// The lowercase hexadecimal digit for `n`, which is below sixteen.
pub open spec fn hex_digit(n: nat) -> char {
    if n < 10 {
        (48 + n) as char
    } else {
        (87 + n) as char
    }
}

/// Lowercase hexadecimal encoding: two digits per byte, high nibble first.
pub open spec fn hex_lower(data: Seq<u8>) -> Seq<char>
    decreases data.len(),
{
    if data.len() == 0 {
        Seq::empty()
    } else {
        seq![hex_digit((data[0] / 16) as nat), hex_digit((data[0] % 16) as nat)] + hex_lower(
            data.drop_first(),
        )
    }
}

/// `<Md5 as Digest>::digest`: the 16-byte MD5 digest of `input`, named
/// [`md5`]; nothing more is stated of its value.
#[verifier::external_body]
fn md5_digest(input: &[u8]) -> (r: Vec<u8>)
    ensures
        r@ == md5(input@),
        r@.len() == 16,
{
    Md5::digest(input).to_vec()
}

/// `hex::encode`: the lowercase hexadecimal spelling of `data`, as the
/// crate documents it.
#[verifier::external_body]
fn hex_encode(data: &[u8]) -> (r: String)
    ensures
        r@ == hex_lower(data@),
{
    hex::encode(data)
}

/// `getrandom::Error`, carried opaquely.
#[verifier::external_type_specification]
#[verifier::external_body]
pub struct ExRandomError(getrandom::Error);

/// `getrandom::getrandom`: fills `buf` with bytes from the system's random
/// source, or fails; the bytes depend on chance, so only the length of the
/// buffer is stated.
#[verifier::external_body]
fn fill_random(buf: &mut Vec<u8>) -> (r: core::result::Result<(), getrandom::Error>)
    ensures
        final(buf)@.len() == old(buf)@.len(),
{
    getrandom::getrandom(buf.as_mut_slice())
}

/// `<getrandom::Error as Display>`: the error's description; nothing is
/// stated of its text.
#[verifier::external_body]
fn random_error_text(e: &getrandom::Error) -> String {
    e.to_string()
}

/// The MD5 digest of `input`, spelled in lowercase hexadecimal.
pub fn md5_hex(input: &[u8]) -> (r: String)
    ensures
        r@ == hex_lower(md5(input@)),
        r@.len() == 32,
{
    let digest = md5_digest(input);
    proof {
        lemma_hex_lower_len(digest@);
    }
    hex_encode(digest.as_slice())
}

/// Hex encoding spells each byte with two characters.
pub proof fn lemma_hex_lower_len(data: Seq<u8>)
    ensures
        hex_lower(data).len() == 2 * data.len(),
    decreases data.len(),
{
    if data.len() > 0 {
        lemma_hex_lower_len(data.drop_first());
    }
}

/// The device token and the security key that `/register` expects for an
/// Android id: token = MD5(id), key = MD5(token ++ salt), both in hex.
pub open spec fn spec_register_params(android_id: Seq<char>) -> (Seq<char>, Seq<char>) {
    let token = hex_lower(md5(encode_utf8(android_id)));
    let key = hex_lower(md5(encode_utf8(token + REGISTER_SALT@)));
    (token, key)
}

/// Derivation of the two query parameters the `/register` endpoint expects.
pub fn derive_register_params(android_id: &str) -> (r: (String, String))
    ensures
        (r.0@, r.1@) == spec_register_params(android_id@),
        r.0@.len() == 32,
        r.1@.len() == 32,
{
    let device_token = md5_hex(android_id.as_bytes());
    let mut salted = device_token.clone();
    push_str(&mut salted, REGISTER_SALT);
    let security_key = md5_hex(salted.as_str().as_bytes());
    (device_token, security_key)
}

/// A fresh Android id: eight random bytes in hexadecimal. The server
/// treats it as an opaque key.
pub fn new_android_id() -> (r: Result<String>)
    ensures
        r matches Ok(id) ==> exists|b: Seq<u8>| b.len() == 8 && id@ == hex_lower(b),
        r matches Err(e) ==> (e matches ApiError::Other(m) && m@.take(11) == "getrandom: "@),
{
    let mut bytes: Vec<u8> = Vec::new();
    let mut i: usize = 0;
    while i < 8
        invariant
            i <= 8,
            bytes@.len() == i,
        decreases 8 - i,
    {
        bytes.push(0u8);
        i = i + 1;
    }
    match fill_random(&mut bytes) {
        Ok(()) => Ok(hex_encode(bytes.as_slice())),
        Err(e) => {
            let mut m = String::new();
            push_str(&mut m, "getrandom: ");
            let ghost prefix = m@;
            push_str(&mut m, random_error_text(&e).as_str());
            proof {
                reveal_strlit("getrandom: ");
                assert(m@.take(11) =~= prefix);
            }
            Err(ApiError::Other(m))
        },
    }
}

/// The registration parameters of a fresh random device.
pub fn registration_params() -> (r: Result<(String, String)>)
    ensures
        r matches Ok(p) ==> exists|id: Seq<char>, b: Seq<u8>|
            b.len() == 8 && id == hex_lower(b) && (p.0@, p.1@) == spec_register_params(id),
        r matches Ok(p) ==> p.0@.len() == 32 && p.1@.len() == 32,
        r matches Err(e) ==> (e matches ApiError::Other(m) && m@.take(11) == "getrandom: "@),
{
    let android_id = new_android_id()?;
    Ok(derive_register_params(android_id.as_str()))
}

/// The URL of the registration endpoint.
pub fn register_url() -> (r: String)
    ensures
        r@ == "https://"@ + API_HOST@ + "/api/"@ + "register"@,
{
    api_url(API_HOST, "register")
}

/// The query of a registration request: the platform parameters (without a
/// secret, which the device does not have yet) and the derived pair.
pub fn register_query(device_token: &str, security_key: &str) -> (r: Vec<(String, String)>)
    ensures
        pairs_view(r@) == seq![
            ("os"@, "android"@),
            ("os_ver"@, OS_VER_DEFAULT@),
            ("app_ver"@, APP_VER@),
            ("device_token"@, device_token@),
            ("security_key"@, security_key@),
        ],
{
    let mut q: Vec<(String, String)> = Vec::new();
    q.push(pair("os", "android"));
    q.push(pair("os_ver", OS_VER_DEFAULT));
    q.push(pair("app_ver", APP_VER));
    q.push(pair("device_token", device_token));
    q.push(pair("security_key", security_key));
    assert(pairs_view(q@) =~= seq![
        ("os"@, "android"@),
        ("os_ver"@, OS_VER_DEFAULT@),
        ("app_ver"@, APP_VER@),
        ("device_token"@, device_token@),
        ("security_key"@, security_key@),
    ]);
    q
}

} // verus!
