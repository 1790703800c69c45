use vstd::prelude::*;
use vstd::string::StringSliceAdditionalSpecFns;
use crate::json::{base64_encode, base64_of};
use crate::response::ApiError;

verus! {

/// Whether `ciphertext` is `plain` encrypted, with PKCS#1 v1.5 padding,
/// under the RSA public key of the PEM certificate `pem`. The padding is
/// random, so many ciphertexts encrypt one input.
pub uninterp spec fn encrypts_under(pem: Seq<u8>, plain: Seq<u8>, ciphertext: Seq<u8>) -> bool;

/// Relies on openssl: `X509::from_pem` reads the certificate, `public_key`
/// and `rsa` take its RSA key, and `public_encrypt` with PKCS#1 padding
/// encrypts `plain` into a buffer of the key's size, cut to the length it
/// reports. `None` on the first error. `from_pem` panics on more than
/// `i32::MAX` bytes, and so does `public_encrypt` on its input.
#[verifier::external_body]
fn encrypt_for_certificate(pem: &[u8], plain: &[u8]) -> (r: Option<Vec<u8>>)
    requires
        pem@.len() <= i32::MAX,
        plain@.len() <= i32::MAX,
    ensures
        r matches Some(c) ==> encrypts_under(pem@, plain@, c@),
{
    let rsa = openssl::x509::X509::from_pem(pem).ok()?.public_key().ok()?.rsa().ok()?;
    let mut out = vec![0u8; rsa.size() as usize];
    let n = rsa.public_encrypt(plain, &mut out, openssl::rsa::Padding::PKCS1).ok()?;
    out.truncate(n);
    Some(out)
}

/// The base64 encoding, standard alphabet with padding, of a ciphertext.
pub fn encode_ciphertext(ciphertext: &[u8]) -> (r: String)
    ensures
        r@ == base64_of(ciphertext@),
{
    base64_encode(ciphertext)
}

/// The password, as UTF-8 bytes, encrypted under the RSA public key of the
/// PEM certificate `certificate_pem` and encoded in base64: the security
/// credential of privileged requests. Any failure (no certificate, no RSA
/// key, a certificate or a password too long to hand to openssl, a failed
/// encryption) is a crypto error.
pub fn derive_security_credential(certificate_pem: &[u8], password: &str) -> (r: Result<
    String,
    ApiError,
>)
    ensures
        password.spec_bytes().len() > i32::MAX ==> r == Err::<String, ApiError>(ApiError::Crypto),
        certificate_pem@.len() > i32::MAX ==> r == Err::<String, ApiError>(ApiError::Crypto),
        match r {
            Ok(s) => exists|c: Seq<u8>|
                s@ == base64_of(c) && encrypts_under(certificate_pem@, password.spec_bytes(), c),
            Err(e) => e == ApiError::Crypto,
        },
{
    let plain = password.as_bytes();
    if plain.len() > 2147483647 || certificate_pem.len() > 2147483647 {
        return Err(ApiError::Crypto);
    }
    match encrypt_for_certificate(certificate_pem, plain) {
        Some(ciphertext) => Ok(encode_ciphertext(ciphertext.as_slice())),
        None => Err(ApiError::Crypto),
    }
}

} // verus!
