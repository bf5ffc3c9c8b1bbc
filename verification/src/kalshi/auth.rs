//! Signed request headers.
//!
//! Every request carries the API key id, the time in milliseconds and an
//! RSASSA-PKCS#1 v1.5 signature with SHA-256, in standard base64, over the
//! bytes of `<timestamp><METHOD><path with query>`. The `rsa`, `sha2` and
//! `base64` crates compute the signature and its encoding; this module
//! fixes what is signed and how the headers are laid out.

use crate::text::{decimal_digits, decimal_string};
use base64::engine::general_purpose::STANDARD;
use base64::Engine;
use rsa::pkcs1::DecodeRsaPrivateKey;
use rsa::pkcs1v15::SigningKey;
use rsa::signature::{SignatureEncoding, Signer};
use rsa::RsaPrivateKey;
use sha2::Sha256;
use std::time::{SystemTime, UNIX_EPOCH};
use vstd::prelude::*;
use vstd::utf8::encode_utf8;

verus! {

/// The name of the header that carries the API key id.
pub const ACCESS_KEY_HEADER: &'static str = "KALSHI-ACCESS-KEY";

/// The name of the header that carries the time in milliseconds.
pub const ACCESS_TIMESTAMP_HEADER: &'static str = "KALSHI-ACCESS-TIMESTAMP";

/// The name of the header that carries the signature.
pub const ACCESS_SIGNATURE_HEADER: &'static str = "KALSHI-ACCESS-SIGNATURE";

/// The longest signature that is encoded, in bytes; an RSA signature is as
/// long as the modulus of its key.
pub const MAX_SIGNATURE_BYTES: usize = 65_536;

/// Whether the `rsa` crate reads a text as a PKCS#1 PEM private key.
pub uninterp spec fn is_pkcs1_private_key(pem: Seq<char>) -> bool;

/// The PKCS#1 v1.5 signature with SHA-256 that the `rsa` crate gives for a
/// message under the key of a PKCS#1 PEM text; `None` where it gives none.
pub uninterp spec fn pkcs1v15_sha256_signature(key_pem: Seq<char>, message: Seq<u8>) -> Option<
    Seq<u8>,
>;

/// The standard base64 encoding, with padding, as the `base64` crate
/// writes it.
pub uninterp spec fn base64_standard(bytes: Seq<u8>) -> Seq<char>;

/// Why no signed headers could be made.
#[derive(Debug, Clone, Copy, PartialEq, Eq, Structural)]
pub enum AuthError {
    /// The key text is not a PKCS#1 PEM private key.
    InvalidKey,
    /// The key gave no signature, or one longer than `MAX_SIGNATURE_BYTES`.
    SigningFailed,
}

/// The signer of one API key. The key is kept as its PEM text, which is
/// checked once, when the signer is made, and never changes; a signature is
/// thus a function of plain values.
pub struct KalshiAuth {
    key_pem: String,
    api_key_id: String,
}

/// What is signed: the decimal timestamp, the method and the path with its
/// query, in this order and with nothing between them.
pub open spec fn signing_text(timestamp_ms: u64, method: Seq<char>, path: Seq<char>) -> Seq<char> {
    decimal_digits(timestamp_ms as nat) + method + path
}

/// The signature header for a message under a key: the base64 of the
/// signature, where there is one of at most `MAX_SIGNATURE_BYTES` bytes.
pub open spec fn signature_text(key_pem: Seq<char>, message: Seq<char>) -> Option<Seq<char>> {
    match pkcs1v15_sha256_signature(key_pem, encode_utf8(message)) {
        Some(sig) => if sig.len() <= MAX_SIGNATURE_BYTES {
            Some(base64_standard(sig))
        } else {
            None
        },
        None => None,
    }
}

/// The three headers of a request, in the order key, timestamp, signature.
pub open spec fn headers_of(api_key_id: Seq<char>, timestamp_ms: u64, signature: Seq<char>) -> Seq<
    (Seq<char>, Seq<char>),
> {
    seq![
        ("KALSHI-ACCESS-KEY"@, api_key_id),
        ("KALSHI-ACCESS-TIMESTAMP"@, decimal_digits(timestamp_ms as nat)),
        ("KALSHI-ACCESS-SIGNATURE"@, signature),
    ]
}

/// The views of a list of headers.
pub open spec fn header_views(headers: Seq<(String, String)>) -> Seq<(Seq<char>, Seq<char>)> {
    headers.map_values(|h: (String, String)| (h.0@, h.1@))
}

/// The headers of a request at a given time under a key, where the key
/// signs.
pub open spec fn request_headers(
    key_pem: Seq<char>,
    api_key_id: Seq<char>,
    timestamp_ms: u64,
    method: Seq<char>,
    path: Seq<char>,
) -> Option<Seq<(Seq<char>, Seq<char>)>> {
    match signature_text(key_pem, signing_text(timestamp_ms, method, path)) {
        Some(text) => Some(headers_of(api_key_id, timestamp_ms, text)),
        None => None,
    }
}

/// Whether a result hands out exactly the expected headers, or fails for
/// want of a signature where none are expected.
pub open spec fn hands_out(
    result: Result<Vec<(String, String)>, AuthError>,
    expected: Option<Seq<(Seq<char>, Seq<char>)>>,
) -> bool {
    match expected {
        Some(h) => result matches Ok(v) && header_views(v@) == h,
        None => result == Err::<Vec<(String, String)>, AuthError>(AuthError::SigningFailed),
    }
}

/// The text that is signed for a request.
pub fn signing_message(timestamp_ms: u64, method: &str, path: &str) -> (message: String)
    ensures
        message@ == signing_text(timestamp_ms, method@, path@),
{
    let mut message = decimal_string(timestamp_ms);
    message.append(method);
    message.append(path);
    message
}

/// The base64 text of a signature.
pub fn encode_signature(signature: &[u8]) -> (text: String)
    requires
        signature@.len() <= MAX_SIGNATURE_BYTES,
    ensures
        text@ == base64_standard(signature@),
{
    base64_encode(signature)
}

/// The three headers of a request from the key id, the time and the
/// encoded signature.
pub fn auth_headers(api_key_id: &str, timestamp_ms: u64, signature: String) -> (headers: Vec<
    (String, String),
>)
    ensures
        header_views(headers@) == headers_of(api_key_id@, timestamp_ms, signature@),
{
    let mut headers: Vec<(String, String)> = Vec::new();
    headers.push((ACCESS_KEY_HEADER.to_owned(), api_key_id.to_owned()));
    headers.push((ACCESS_TIMESTAMP_HEADER.to_owned(), decimal_string(timestamp_ms)));
    headers.push((ACCESS_SIGNATURE_HEADER.to_owned(), signature));
    assert(header_views(headers@) =~= headers_of(api_key_id@, timestamp_ms, signature@));
    headers
}

impl KalshiAuth {
    /// The PEM text of the key.
    pub closed spec fn key_text(&self) -> Seq<char> {
        self.key_pem@
    }

    /// The API key id.
    pub closed spec fn key_id(&self) -> Seq<char> {
        self.api_key_id@
    }

    /// A signer for the key in `pem_content`, the text of a PKCS#1 PEM
    /// file. A text that is no such key is refused.
    pub fn new(pem_content: &str, api_key_id: String) -> (auth: Result<KalshiAuth, AuthError>)
        ensures
            match auth {
                Ok(a) => is_pkcs1_private_key(pem_content@) && a.key_text() == pem_content@
                    && a.key_id() == api_key_id@,
                Err(e) => !is_pkcs1_private_key(pem_content@) && e == AuthError::InvalidKey,
            },
    {
        if !parses_as_pkcs1(pem_content) {
            return Err(AuthError::InvalidKey);
        }
        Ok(KalshiAuth { key_pem: pem_content.to_owned(), api_key_id })
    }

    /// The current Unix time in milliseconds, read with `SystemTime::now`.
    /// Trusted, though nothing is promised of the reading. It panics only
    /// where the clock reads a time before 1970.
    #[verifier::external_body]
    pub fn timestamp_ms() -> u64 {
        SystemTime::now().duration_since(UNIX_EPOCH).unwrap().as_millis() as u64
    }

    /// The signature header for a request at the given time: the base64 of
    /// the signature over timestamp, method and path. `method` is the
    /// upper-case method name.
    pub fn sign(&self, timestamp_ms: u64, method: &str, path: &str) -> (signature: Result<
        String,
        AuthError,
    >)
        ensures
            match signature_text(self.key_text(), signing_text(timestamp_ms, method@, path@)) {
                Some(text) => signature matches Ok(s) && s@ == text,
                None => signature == Err::<String, AuthError>(AuthError::SigningFailed),
            },
    {
        let message = signing_message(timestamp_ms, method, path);
        match rsa_sign(self.key_pem.as_str(), message.as_str().as_bytes()) {
            Some(sig) => {
                if sig.len() <= MAX_SIGNATURE_BYTES {
                    Ok(encode_signature(sig.as_slice()))
                } else {
                    Err(AuthError::SigningFailed)
                }
            },
            None => Err(AuthError::SigningFailed),
        }
    }

    /// The three headers of a request at the given time.
    pub fn headers_at(&self, timestamp_ms: u64, method: &str, path: &str) -> (headers: Result<
        Vec<(String, String)>,
        AuthError,
    >)
        ensures
            hands_out(
                headers,
                request_headers(self.key_text(), self.key_id(), timestamp_ms, method@, path@),
            ),
    {
        match self.sign(timestamp_ms, method, path) {
            Ok(signature) => Ok(auth_headers(self.api_key_id.as_str(), timestamp_ms, signature)),
            Err(e) => Err(e),
        }
    }

    /// The three headers of a request sent now: they are those of some
    /// reading of the clock.
    pub fn headers(&self, method: &str, path: &str) -> (headers: Result<
        Vec<(String, String)>,
        AuthError,
    >)
        ensures
            exists|timestamp_ms: u64|
                hands_out(
                    headers,
                    #[trigger] request_headers(
                        self.key_text(),
                        self.key_id(),
                        timestamp_ms,
                        method@,
                        path@,
                    ),
                ),
    {
        let timestamp_ms = KalshiAuth::timestamp_ms();
        self.headers_at(timestamp_ms, method, path)
    }
}

/// Asks `RsaPrivateKey::from_pkcs1_pem` of the `rsa` crate whether a text
/// parses as a PKCS#1 PEM private key. Trusted: the answer depends on the
/// text alone; it is named `is_pkcs1_private_key`.
#[verifier::external_body]
fn parses_as_pkcs1(pem: &str) -> (ok: bool)
    ensures
        ok == is_pkcs1_private_key(pem@),
{
    RsaPrivateKey::from_pkcs1_pem(pem).is_ok()
}

/// Signs a message with `SigningKey::<Sha256>::try_sign` of the `rsa`
/// crate, under the key that `RsaPrivateKey::from_pkcs1_pem` reads from the
/// text: PKCS#1 v1.5 padding over the SHA-256 digest. Trusted: the scheme
/// is deterministic, so the signature depends on key text and message
/// alone; it is named `pkcs1v15_sha256_signature`. There is none where the
/// text is no key or the key is too short for the padded digest.
#[verifier::external_body]
fn rsa_sign(key_pem: &str, message: &[u8]) -> (signature: Option<Vec<u8>>)
    ensures
        (match signature {
            Some(s) => Some(s@),
            None => None,
        }) == pkcs1v15_sha256_signature(key_pem@, message@),
{
    let key = RsaPrivateKey::from_pkcs1_pem(key_pem).ok()?;
    let signature = SigningKey::<Sha256>::new(key).try_sign(message).ok()?;
    Some(signature.to_vec())
}

/// Encodes bytes with `STANDARD.encode` of the `base64` crate. Trusted: the
/// text depends on the bytes alone; it is named `base64_standard`. The
/// engine panics only where the encoded length overflows `usize`, which
/// takes an input beyond the bound required here.
#[verifier::external_body]
fn base64_encode(bytes: &[u8]) -> (text: String)
    requires
        bytes@.len() <= MAX_SIGNATURE_BYTES,
    ensures
        text@ == base64_standard(bytes@),
{
    STANDARD.encode(bytes)
}

} // verus!
