use base64::engine::general_purpose::STANDARD;
use base64::Engine;
use bracket_arb::kalshi::auth::{
    auth_headers, encode_signature, signing_message, AuthError, KalshiAuth, ACCESS_KEY_HEADER,
    ACCESS_SIGNATURE_HEADER, ACCESS_TIMESTAMP_HEADER, MAX_SIGNATURE_BYTES,
};
use rsa::pkcs1::{EncodeRsaPrivateKey, LineEnding};
use rsa::pkcs1v15::{Signature, SigningKey, VerifyingKey};
use rsa::signature::{SignatureEncoding, Signer, Verifier};
use rsa::{BigUint, RsaPrivateKey};
use sha2::Sha256;

const P: &str = "12922846473573028513419764958628917928007219344888908758281986750904963986894918397422288709926016745252182901301527403451840966231445334665493924541451537";
const Q: &str = "10822064828256577171229512125234754321623188885036097250259021841195604447138871059133642828779016666498004822181838829994791000937120512658428490380503957";
const D: &str = "76375768184275527064128291507633231835684507662330047539089656388018021278853495250495717589808583852666117279375019113862176904308131516383546584416050024925957940475140933330965644653613251286084515462115812290758623625905595257984296050708692899199061695119504520086754333676158850058208974861012137952961";

/// The signature of `1700000000000GET/markets/X/orderbook?depth=5` under
/// the test key, computed by hand: SHA-256, DigestInfo, type-1 padding and
/// one modular exponentiation.
const KNOWN_SIGNATURE: &str = "wm0sABirjC9eMB7VCyObD9CgvCsaoYj/PPrh1gNqPIItKyojqU/pvzLz0vna160SwNbn7iY3m2IXjrChJTtEdQn891B+UTuwMbpIy5Uxt67qvHAJcwahX5mTB4Ee6dlHMZfbiGx5AN3SQNldaBVHB1WXLS2pDVD2cnbuz5UwgVk=";

fn number(digits: &str) -> BigUint {
    BigUint::parse_bytes(digits.as_bytes(), 10).unwrap()
}

fn test_key() -> RsaPrivateKey {
    let p = number(P);
    let q = number(Q);
    let n = &p * &q;
    RsaPrivateKey::from_components(n, BigUint::from(65537u32), number(D), vec![p, q]).unwrap()
}

fn test_pem() -> String {
    test_key().to_pkcs1_pem(LineEnding::LF).unwrap().to_string()
}

#[test]
fn what_is_signed_is_timestamp_method_path() {
    assert_eq!(
        signing_message(1700000000000, "GET", "/markets/X/orderbook?depth=5"),
        "1700000000000GET/markets/X/orderbook?depth=5"
    );
    assert_eq!(signing_message(0, "POST", "/portfolio/orders"), "0POST/portfolio/orders");
    assert_eq!(signing_message(u64::MAX, "DELETE", "/x"), "18446744073709551615DELETE/x");
    assert_eq!(signing_message(7, "", ""), "7");
}

#[test]
fn signature_is_base64_of_pkcs1v15_sha256() {
    let auth = KalshiAuth::new(&test_pem(), "key-id".to_string()).unwrap();
    let signature = auth.sign(1700000000000, "GET", "/markets/X/orderbook?depth=5").unwrap();
    assert_eq!(signature, KNOWN_SIGNATURE);

    let message = b"1700000000000GET/markets/X/orderbook?depth=5";
    let direct = SigningKey::<Sha256>::new(test_key()).sign(message);
    assert_eq!(signature, STANDARD.encode(direct.to_bytes()));

    let raw = STANDARD.decode(&signature).unwrap();
    assert_eq!(raw.len(), 128);
    let verifying = VerifyingKey::<Sha256>::new(test_key().to_public_key());
    let parsed = Signature::try_from(raw.as_slice()).unwrap();
    assert!(verifying.verify(message, &parsed).is_ok());
    assert!(verifying.verify(b"1700000000001GET/markets/X/orderbook?depth=5", &parsed).is_err());
}

#[test]
fn signature_depends_on_every_part() {
    let auth = KalshiAuth::new(&test_pem(), "key-id".to_string()).unwrap();
    let base = auth.sign(1700000000000, "GET", "/series").unwrap();
    assert_eq!(base, auth.sign(1700000000000, "GET", "/series").unwrap());
    assert_ne!(base, auth.sign(1700000000001, "GET", "/series").unwrap());
    assert_ne!(base, auth.sign(1700000000000, "POST", "/series").unwrap());
    assert_ne!(base, auth.sign(1700000000000, "GET", "/series?cursor=a").unwrap());
}

#[test]
fn a_text_that_is_no_key_is_refused() {
    assert_eq!(KalshiAuth::new("", "id".to_string()).err(), Some(AuthError::InvalidKey));
    assert_eq!(
        KalshiAuth::new("not a key at all", "id".to_string()).err(),
        Some(AuthError::InvalidKey)
    );
    let pem = test_pem();
    let cut = &pem[..pem.len() / 2];
    assert_eq!(KalshiAuth::new(cut, "id".to_string()).err(), Some(AuthError::InvalidKey));
    assert!(KalshiAuth::new(&pem, "id".to_string()).is_ok());
}

#[test]
fn headers_carry_key_time_and_signature() {
    let auth = KalshiAuth::new(&test_pem(), "key-id".to_string()).unwrap();
    let headers = auth
        .headers_at(1700000000000, "GET", "/markets/X/orderbook?depth=5")
        .unwrap();
    assert_eq!(
        headers,
        vec![
            ("KALSHI-ACCESS-KEY".to_string(), "key-id".to_string()),
            ("KALSHI-ACCESS-TIMESTAMP".to_string(), "1700000000000".to_string()),
            ("KALSHI-ACCESS-SIGNATURE".to_string(), KNOWN_SIGNATURE.to_string()),
        ]
    );
    assert_eq!(ACCESS_KEY_HEADER, "KALSHI-ACCESS-KEY");
    assert_eq!(ACCESS_TIMESTAMP_HEADER, "KALSHI-ACCESS-TIMESTAMP");
    assert_eq!(ACCESS_SIGNATURE_HEADER, "KALSHI-ACCESS-SIGNATURE");
}

#[test]
fn headers_of_now_are_signed_for_their_own_time() {
    let auth = KalshiAuth::new(&test_pem(), "key-id".to_string()).unwrap();
    let before = KalshiAuth::timestamp_ms();
    let headers = auth.headers("DELETE", "/portfolio/orders/o1").unwrap();
    let after = KalshiAuth::timestamp_ms();
    assert_eq!(headers.len(), 3);
    assert_eq!(headers[0], ("KALSHI-ACCESS-KEY".to_string(), "key-id".to_string()));
    assert_eq!(headers[1].0, "KALSHI-ACCESS-TIMESTAMP");
    let ts: u64 = headers[1].1.parse().unwrap();
    assert!(before <= ts && ts <= after);
    // Milliseconds, not seconds: later than the year 2020.
    assert!(ts > 1_577_836_800_000);
    assert_eq!(headers[2].0, "KALSHI-ACCESS-SIGNATURE");
    assert_eq!(headers[2].1, auth.sign(ts, "DELETE", "/portfolio/orders/o1").unwrap());
}

#[test]
fn headers_are_laid_out_from_their_parts() {
    let headers = auth_headers("abc", 42, "c2ln".to_string());
    assert_eq!(
        headers,
        vec![
            ("KALSHI-ACCESS-KEY".to_string(), "abc".to_string()),
            ("KALSHI-ACCESS-TIMESTAMP".to_string(), "42".to_string()),
            ("KALSHI-ACCESS-SIGNATURE".to_string(), "c2ln".to_string()),
        ]
    );
}

#[test]
fn signatures_are_encoded_in_standard_base64_with_padding() {
    assert_eq!(encode_signature(b""), "");
    assert_eq!(encode_signature(b"f"), "Zg==");
    assert_eq!(encode_signature(b"fo"), "Zm8=");
    assert_eq!(encode_signature(b"foo"), "Zm9v");
    assert_eq!(encode_signature(b"foobar"), "Zm9vYmFy");
    assert_eq!(encode_signature(&[0xfb, 0xff]), "+/8=");
    assert_eq!(MAX_SIGNATURE_BYTES, 65_536);
}

#[test]
fn a_key_too_short_for_the_digest_gives_no_signature() {
    // A 128-bit modulus cannot hold the 51 bytes of a padded SHA-256 digest.
    let p = BigUint::from(18446744073709551557u64);
    let q = BigUint::from(18446744073709551533u64);
    let n = &p * &q;
    let e = BigUint::from(65537u32);
    let one = BigUint::from(1u32);
    let phi = (&p - &one) * (&q - &one);
    let d = mod_inverse(&e, &phi);
    let key = RsaPrivateKey::from_components(n, e, d, vec![p, q]).unwrap();
    let pem = key.to_pkcs1_pem(LineEnding::LF).unwrap().to_string();
    let auth = KalshiAuth::new(&pem, "id".to_string()).unwrap();
    assert_eq!(auth.sign(1, "GET", "/series"), Err(AuthError::SigningFailed));
    assert_eq!(auth.headers_at(1, "GET", "/series"), Err(AuthError::SigningFailed));
    assert_eq!(auth.headers("GET", "/series"), Err(AuthError::SigningFailed));
}

/// The inverse of `a` modulo `m` by the extended Euclidean algorithm,
/// tracked modulo `m` so that nothing goes negative.
fn mod_inverse(a: &BigUint, m: &BigUint) -> BigUint {
    let zero = BigUint::from(0u32);
    let (mut old_r, mut r) = (a.clone(), m.clone());
    let (mut old_s, mut s) = (BigUint::from(1u32), zero.clone());
    while r != zero {
        let quotient = &old_r / &r;
        let next_r = &old_r - &quotient * &r;
        let product = (&quotient * &s) % m;
        let next_s = (&old_s + m - product) % m;
        old_r = r;
        r = next_r;
        old_s = s;
        s = next_s;
    }
    old_s
}
