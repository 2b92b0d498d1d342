use hmac::Mac;
use hookbot::signature::{authenticate, parse_signature_header, verify, SignatureError};

fn tag_hex(secret: &[u8], body: &[u8]) -> String {
    let mut mac = hmac::Hmac::<sha2::Sha256>::new_from_slice(secret).unwrap();
    mac.update(body);
    hex::encode(mac.finalize().into_bytes())
}

fn header(secret: &[u8], body: &[u8]) -> Vec<u8> {
    format!("sha256={}", tag_hex(secret, body)).into_bytes()
}

#[test]
fn verify_accepts_the_published_test_vector() {
    let key = b"Jefe";
    let data = b"what do ya want for nothing?";
    let tag = b"5bdcc146bf60754e6a042426089575c75a003f089d2739839dec58b964ec3843";
    assert!(verify(key, data, tag));
}

#[test]
fn verify_accepts_upper_case_hex() {
    let key = b"Jefe";
    let data = b"what do ya want for nothing?";
    let tag = b"5BDCC146BF60754E6A042426089575C75A003F089D2739839DEC58B964EC3843";
    assert!(verify(key, data, tag));
}

#[test]
fn verify_rejects_a_flipped_bit_in_the_body() {
    let secret = b"shared secret";
    let body = b"{\"action\":\"created\"}".to_vec();
    let tag = tag_hex(secret, &body);
    assert!(verify(secret, &body, tag.as_bytes()));
    for i in 0..body.len() {
        for bit in 0..8 {
            let mut other = body.clone();
            other[i] ^= 1 << bit;
            assert!(!verify(secret, &other, tag.as_bytes()));
        }
    }
}

#[test]
fn verify_rejects_a_flipped_bit_in_the_tag() {
    let secret = b"shared secret";
    let body = b"payload";
    let mut mac = hmac::Hmac::<sha2::Sha256>::new_from_slice(secret).unwrap();
    mac.update(body);
    let tag = mac.finalize().into_bytes().to_vec();
    for i in 0..tag.len() {
        for bit in 0..8 {
            let mut other = tag.clone();
            other[i] ^= 1 << bit;
            assert!(!verify(secret, body, hex::encode(&other).as_bytes()));
        }
    }
    assert!(verify(secret, body, hex::encode(&tag).as_bytes()));
}

#[test]
fn verify_rejects_another_secret() {
    let body = b"payload";
    let tag = tag_hex(b"one", body);
    assert!(!verify(b"two", body, tag.as_bytes()));
}

#[test]
fn verify_rejects_text_that_is_not_hex() {
    assert!(!verify(b"k", b"m", b"zz"));
    assert!(!verify(b"k", b"m", b"abc"));
    assert!(!verify(b"k", b"m", b""));
}

#[test]
fn verify_rejects_a_truncated_tag() {
    let tag = tag_hex(b"k", b"m");
    assert!(!verify(b"k", b"m", tag[..62].as_bytes()));
}

#[test]
fn header_yields_the_decoded_tag() {
    assert_eq!(parse_signature_header(Some(b"sha256=00ff1aA1")), Ok(vec![0x00, 0xff, 0x1a, 0xa1]));
    assert_eq!(parse_signature_header(Some(b"sha256=")), Ok(vec![]));
}

#[test]
fn header_errors_name_their_cause() {
    assert_eq!(parse_signature_header(None), Err(SignatureError::MissingHeader));
    assert_eq!(parse_signature_header(Some(b"")), Err(SignatureError::InvalidFormat));
    assert_eq!(parse_signature_header(Some(b"sha1=00")), Err(SignatureError::InvalidFormat));
    assert_eq!(parse_signature_header(Some(b"SHA256=00")), Err(SignatureError::InvalidFormat));
    assert_eq!(parse_signature_header(Some(b"sha256=0")), Err(SignatureError::InvalidHex));
    assert_eq!(parse_signature_header(Some(b"sha256=0g")), Err(SignatureError::InvalidHex));
    assert_eq!(parse_signature_header(Some(b"sha256= 00")), Err(SignatureError::InvalidHex));
}

#[test]
fn header_with_a_byte_that_is_not_visible_counts_as_empty() {
    assert_eq!(parse_signature_header(Some(b"sha256=00\x01")), Err(SignatureError::InvalidFormat));
    assert_eq!(parse_signature_header(Some(b"sha256=00\xff")), Err(SignatureError::InvalidFormat));
    assert_eq!(parse_signature_header(Some(b"sha256=0\t")), Err(SignatureError::InvalidHex));
}

#[test]
fn authenticate_accepts_a_signed_delivery() {
    let secret = b"It's a Secret to Everybody";
    let body = b"Hello, World!";
    assert_eq!(authenticate(secret, body, Some(&header(secret, body))), Ok(()));
    let known = b"sha256=5bdcc146bf60754e6a042426089575c75a003f089d2739839dec58b964ec3843";
    assert_eq!(authenticate(b"Jefe", b"what do ya want for nothing?", Some(known)), Ok(()));
}

#[test]
fn authenticate_fails_closed() {
    let secret = b"secret";
    let body = b"body";
    assert_eq!(authenticate(secret, body, None), Err(SignatureError::MissingHeader));
    assert_eq!(authenticate(secret, body, Some(b"nonsense")), Err(SignatureError::InvalidFormat));
    assert_eq!(authenticate(secret, body, Some(b"sha256=xyz")), Err(SignatureError::InvalidHex));
    assert_eq!(authenticate(secret, body, Some(&header(b"other", body))), Err(SignatureError::Mismatch));
    assert_eq!(authenticate(secret, b"tampered", Some(&header(secret, body))), Err(SignatureError::Mismatch));
    assert_eq!(authenticate(secret, body, Some(b"sha256=")), Err(SignatureError::Mismatch));
}

#[test]
fn signature_errors_map_to_status_and_message() {
    assert_eq!(SignatureError::MissingHeader.status(), 401);
    assert_eq!(SignatureError::InvalidFormat.status(), 400);
    assert_eq!(SignatureError::InvalidHex.status(), 400);
    assert_eq!(SignatureError::Mismatch.status(), 401);
    assert_eq!(SignatureError::MissingHeader.message(), "missing X-Hub-Signature-256 header");
    assert_eq!(SignatureError::InvalidFormat.message(), "invalid signature format");
    assert_eq!(SignatureError::InvalidHex.message(), "invalid signature hex");
    assert_eq!(SignatureError::Mismatch.message(), "invalid webhook signature");
}
