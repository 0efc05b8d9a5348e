use zero2prod::signing::{query_for, sign, verify, SignatureError, SigningKey};

fn key() -> SigningKey {
    SigningKey::new(b"super-secret-signing-key".to_vec())
}

#[test]
fn sign_then_verify_round_trips() {
    let k = key();
    for payload in ["", "Authentication failed", "a&b=c?d#e/f%g+h i", "héllo wörld"] {
        let tag = sign(payload, &k);
        assert_eq!(tag.len(), 64);
        assert_eq!(verify(payload, &tag, &k), Ok(()));
    }
}

#[test]
fn tag_is_hmac_of_encoded_query() {
    let k = key();
    let expected = hex::encode(hmac_sha256::HMAC::mac(b"error=a%20b%26c", b"super-secret-signing-key"));
    assert_eq!(sign("a b&c", &k), expected);
    assert_eq!(query_for("a b&c"), "error=a%20b%26c");
}

#[test]
fn flipped_tag_bit_is_rejected() {
    let k = key();
    let tag = sign("Authentication failed", &k);
    let bytes = hex::decode(&tag).unwrap();
    for i in [0usize, 13, 31] {
        for bit in 0..8u8 {
            let mut flipped = bytes.clone();
            flipped[i] ^= 1 << bit;
            let t = hex::encode(&flipped);
            assert_eq!(verify("Authentication failed", &t, &k), Err(SignatureError::Mismatch));
        }
    }
}

#[test]
fn changed_payload_is_rejected() {
    let k = key();
    let tag = sign("Authentication failed", &k);
    assert_eq!(verify("Authentication failez", &tag, &k), Err(SignatureError::Mismatch));
    assert_eq!(verify("authentication failed", &tag, &k), Err(SignatureError::Mismatch));
    assert_eq!(verify("", &tag, &k), Err(SignatureError::Mismatch));
}

#[test]
fn other_key_is_rejected() {
    let tag = sign("msg", &key());
    let other = SigningKey::new(b"another key".to_vec());
    assert_eq!(verify("msg", &tag, &other), Err(SignatureError::Mismatch));
}

#[test]
fn malformed_tags_are_rejected() {
    let k = key();
    assert_eq!(verify("x", "zz", &k), Err(SignatureError::MalformedTag));
    assert_eq!(verify("x", "abc", &k), Err(SignatureError::MalformedTag));
    assert_eq!(verify("x", "é", &k), Err(SignatureError::MalformedTag));
    assert_eq!(verify("x", "", &k), Err(SignatureError::Mismatch));
    let tag = sign("x", &k);
    assert_eq!(verify("x", &tag[..62], &k), Err(SignatureError::Mismatch));
}

#[test]
fn upper_case_tag_is_accepted() {
    let k = key();
    let tag = sign("x", &k).to_uppercase();
    assert_eq!(verify("x", &tag, &k), Ok(()));
}
