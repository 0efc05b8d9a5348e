//! The message authenticator: an HMAC-SHA256 tag, hex encoded, over the
//! URL-encoded query `error=<text>` that carries a message across a redirect.
use vstd::prelude::*;

verus! {

/// The HMAC-SHA256 of `msg` under `key`.
pub uninterp spec fn hmac_sha256_of(key: Seq<u8>, msg: Seq<u8>) -> Seq<u8>;

/// The percent-encoding of `text`: every byte of its UTF-8 form other than
/// ASCII letters, digits and `-`, `_`, `.`, `~` becomes `%XX`.
pub uninterp spec fn url_encoded(text: Seq<char>) -> Seq<char>;

/// Relies on hmac_sha256::HMAC::mac: the 32-byte HMAC-SHA256 of the input
/// under the key, for a key of any length.
#[verifier::external_body]
fn hmac_sha256(key: &[u8], msg: &[u8]) -> (r: Vec<u8>)
    ensures
        r@ == hmac_sha256_of(key@, msg@),
        r@.len() == 32,
{
    hmac_sha256::HMAC::mac(msg, key).to_vec()
}

/// Relies on urlencoding::encode: the percent-encoded form of the text.
#[verifier::external_body]
fn url_encode(text: &str) -> (r: String)
    ensures
        r@ == url_encoded(text@),
{
    urlencoding::encode(text).into_owned()
}

#[verifier::external_type_specification]
#[verifier::external_body]
pub struct ExFromHexError(hex::FromHexError);

/// Relies on hex::encode: two lower-case hex digits per byte, high nibble first.
#[verifier::external_body]
fn hex_encode(bytes: &[u8]) -> (r: String)
    ensures
        r@ == hex_text(bytes@),
{
    hex::encode(bytes)
}

/// Relies on hex::decode: an error on an odd number of bytes or on any byte
/// that is not a hex digit of either case, else the bytes that the digit
/// pairs spell, high nibble first.
#[verifier::external_body]
fn hex_decode(text: &str) -> (r: Result<Vec<u8>, hex::FromHexError>)
    ensures
        match r {
            Ok(v) => hex_bytes(text@) == Some(v@),
            Err(_) => hex_bytes(text@) is None,
        },
{
    hex::decode(text)
}

/// Relies on constant_time_eq::constant_time_eq: true exactly when the two
/// slices have the same length and the same bytes, in time that does not
/// depend on where they first differ.
pub assume_specification[ constant_time_eq::constant_time_eq ](a: &[u8], b: &[u8]) -> (r: bool)
    ensures
        r == (a@ == b@),
;

/// The lower-case hex digit of a value below 16.
pub open spec fn hex_digit(n: u8) -> char {
    match n {
        0 => '0',
        1 => '1',
        2 => '2',
        3 => '3',
        4 => '4',
        5 => '5',
        6 => '6',
        7 => '7',
        8 => '8',
        9 => '9',
        10 => 'a',
        11 => 'b',
        12 => 'c',
        13 => 'd',
        14 => 'e',
        _ => 'f',
    }
}

/// The value of a hex digit of either case.
pub open spec fn hex_value(c: char) -> Option<u8> {
    match c {
        '0' => Some(0u8),
        '1' => Some(1u8),
        '2' => Some(2u8),
        '3' => Some(3u8),
        '4' => Some(4u8),
        '5' => Some(5u8),
        '6' => Some(6u8),
        '7' => Some(7u8),
        '8' => Some(8u8),
        '9' => Some(9u8),
        'a' | 'A' => Some(10u8),
        'b' | 'B' => Some(11u8),
        'c' | 'C' => Some(12u8),
        'd' | 'D' => Some(13u8),
        'e' | 'E' => Some(14u8),
        'f' | 'F' => Some(15u8),
        _ => None,
    }
}

/// Lower-case hex text of `bytes`.
pub open spec fn hex_text(bytes: Seq<u8>) -> Seq<char> {
    Seq::new(
        2 * bytes.len(),
        |i: int|
            if i % 2 == 0 {
                hex_digit(bytes[i / 2] / 16)
            } else {
                hex_digit(bytes[i / 2] % 16)
            },
    )
}

/// The bytes that hex text spells, or `None` for text of odd length or with a
/// character that is not a hex digit.
pub open spec fn hex_bytes(text: Seq<char>) -> Option<Seq<u8>> {
    if text.len() % 2 == 0 && forall|i: int| 0 <= i < text.len() ==> (#[trigger] hex_value(text[i])) is Some {
        Some(
            Seq::new(
                text.len() / 2,
                |j: int|
                    (hex_value(text[2 * j])->0 * 16 + hex_value(text[2 * j + 1])->0) as u8,
            ),
        )
    } else {
        None
    }
}

/// Hex text reads back as the bytes it was written from.
pub proof fn lemma_hex_round_trip(bytes: Seq<u8>)
    ensures
        hex_bytes(hex_text(bytes)) == Some(bytes),
{
    let text = hex_text(bytes);
    assert forall|i: int| 0 <= i < text.len() implies (#[trigger] hex_value(text[i])) is Some by {
        let b = bytes[i / 2];
        assert(b / 16 < 16 && b % 16 < 16);
    }
    let back = hex_bytes(text)->0;
    assert forall|j: int| 0 <= j < bytes.len() implies back[j] == bytes[j] by {
        let b = bytes[j];
        assert((2 * j) / 2 == j && (2 * j + 1) / 2 == j);
        assert((2 * j) % 2 == 0 && (2 * j + 1) % 2 == 1);
        assert(hex_value(hex_digit(b / 16)) == Some(b / 16));
        assert(hex_value(hex_digit(b % 16)) == Some(b % 16));
        assert((b / 16) * 16 + b % 16 == b);
    }
    assert(back =~= bytes);
}

/// The key that tags are made with: loaded once at startup, never changed.
pub struct SigningKey {
    bytes: Vec<u8>,
}

impl SigningKey {
    /// The key bytes.
    pub closed spec fn view(&self) -> Seq<u8> {
        self.bytes@
    }

    /// Takes the key bytes from configuration.
    pub fn new(bytes: Vec<u8>) -> (r: SigningKey)
        ensures
            r@ == bytes@,
    {
        SigningKey { bytes }
    }
}

/// The query text that a tag covers: `error=` and the URL-encoded payload.
pub open spec fn canonical_query(payload: Seq<char>) -> Seq<char> {
    "error="@ + url_encoded(payload)
}

/// The raw HMAC of a payload.
pub open spec fn mac_of(key: Seq<u8>, payload: Seq<char>) -> Seq<u8> {
    hmac_sha256_of(key, vstd::utf8::encode_utf8(canonical_query(payload)))
}

/// The hex tag of a payload.
pub open spec fn tag_of(key: Seq<u8>, payload: Seq<char>) -> Seq<char> {
    hex_text(mac_of(key, payload))
}

/// Why a tag was not accepted.
#[derive(Debug, Clone, Copy, PartialEq, Eq, Structural)]
pub enum SignatureError {
    /// The tag is not hex text.
    MalformedTag,
    /// The tag has the wrong length or the wrong bytes.
    Mismatch,
}

/// The outcome of checking `tag` for `payload`.
pub open spec fn verify_outcome(key: Seq<u8>, payload: Seq<char>, tag: Seq<char>) -> Result<
    (),
    SignatureError,
> {
    match hex_bytes(tag) {
        None => Err(SignatureError::MalformedTag),
        Some(b) => if b == mac_of(key, payload) {
            Ok(())
        } else {
            Err(SignatureError::Mismatch)
        },
    }
}

/// Builds `error=<url-encoded payload>`.
pub fn query_for(payload: &str) -> (r: String)
    ensures
        r@ == canonical_query(payload@),
{
    let encoded = url_encode(payload);
    let prefix = "error=";
    proof {
        reveal_strlit("error=");
    }
    let mut query = String::from_str(prefix);
    query.append(encoded.as_str());
    query
}

/// The HMAC of the canonical query of `payload`.
fn compute_mac(payload: &str, key: &SigningKey) -> (r: Vec<u8>)
    ensures
        r@ == mac_of(key@, payload@),
{
    let query = query_for(payload);
    hmac_sha256(key.bytes.as_slice(), query.as_str().as_bytes())
}

/// Signs `payload`: the hex HMAC-SHA256 of its canonical query.
pub fn sign(payload: &str, key: &SigningKey) -> (r: String)
    ensures
        r@ == tag_of(key@, payload@),
{
    let mac = compute_mac(payload, key);
    hex_encode(mac.as_slice())
}

/// Checks a tag that arrived with `payload`, comparing in constant time.
/// Whatever the client sent, this fails rather than panics.
pub fn verify(payload: &str, tag: &str, key: &SigningKey) -> (r: Result<(), SignatureError>)
    ensures
        r == verify_outcome(key@, payload@, tag@),
{
    let supplied = match hex_decode(tag) {
        Ok(bytes) => bytes,
        Err(_) => {
            return Err(SignatureError::MalformedTag);
        },
    };
    let expected = compute_mac(payload, key);
    if constant_time_eq::constant_time_eq(supplied.as_slice(), expected.as_slice()) {
        Ok(())
    } else {
        Err(SignatureError::Mismatch)
    }
}

/// A tag made by `sign` is accepted by `verify` for the same payload and key,
/// whatever the payload (empty, or holding characters reserved in URLs).
pub proof fn lemma_sign_then_verify(key: Seq<u8>, payload: Seq<char>)
    ensures
        verify_outcome(key, payload, tag_of(key, payload)) == Ok::<(), SignatureError>(()),
{
    lemma_hex_round_trip(mac_of(key, payload));
}

/// Flipping any one bit of a tag's bytes makes `verify` refuse it.
pub proof fn lemma_flipped_tag_bit_rejected(key: Seq<u8>, payload: Seq<char>, index: int, bit: u8)
    requires
        0 <= index < mac_of(key, payload).len(),
        bit < 8,
    ensures
        verify_outcome(
            key,
            payload,
            hex_text(
                mac_of(key, payload).update(
                    index,
                    mac_of(key, payload)[index] ^ (1u8 << bit),
                ),
            ),
        ) == Err::<(), SignatureError>(SignatureError::Mismatch),
{
    let mac = mac_of(key, payload);
    let b = mac[index];
    let flipped = mac.update(index, b ^ (1u8 << bit));
    assert(b ^ (1u8 << bit) != b) by (bit_vector)
        requires
            bit < 8,
    ;
    lemma_hex_round_trip(flipped);
    assert(flipped[index] != mac[index]);
}

} // verus!
