//! Authentication of inbound requests: an Ed25519 signature over the
//! timestamp header followed by the body, checked against a hex-encoded
//! public key.
use vstd::prelude::*;
use vstd::string::StringSliceAdditionalSpecFns;
use ed25519_dalek::Verifier;

verus! {

/// Bytes in an Ed25519 public key.
pub const PUBLIC_KEY_LENGTH: usize = 32;

/// Bytes in an Ed25519 signature.
pub const SIGNATURE_LENGTH: usize = 64;

/// The value of one hexadecimal digit (either case), if `c` is one.
pub open spec fn hex_digit(c: u8) -> Option<u8> {
    if 48 <= c <= 57 {
        Some((c - 48) as u8)
    } else if 97 <= c <= 102 {
        Some((c - 87) as u8)
    } else if 65 <= c <= 70 {
        Some((c - 55) as u8)
    } else {
        None
    }
}

/// `s` is a hexadecimal text: an even number of hexadecimal digits.
pub open spec fn is_hex(s: Seq<u8>) -> bool {
    s.len() % 2 == 0 && forall|i: int| 0 <= i < s.len() ==> (#[trigger] hex_digit(s[i])) is Some
}

/// The bytes that the hexadecimal text `s` spells, two digits each, high
/// digit first.
pub open spec fn hex_bytes(s: Seq<u8>) -> Seq<u8> {
    Seq::new(
        (s.len() / 2) as nat,
        |i: int| (hex_digit(s[2 * i]).unwrap() * 16 + hex_digit(s[2 * i + 1]).unwrap()) as u8,
    )
}

/// Whether Ed25519 accepts `signature` as a signature of `message` under
/// `public_key` (32 and 64 bytes). A key that is not a valid curve point,
/// or a signature that is not well formed, is not accepted.
pub uninterp spec fn ed25519_accepts(public_key: Seq<u8>, message: Seq<u8>, signature: Seq<u8>) -> bool;

/// Relies on hex::decode: it fails on an odd length or a byte that is not
/// a hexadecimal digit, and otherwise turns each pair of digits into one
/// byte, high digit first.
#[verifier::external_body]
fn decode_hex(s: &[u8]) -> (r: Option<Vec<u8>>)
    ensures
        r is Some == is_hex(s@),
        r is Some ==> r->0@ == hex_bytes(s@),
{
    hex::decode(s).ok()
}

/// Relies on ed25519_dalek::PublicKey::from_bytes, ed25519::Signature::from_bytes
/// and PublicKey::verify: the outcome is a function of the three byte strings.
#[verifier::external_body]
fn ed25519_verify(public_key: &[u8], message: &[u8], signature: &[u8]) -> (r: bool)
    requires
        public_key@.len() == PUBLIC_KEY_LENGTH,
        signature@.len() == SIGNATURE_LENGTH,
    ensures
        r == ed25519_accepts(public_key@, message@, signature@),
{
    match (ed25519_dalek::PublicKey::from_bytes(public_key), ed25519_dalek::Signature::from_bytes(signature)) {
        (Ok(key), Ok(sig)) => key.verify(message, &sig).is_ok(),
        _ => false,
    }
}

/// Why a request could not be checked at all (as opposed to failing the check).
#[derive(PartialEq, Eq, Structural, Debug, Clone, Copy)]
pub enum SignatureError {
    /// The configured public key is not hexadecimal text.
    PublicKeyHex,
    /// The signature header is not hexadecimal text.
    SignatureHex,
    /// The configured public key does not decode to exactly 32 bytes.
    PublicKeyLength,
}

/// The outcome of checking a request with the given signature header,
/// timestamp header (as bytes), body and hex-encoded public key.
/// A missing header fails the check; malformed hex is an error; a key that
/// does not decode to 32 bytes is an error; a signature that does not decode
/// to 64 bytes fails the check.
pub open spec fn check_outcome(
    signature: Option<Seq<u8>>,
    timestamp: Option<Seq<u8>>,
    body: Seq<u8>,
    public_key: Seq<u8>,
) -> Result<bool, SignatureError> {
    if signature is None || timestamp is None {
        Ok(false)
    } else if !is_hex(public_key) {
        Err(SignatureError::PublicKeyHex)
    } else if !is_hex(signature->0) {
        Err(SignatureError::SignatureHex)
    } else if hex_bytes(public_key).len() != PUBLIC_KEY_LENGTH {
        Err(SignatureError::PublicKeyLength)
    } else if hex_bytes(signature->0).len() != SIGNATURE_LENGTH {
        Ok(false)
    } else {
        Ok(ed25519_accepts(hex_bytes(public_key), timestamp->0 + body, hex_bytes(signature->0)))
    }
}

/// The bytes of a header value, if present.
pub open spec fn header_bytes(h: Option<&str>) -> Option<Seq<u8>> {
    match h {
        Some(s) => Some(s.spec_bytes()),
        None => None,
    }
}

fn concat_bytes(a: &[u8], b: &[u8]) -> (r: Vec<u8>)
    ensures
        r@ == a@ + b@,
{
    let mut r: Vec<u8> = Vec::new();
    let mut i: usize = 0;
    while i < a.len()
        invariant
            i <= a@.len(),
            r@ == a@.subrange(0, i as int),
        decreases a@.len() - i,
    {
        r.push(a[i]);
        i = i + 1;
        assert(r@ =~= a@.subrange(0, i as int));
    }
    let mut j: usize = 0;
    while j < b.len()
        invariant
            i == a@.len(),
            j <= b@.len(),
            r@ == a@ + b@.subrange(0, j as int),
        decreases b@.len() - j,
    {
        r.push(b[j]);
        j = j + 1;
        assert(r@ =~= a@ + b@.subrange(0, j as int));
    }
    assert(a@ =~= a@.subrange(0, i as int));
    assert(b@ =~= b@.subrange(0, j as int));
    r
}

/// Checks that `body` was signed, together with the `timestamp` header that
/// precedes it, by the holder of `public_key` (hex). `signature` is the hex
/// signature header. A missing header fails the check without any decoding
/// or cryptographic work.
pub fn validate_headers(
    signature: Option<&str>,
    timestamp: Option<&str>,
    body: &[u8],
    public_key: &str,
) -> (r: Result<bool, SignatureError>)
    ensures
        r == check_outcome(header_bytes(signature), header_bytes(timestamp), body@, public_key.spec_bytes()),
{
    let (sig, ts) = match (signature, timestamp) {
        (Some(s), Some(t)) => (s, t),
        _ => {
            return Ok(false);
        },
    };
    let key_bytes = match decode_hex(public_key.as_bytes()) {
        Some(k) => k,
        None => {
            return Err(SignatureError::PublicKeyHex);
        },
    };
    let sig_bytes = match decode_hex(sig.as_bytes()) {
        Some(s) => s,
        None => {
            return Err(SignatureError::SignatureHex);
        },
    };
    if key_bytes.len() != PUBLIC_KEY_LENGTH {
        return Err(SignatureError::PublicKeyLength);
    }
    if sig_bytes.len() != SIGNATURE_LENGTH {
        return Ok(false);
    }
    let message = concat_bytes(ts.as_bytes(), body);
    Ok(ed25519_verify(key_bytes.as_slice(), message.as_slice(), sig_bytes.as_slice()))
}

/// A request without a signature header or without a timestamp header
/// fails the check, whatever its body and the key.
pub proof fn lemma_missing_header_fails(
    signature: Option<Seq<u8>>,
    timestamp: Option<Seq<u8>>,
    body: Seq<u8>,
    public_key: Seq<u8>,
)
    requires
        signature is None || timestamp is None,
    ensures
        check_outcome(signature, timestamp, body, public_key) == Ok::<bool, SignatureError>(false),
{
}

/// With a well-formed key and a 64-byte signature, the check succeeds
/// exactly when Ed25519 accepts the signature over the timestamp followed
/// by the body.
pub proof fn lemma_check_is_signature_over_timestamp_and_body(
    signature: Seq<u8>,
    timestamp: Seq<u8>,
    body: Seq<u8>,
    public_key: Seq<u8>,
)
    requires
        is_hex(public_key),
        is_hex(signature),
        hex_bytes(public_key).len() == PUBLIC_KEY_LENGTH,
        hex_bytes(signature).len() == SIGNATURE_LENGTH,
    ensures
        check_outcome(Some(signature), Some(timestamp), body, public_key)
            == Ok::<bool, SignatureError>(ed25519_accepts(hex_bytes(public_key), timestamp + body, hex_bytes(signature))),
{
}

} // verus!
