use vstd::prelude::*;

verus! {

/// The ASCII code of the lowercase hex digit for `n`, which is below 16.
pub open spec fn hex_digit(n: u8) -> u8 {
    if n < 10 {
        (48 + n) as u8
    } else {
        (87 + n) as u8
    }
}

/// Two lowercase hex digits for each byte, high nibble first, as ASCII.
pub open spec fn hex_lower(bytes: Seq<u8>) -> Seq<u8>
    decreases bytes.len(),
{
    if bytes.len() == 0 {
        Seq::empty()
    } else {
        let b = bytes.last();
        hex_lower(bytes.drop_last()) + seq![hex_digit(b / 16), hex_digit(b % 16)]
    }
}

/// The HMAC-SHA256 tag of `message` under `key`.
pub uninterp spec fn hmac_sha256(key: Seq<u8>, message: Seq<u8>) -> Seq<u8>;

/// The text `sha256=` in ASCII.
pub open spec fn signature_prefix() -> Seq<u8> {
    seq![115u8, 104u8, 97u8, 50u8, 53u8, 54u8, 61u8]
}

/// The signature header value that a digest stands for: `sha256=` and the
/// digest in lowercase hex.
pub open spec fn signature_text(digest: Seq<u8>) -> Seq<u8> {
    signature_prefix() + hex_lower(digest)
}

/// The signature header value that a sender holding `secret` gives `body`.
pub open spec fn expected_signature(secret: Seq<u8>, body: Seq<u8>) -> Seq<u8> {
    signature_text(hmac_sha256(secret, body))
}

/// What becomes of a request after the signature check.
#[derive(Clone, Copy, Debug, PartialEq, Eq, Structural)]
pub enum Verification {
    /// No secret is configured: the request goes on unauthenticated.
    Skipped,
    /// The signature matches the body under the configured secret.
    Authenticated,
    /// The signature is absent or does not match.
    Rejected,
}

/// The outcome of checking the signature header `header` of `body` when
/// `secret` is the configured secret.
pub open spec fn verification_of(secret: Option<Seq<u8>>, header: Option<Seq<u8>>, body: Seq<u8>) -> Verification {
    match secret {
        None => Verification::Skipped,
        Some(s) => match header {
            Some(h) if h == expected_signature(s, body) => Verification::Authenticated,
            _ => Verification::Rejected,
        },
    }
}

/// Relies on `hex::encode`: two lowercase hex digits per byte, high nibble first.
#[verifier::external_body]
fn hex_encode(bytes: &[u8]) -> (r: Vec<u8>)
    ensures
        r@ == hex_lower(bytes@),
{
    hex::encode(bytes).into_bytes()
}

/// Relies on `hmac::Hmac<sha2::Sha256>`: `new_from_slice` takes a key of any
/// length, and `finalize` gives the 32-byte tag of what `update` was fed.
#[verifier::external_body]
fn hmac_sha256_tag(key: &[u8], message: &[u8]) -> (r: Option<Vec<u8>>)
    ensures
        r is Some,
        r matches Some(tag) ==> tag@ == hmac_sha256(key@, message@),
{
    match <hmac::Hmac<sha2::Sha256> as hmac::Mac>::new_from_slice(key) {
        Ok(mut mac) => {
            hmac::Mac::update(&mut mac, message);
            Some(hmac::Mac::finalize(mac).into_bytes().to_vec())
        },
        Err(_) => None,
    }
}

/// Compares two byte strings in time that depends on their lengths alone.
pub fn constant_time_eq(a: &[u8], b: &[u8]) -> (r: bool)
    ensures
        r == (a@ == b@),
{
    if a.len() != b.len() {
        return false;
    }
    let mut diff: u8 = 0;
    let mut i: usize = 0;
    assert(a@.subrange(0, 0) =~= b@.subrange(0, 0));
    while i < a.len()
        invariant
            i <= a@.len(),
            a@.len() == b@.len(),
            diff == 0 <==> a@.subrange(0, i as int) == b@.subrange(0, i as int),
        decreases a@.len() - i,
    {
        let x = a[i];
        let y = b[i];
        let next = diff | (x ^ y);
        assert(next == 0 <==> (diff == 0 && x == y)) by (bit_vector)
            requires
                next == diff | (x ^ y),
        ;
        proof {
            let (sa, sb) = (a@.subrange(0, i as int), b@.subrange(0, i as int));
            assert(a@.subrange(0, i + 1) =~= sa.push(x));
            assert(b@.subrange(0, i + 1) =~= sb.push(y));
            if sa.push(x) == sb.push(y) {
                assert(sa =~= sa.push(x).drop_last());
                assert(sb =~= sb.push(y).drop_last());
                assert(x == sa.push(x).last());
            }
        }
        diff = next;
        i = i + 1;
    }
    assert(a@.subrange(0, a@.len() as int) =~= a@);
    assert(b@.subrange(0, b@.len() as int) =~= b@);
    diff == 0
}

/// The signature header value for a digest: `sha256=` and the digest in
/// lowercase hex, as ASCII bytes.
pub fn signature_for(digest: &[u8]) -> (r: Vec<u8>)
    ensures
        r@ == signature_text(digest@),
{
    let mut text: Vec<u8> = vec![115u8, 104u8, 97u8, 50u8, 53u8, 54u8, 61u8];
    let mut hex = hex_encode(digest);
    text.append(&mut hex);
    assert(text@ =~= signature_text(digest@));
    text
}

/// Whether a signature header value matches a digest, compared in constant time.
pub fn signature_matches(digest: &[u8], header: &[u8]) -> (r: bool)
    ensures
        r == (header@ == signature_text(digest@)),
{
    let expected = signature_for(digest);
    constant_time_eq(header, expected.as_slice())
}

/// Checks the signature header of a raw body against the configured secret.
///
/// With no secret the check is skipped and the request goes on
/// unauthenticated. With one, the header must equal `sha256=` followed by the
/// lowercase hex HMAC-SHA256 of the body under the secret; an absent header
/// is a mismatch.
pub fn verify_signature(body: &[u8], header: Option<&[u8]>, secret: Option<&[u8]>) -> (r: Verification)
    ensures
        r == verification_of(
            match secret {
                Some(s) => Some(s@),
                None => None,
            },
            match header {
                Some(h) => Some(h@),
                None => None,
            },
            body@,
        ),
{
    match secret {
        None => Verification::Skipped,
        Some(key) => match header {
            None => Verification::Rejected,
            Some(h) => match hmac_sha256_tag(key, body) {
                Some(digest) => if signature_matches(digest.as_slice(), h) {
                    Verification::Authenticated
                } else {
                    Verification::Rejected
                },
                None => Verification::Rejected,
            },
        },
    }
}

/// A body signed with the configured secret is authenticated.
pub proof fn lemma_signed_body_authenticated(secret: Seq<u8>, body: Seq<u8>)
    ensures
        verification_of(Some(secret), Some(expected_signature(secret, body)), body)
            == Verification::Authenticated,
{
}

/// Changing any one byte of a correct signature gets the request rejected.
pub proof fn lemma_altered_signature_rejected(secret: Seq<u8>, body: Seq<u8>, i: int, b: u8)
    requires
        0 <= i < expected_signature(secret, body).len(),
        b != expected_signature(secret, body)[i],
    ensures
        verification_of(Some(secret), Some(expected_signature(secret, body).update(i, b)), body)
            == Verification::Rejected,
{
    assert(expected_signature(secret, body).update(i, b)[i] != expected_signature(secret, body)[i]);
}

/// Without a configured secret every request goes on, whatever its signature.
pub proof fn lemma_no_secret_skips(header: Option<Seq<u8>>, body: Seq<u8>)
    ensures
        verification_of(None, header, body) == Verification::Skipped,
{
}

} // verus!
