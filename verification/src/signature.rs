//! Authentication of an inbound webhook request: the signature header must
//! carry, after a `sha256=` prefix, the lowercase hexadecimal HMAC-SHA256 of
//! the exact raw request body under the shared secret.

use vstd::prelude::*;

use crate::hexstr::{hex_of, hex_encode, lemma_hex_of_injective};

verus! {

/// The HMAC-SHA256 digest of a message under a key; determined by the two
/// byte strings alone.
pub uninterp spec fn hmac_sha256_of(key: Seq<u8>, msg: Seq<u8>) -> Seq<u8>;

/// Relies on hmac::Hmac<sha2::Sha256>: the digest is a function of key and
/// message alone and is 32 bytes long; a key of any length is accepted.
#[verifier::external_body]
fn hmac_sha256(key: &Vec<u8>, msg: &Vec<u8>) -> (r: Vec<u8>)
    ensures
        r@ == hmac_sha256_of(key@, msg@),
        r@.len() == 32,
{
    let mut mac = <hmac::Hmac<sha2::Sha256> as hmac::Mac>::new_from_slice(key.as_slice())
        .expect("an HMAC key of any length is accepted");
    hmac::Mac::update(&mut mac, msg.as_slice());
    hmac::Mac::finalize(mac).into_bytes().to_vec()
}

/// The signature header of a request, as the HTTP layer found it.
pub enum SignatureHeader {
    /// No signature header was present.
    Missing,
    /// A header was present but its bytes were not readable as text.
    NotText,
    /// The header's text.
    Text(String),
}

/// Why a request was rejected.
pub enum AuthError {
    /// No signature header: the request is unauthorized.
    MissingSignature,
    /// The header's bytes are not readable as text.
    InvalidEncoding,
    /// The header lacks the `sha256=` prefix.
    InvalidFormat,
    /// The request body could not be read at all.
    Internal,
    /// The digest does not match: the request is unauthorized.
    SignatureMismatch,
}

impl AuthError {
    /// The HTTP status code that reports this rejection.
    pub open spec fn status_code_spec(self) -> u16 {
        match self {
            AuthError::MissingSignature => 401,
            AuthError::InvalidEncoding => 400,
            AuthError::InvalidFormat => 400,
            AuthError::Internal => 500,
            AuthError::SignatureMismatch => 401,
        }
    }

    pub fn status_code(&self) -> (code: u16)
        ensures
            code == self.status_code_spec(),
    {
        match self {
            AuthError::MissingSignature => 401,
            AuthError::InvalidEncoding => 400,
            AuthError::InvalidFormat => 400,
            AuthError::Internal => 500,
            AuthError::SignatureMismatch => 401,
        }
    }
}

/// The exact header text that authenticates a body under a secret.
pub open spec fn expected_header(secret: Seq<u8>, body: Seq<u8>) -> Seq<char> {
    "sha256="@ + hex_of(hmac_sha256_of(secret, body))
}

/// What verification decides, for every body, secret and header.
pub open spec fn verify_spec(body: Seq<u8>, secret: Seq<u8>, header: SignatureHeader) -> Result<
    (),
    AuthError,
> {
    match header {
        SignatureHeader::Missing => Err(AuthError::MissingSignature),
        SignatureHeader::NotText => Err(AuthError::InvalidEncoding),
        SignatureHeader::Text(s) => if !(s@.len() >= 7 && s@.subrange(0, 7) == "sha256="@) {
            Err(AuthError::InvalidFormat)
        } else if s@.subrange(7, s@.len() as int) == hex_of(hmac_sha256_of(secret, body)) {
            Ok(())
        } else {
            Err(AuthError::SignatureMismatch)
        },
    }
}

/// Whether two texts are equal, compared without an early exit on the first
/// differing character, so that the time taken does not depend on where a
/// forged digest diverges from the real one.
fn constant_time_eq(a: &str, b: &str) -> (r: bool)
    ensures
        r == (a@ == b@),
{
    let a_len = a.unicode_len();
    let b_len = b.unicode_len();
    if a_len != b_len {
        return false;
    }
    let mut acc: u32 = 0;
    let mut i: usize = 0;
    while i < a_len
        invariant
            i <= a_len,
            a_len == a@.len(),
            a_len == b@.len(),
            (acc == 0) <==> (forall|j: int| 0 <= j < i ==> a@[j] == b@[j]),
        decreases a_len - i,
    {
        let ca = a.get_char(i);
        let cb = b.get_char(i);
        let ua: u32 = ca as u32;
        let ub: u32 = cb as u32;
        let x = ua ^ ub;
        proof {
            assert(ua == ub ==> ca == cb);
            assert(x == 0 <==> ua == ub) by (bit_vector)
                requires
                    x == ua ^ ub,
            ;
        }
        let next = acc | x;
        proof {
            assert(next == 0 <==> (acc == 0 && x == 0)) by (bit_vector)
                requires
                    next == acc | x,
            ;
        }
        acc = next;
        i = i + 1;
    }
    if acc == 0 {
        proof {
            assert(a@ =~= b@);
        }
        true
    } else {
        false
    }
}

/// Decide whether the raw body was signed with the secret: the header must be
/// present, readable text of the form `sha256=<hex>`, and `<hex>` must be the
/// lowercase hexadecimal HMAC-SHA256 of the body under the secret.
pub fn verify_signature(body: &Vec<u8>, secret: &Vec<u8>, header: &SignatureHeader) -> (r: Result<
    (),
    AuthError,
>)
    ensures
        r == verify_spec(body@, secret@, *header),
{
    match header {
        SignatureHeader::Missing => Err(AuthError::MissingSignature),
        SignatureHeader::NotText => Err(AuthError::InvalidEncoding),
        SignatureHeader::Text(s) => {
            let st: &str = s.as_str();
            let n = st.unicode_len();
            if n < 7 {
                return Err(AuthError::InvalidFormat);
            }
            let prefix = st.substring_char(0, 7);
            let expected_prefix: &str = "sha256=";
            if !constant_time_eq(prefix, expected_prefix) {
                return Err(AuthError::InvalidFormat);
            }
            let given = st.substring_char(7, n);
            let digest = hmac_sha256(secret, body);
            let computed = hex_encode(&digest);
            if constant_time_eq(given, computed.as_str()) {
                Ok(())
            } else {
                Err(AuthError::SignatureMismatch)
            }
        },
    }
}

/// Law: a header carrying the digest of the exact body under the right secret
/// is accepted.
pub proof fn lemma_correct_signature_accepted(body: Seq<u8>, secret: Seq<u8>, header: String)
    requires
        header@ == expected_header(secret, body),
    ensures
        verify_spec(body, secret, SignatureHeader::Text(header)) is Ok,
{
    reveal_strlit("sha256=");
    let hx = hex_of(hmac_sha256_of(secret, body));
    assert(header@.subrange(0, 7) =~= "sha256="@);
    assert(header@.subrange(7, header@.len() as int) =~= hx);
}

/// Law: a header computed over one body rejects every other body whose digest
/// differs; a digest collision between the two bodies is the one case these
/// contracts leave open.
pub proof fn lemma_wrong_body_rejected(
    body: Seq<u8>,
    signed_body: Seq<u8>,
    secret: Seq<u8>,
    header: String,
)
    requires
        header@ == expected_header(secret, signed_body),
        hmac_sha256_of(secret, body) != hmac_sha256_of(secret, signed_body),
    ensures
        verify_spec(body, secret, SignatureHeader::Text(header)) == Err::<(), AuthError>(
            AuthError::SignatureMismatch,
        ),
{
    reveal_strlit("sha256=");
    let signed_hx = hex_of(hmac_sha256_of(secret, signed_body));
    let body_hx = hex_of(hmac_sha256_of(secret, body));
    assert(header@.subrange(0, 7) =~= "sha256="@);
    assert(header@.subrange(7, header@.len() as int) =~= signed_hx);
    if signed_hx == body_hx {
        lemma_hex_of_injective(hmac_sha256_of(secret, body), hmac_sha256_of(secret, signed_body));
    }
}

} // verus!
