//! Request authentication: building the signed payload from the two
//! required headers and the raw body, and checking an Ed25519 signature
//! against the verification key that the process was configured with.

use vstd::prelude::*;

use crate::hexcode::{
    all_hex_digits, hex_decode, lemma_hex_round_trip, spec_hex_decode, spec_hex_encode,
};
use vstd::string::StringSliceAdditionalSpecFns;

verus! {

/// Why an inbound request could not be authenticated before the signature
/// was even checked.
#[derive(Debug, PartialEq, Eq, Structural, Clone, Copy)]
pub enum AuthError {
    /// A required header is absent.
    MissingHeader,
    /// A required header is present but its bytes are not valid text.
    HeaderEncodingError,
}

/// Why a configured verification key could not be accepted at startup.
#[derive(Debug, PartialEq, Eq, Structural, Clone, Copy)]
pub enum KeyError {
    /// The configured value is not a hexadecimal string.
    NotHex,
    /// The decoded value is not exactly 32 bytes long.
    WrongLength,
    /// The 32 bytes are not a valid Ed25519 public key.
    NotAKey,
}

/// One required header of the inbound request, as the transport layer saw
/// it: absent, present but not decodable as text, or its text as bytes.
pub enum HeaderField {
    Missing,
    NotText,
    Text(Vec<u8>),
}

/// What `prepare` hands back on success: the exact byte sequence that was
/// signed, and the hex-encoded signature copied from the header.
#[derive(Debug)]
pub struct Prepared {
    pub payload: Vec<u8>,
    pub signature: Vec<u8>,
}

/// Whether the 32 given bytes are a valid Ed25519 public key; decided by
/// the signature crate, so left uninterpreted here.
pub uninterp spec fn is_ed25519_key(bytes: Seq<u8>) -> bool;

/// Whether strict Ed25519 verification of `payload` against `key` accepts
/// `sig` (32 key bytes, 64 signature bytes); decided by the signature
/// crate, so left uninterpreted here.
pub uninterp spec fn ed25519_accepts(key: Seq<u8>, payload: Seq<u8>, sig: Seq<u8>) -> bool;

/// Relies on ed25519_dalek::VerifyingKey::from_bytes: whether the 32 bytes
/// decompress to a curve point depends on the bytes alone.
#[verifier::external_body]
fn ed25519_key_check(bytes: &[u8]) -> (r: bool)
    requires
        bytes@.len() == 32,
    ensures
        r == is_ed25519_key(bytes@),
{
    let arr: [u8; 32] = match bytes.try_into() {
        Ok(a) => a,
        Err(_) => return false,
    };
    ed25519_dalek::VerifyingKey::from_bytes(&arr).is_ok()
}

/// Relies on ed25519_dalek::VerifyingKey::verify_strict: deterministic
/// strict Ed25519 verification of a payload against a key and a 64-byte
/// signature, rejecting small-order components.
#[verifier::external_body]
fn ed25519_verify(key: &[u8], payload: &[u8], sig: &[u8]) -> (r: bool)
    requires
        key@.len() == 32,
        is_ed25519_key(key@),
        sig@.len() == 64,
    ensures
        r == ed25519_accepts(key@, payload@, sig@),
{
    let key_arr: [u8; 32] = match key.try_into() {
        Ok(a) => a,
        Err(_) => return false,
    };
    let sig_arr: [u8; 64] = match sig.try_into() {
        Ok(a) => a,
        Err(_) => return false,
    };
    let vk = match ed25519_dalek::VerifyingKey::from_bytes(&key_arr) {
        Ok(k) => k,
        Err(_) => return false,
    };
    let signature = ed25519_dalek::Signature::from_bytes(&sig_arr);
    vk.verify_strict(payload, &signature).is_ok()
}

/// Append `src` to `dst`.
fn append_bytes(dst: &mut Vec<u8>, src: &[u8])
    ensures
        final(dst)@ == old(dst)@ + src@,
{
    let n = src.len();
    let mut i: usize = 0;
    proof {
        assert(dst@ =~= old(dst)@ + src@.take(0));
    }
    while i < n
        invariant
            n == src@.len(),
            i <= n,
            dst@ == old(dst)@ + src@.take(i as int),
        decreases n - i,
    {
        dst.push(src[i]);
        i = i + 1;
        proof {
            assert(dst@ =~= old(dst)@ + src@.take(i as int));
        }
    }
    proof {
        assert(src@.take(n as int) =~= src@);
    }
}

/// Extract the signature and timestamp headers and build the signed
/// payload: the timestamp bytes followed by the raw body bytes, exactly,
/// with no separator. A request with either required header absent fails
/// with `MissingHeader`, whatever the other header holds; only when both
/// are present can a header that is not decodable as text fail with
/// `HeaderEncodingError`.
pub fn prepare(signature: HeaderField, timestamp: HeaderField, raw_body: &[u8]) -> (r: Result<
    Prepared,
    AuthError,
>)
    ensures
        signature is Missing || timestamp is Missing ==> r == Err::<Prepared, AuthError>(
            AuthError::MissingHeader,
        ),
        !(signature is Missing) && !(timestamp is Missing) && (signature is NotText
            || timestamp is NotText) ==> r == Err::<Prepared, AuthError>(
            AuthError::HeaderEncodingError,
        ),
        signature matches HeaderField::Text(s) ==> timestamp matches HeaderField::Text(t)
            ==> r matches Ok(p) && p.payload@ == t@ + raw_body@ && p.signature@ == s@,
{
    let (sig, ts) = match (signature, timestamp) {
        (HeaderField::Missing, _) => {
            return Err(AuthError::MissingHeader);
        },
        (_, HeaderField::Missing) => {
            return Err(AuthError::MissingHeader);
        },
        (HeaderField::NotText, _) => {
            return Err(AuthError::HeaderEncodingError);
        },
        (_, HeaderField::NotText) => {
            return Err(AuthError::HeaderEncodingError);
        },
        (HeaderField::Text(s), HeaderField::Text(t)) => (s, t),
    };
    let mut payload = ts;
    append_bytes(&mut payload, raw_body);
    Ok(Prepared { payload, signature: sig })
}

/// Everything `verify` demands of a hex-encoded signature over a payload:
/// the header text is well-formed hexadecimal for exactly 64 bytes, and
/// strict Ed25519 verification accepts those bytes as a signature of the
/// payload under `key`.
pub open spec fn signature_accepted(key: Seq<u8>, payload: Seq<u8>, sig_hex: Seq<u8>) -> bool {
    &&& sig_hex.len() % 2 == 0
    &&& all_hex_digits(sig_hex)
    &&& spec_hex_decode(sig_hex).len() == 64
    &&& ed25519_accepts(key, payload, spec_hex_decode(sig_hex))
}

/// Holds the verification key loaded once at startup and checks request
/// signatures against it.
#[derive(Debug)]
pub struct PingVerifier {
    key: Vec<u8>,
}

impl PingVerifier {
    #[verifier::type_invariant]
    spec fn wf(self) -> bool {
        self.key@.len() == 32 && is_ed25519_key(self.key@)
    }

    /// The 32 bytes of the verification key.
    pub closed spec fn key_bytes(self) -> Seq<u8> {
        self.key@
    }

    /// Build a verifier from the hex-encoded public key the process was
    /// configured with. Startup must treat every error as fatal.
    pub fn new(hex_key: &str) -> (r: Result<PingVerifier, KeyError>)
        ensures
            r is Ok <==> {
                &&& hex_key.spec_bytes().len() % 2 == 0
                &&& all_hex_digits(hex_key.spec_bytes())
                &&& spec_hex_decode(hex_key.spec_bytes()).len() == 32
                &&& is_ed25519_key(spec_hex_decode(hex_key.spec_bytes()))
            },
            r matches Ok(v) ==> v.key_bytes() == spec_hex_decode(hex_key.spec_bytes()),
            r matches Err(e) ==> e == (if !(hex_key.spec_bytes().len() % 2 == 0
                && all_hex_digits(hex_key.spec_bytes())) {
                KeyError::NotHex
            } else if spec_hex_decode(hex_key.spec_bytes()).len() != 32 {
                KeyError::WrongLength
            } else {
                KeyError::NotAKey
            }),
    {
        let bytes = hex_key.as_bytes();
        let decoded = match hex_decode(bytes) {
            Some(v) => v,
            None => {
                return Err(KeyError::NotHex);
            },
        };
        if decoded.len() != 32 {
            return Err(KeyError::WrongLength);
        }
        if !ed25519_key_check(decoded.as_slice()) {
            return Err(KeyError::NotAKey);
        }
        Ok(PingVerifier { key: decoded })
    }

    /// Check a hex-encoded signature against the stored key: decode the
    /// signature, refuse anything but exactly 64 bytes, then strictly
    /// verify the payload. Returns `false` on every failure and never
    /// panics.
    pub fn verify(&self, payload: &[u8], signature: &[u8]) -> (r: bool)
        ensures
            r == signature_accepted(self.key_bytes(), payload@, signature@),
    {
        proof {
            use_type_invariant(&*self);
        }
        let sig_bytes = match hex_decode(signature) {
            Some(v) => v,
            None => {
                return false;
            },
        };
        if sig_bytes.len() != 64 {
            return false;
        }
        ed25519_verify(self.key.as_slice(), payload, sig_bytes.as_slice())
    }
}

/// A correctly signed request passes `verify`: if Ed25519 accepts `sig`
/// over the payload that `prepare` builds from a timestamp and a raw body,
/// then the hex encoding of `sig` satisfies everything `verify` checks.
pub proof fn lemma_accepted_signature_verifies(
    key: Seq<u8>,
    timestamp: Seq<u8>,
    body: Seq<u8>,
    sig: Seq<u8>,
)
    requires
        sig.len() == 64,
        ed25519_accepts(key, timestamp + body, sig),
    ensures
        signature_accepted(key, timestamp + body, spec_hex_encode(sig)),
{
    lemma_hex_round_trip(sig);
}

} // verus!
