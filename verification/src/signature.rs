//! Signature gate: verifies that a submitted report was signed by the
//! private key matching the device's self-reported identity.
//!
//! Verification is strict (malleable or weak signature encodings are
//! rejected) and runs over the exact byte sequence the device transmitted,
//! before any structural decoding of the report, so that logically equal
//! but differently encoded payloads cannot share a signature.

use vstd::prelude::*;

use crate::errors::{ApiError, Error400, Error401};
use crate::identity::{decode_pubkey, spec_decode_pubkey, valid_verifying_key, PublicKey};

verus! {

/// What `base64::decode` returns for a given string: the decoded bytes, or
/// nothing when the string is not well-formed padded base64.
pub uninterp spec fn base64_decoding(s: Seq<char>) -> Option<Seq<u8>>;

/// Relies on base64::decode (standard alphabet, padded): decodes a base64
/// string to bytes, failing exactly on malformed input.
#[verifier::external_body]
#[allow(deprecated)]
fn base64_decode(s: &str) -> (r: Option<Vec<u8>>)
    ensures
        r.deep_view() == base64_decoding(s@),
{
    match base64::decode(s) {
        Ok(v) => Some(v),
        Err(_) => None,
    }
}

/// Whether the signature scheme accepts `signature` as a strict signature
/// by the key `key` over `message`; a pure function of the three byte
/// sequences, as `ed25519_dalek::VerifyingKey::verify_strict` decides it.
pub uninterp spec fn signature_verifies(
    key: Seq<u8>,
    message: Seq<u8>,
    signature: Seq<u8>,
) -> bool;

/// Relies on ed25519_dalek::VerifyingKey::verify_strict: strict
/// verification of an Ed25519 signature over the exact message bytes. The
/// byte arguments are converted through VerifyingKey::from_bytes and
/// Signature::from_bytes.
#[verifier::external_body]
fn verify_strict_raw(key: &[u8], message: &[u8], signature: &[u8]) -> (r: bool)
    requires
        key@.len() == 32,
        valid_verifying_key(key@),
        signature@.len() == 64,
    ensures
        r == signature_verifies(key@, message@, signature@),
{
    let key_arr: &[u8; 32] = match key.try_into() {
        Ok(a) => a,
        Err(_) => return false,
    };
    let vk = match ed25519_dalek::VerifyingKey::from_bytes(key_arr) {
        Ok(k) => k,
        Err(_) => return false,
    };
    let sig_arr: &[u8; 64] = match signature.try_into() {
        Ok(a) => a,
        Err(_) => return false,
    };
    let sig = ed25519_dalek::Signature::from_bytes(sig_arr);
    vk.verify_strict(message, &sig).is_ok()
}

/// Verify a report's signature against a decoded verification key.
///
/// Returns true exactly when the signature is 64 bytes wide and the scheme
/// accepts it over the report bytes; it is a pure check with no other
/// outcome.
pub fn verify(report: &[u8], signature: &[u8], key: &PublicKey) -> (r: bool)
    ensures
        r == (signature@.len() == 64 && signature_verifies(key@, report@, signature@)),
{
    if signature.len() != 64 {
        return false;
    }
    verify_strict_raw(key.as_bytes(), report, signature)
}

/// Whether an ingestion submission authenticates: the signature header
/// decodes to a 64-byte signature, the self-reported identity decodes to a
/// verification key, and that key signed exactly the payload bytes.
pub open spec fn spec_authenticates(
    payload: Seq<u8>,
    signature_b64: Seq<char>,
    holoport_id: Seq<char>,
) -> bool {
    &&& base64_decoding(signature_b64) matches Some(sig)
    &&& base64_decoding(signature_b64)->Some_0.len() == 64
    &&& spec_decode_pubkey(holoport_id) matches Ok(key)
    &&& signature_verifies(
        spec_decode_pubkey(holoport_id)->Ok_0,
        payload,
        base64_decoding(signature_b64)->Some_0,
    )
}

/// Authenticate one inbound report submission: the exact payload bytes, the
/// base64 signature sent out-of-band, and the device's self-reported
/// identity. Returns the decoded verification key on success, and the exact
/// rejection otherwise:
///
/// - a signature that is not well-formed base64, or not 64 bytes wide, is a
///   malformed-signature rejection;
/// - an identity that does not decode to a verification key is a
///   malformed-payload rejection;
/// - a signature the scheme refuses over these bytes is an
///   unauthenticated-key rejection.
pub fn authenticate_stats(payload: &Vec<u8>, signature_b64: &str, holoport_id: &str) -> (r: Result<
    PublicKey,
    ApiError,
>)
    ensures
        r is Ok <==> spec_authenticates(payload@, signature_b64@, holoport_id@),
        r matches Ok(k) ==> spec_decode_pubkey(holoport_id@) matches Ok(b) && k@ == b,
        base64_decoding(signature_b64@) is None ==> (r matches Err(ApiError::InvalidSignature(
            Error401::Message(m),
        )) && m@ == malformed_signature_msg()),
        (base64_decoding(signature_b64@) matches Some(sig) && sig.len() != 64) ==> (r matches Err(
            ApiError::InvalidSignature(Error401::Message(m)),
        ) && m@ == malformed_signature_msg()),
        (base64_decoding(signature_b64@) matches Some(sig) && sig.len() == 64
            && spec_decode_pubkey(holoport_id@) is Err) ==> (r matches Err(ApiError::InvalidPayload(
            Error400::Message(m),
        )) && m@ == undecodable_identity_msg()),
        (base64_decoding(signature_b64@) matches Some(sig) && sig.len() == 64
            && spec_decode_pubkey(holoport_id@) is Ok && !signature_verifies(
            spec_decode_pubkey(holoport_id@)->Ok_0,
            payload@,
            sig,
        )) ==> (r matches Err(ApiError::InvalidSignature(Error401::Message(m))) && m@
            == rejected_signature_msg()),
{
    let decoded_sig = match base64_decode(signature_b64) {
        Some(ds) => ds,
        None => {
            return Err(
                ApiError::InvalidSignature(
                    Error401::Message(
                        "Provided signature to `hosts/stats` does not have the expected encoding.",
                    ),
                ),
            );
        },
    };
    proof {
        assert(decoded_sig.deep_view() =~= decoded_sig@);
    }
    if decoded_sig.len() != 64 {
        return Err(
            ApiError::InvalidSignature(
                Error401::Message(
                    "Provided signature to `hosts/stats` does not have the expected encoding.",
                ),
            ),
        );
    }
    let key = match decode_pubkey(holoport_id) {
        Ok(k) => k,
        Err(_) => {
            return Err(
                ApiError::InvalidPayload(
                    Error400::Message(
                        "Provided host's holoport_id cannot be decoded into a public key.",
                    ),
                ),
            );
        },
    };
    if verify(payload.as_slice(), decoded_sig.as_slice(), &key) {
        Ok(key)
    } else {
        Err(
            ApiError::InvalidSignature(
                Error401::Message(
                    "Provided host signature does not match signature of signed payload.",
                ),
            ),
        )
    }
}

/// The rejection text for a signature that is not well-formed base64 or
/// not 64 bytes wide.
pub open spec fn malformed_signature_msg() -> Seq<char> {
    "Provided signature to `hosts/stats` does not have the expected encoding."@
}

/// The rejection text for an identity that does not decode to a key.
pub open spec fn undecodable_identity_msg() -> Seq<char> {
    "Provided host's holoport_id cannot be decoded into a public key."@
}

/// The rejection text for a signature the scheme refuses.
pub open spec fn rejected_signature_msg() -> Seq<char> {
    "Provided host signature does not match signature of signed payload."@
}

} // verus!
