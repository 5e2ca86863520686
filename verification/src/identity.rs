//! Identity codec: decodes a device's self-reported identifier into its
//! raw Ed25519 verification key.
//!
//! A device identity is a base-36 string (digits and lower-case letters)
//! that must decode to exactly 32 bytes forming a valid point for the
//! signature scheme. Malformed identities are a hard decode failure, never
//! silently accepted.

use vstd::prelude::*;

use crate::errors::DecodeError;

verus! {

/// What `base36::decode` returns for a given string: the bytes of the
/// base-36 number it spells, or nothing when a character falls outside the
/// alphabet.
pub uninterp spec fn base36_decoding(s: Seq<char>) -> Option<Seq<u8>>;

/// Whether a character belongs to the base-36 alphabet: the decimal digits
/// and the lower-case letters.
pub open spec fn is_base36_char(c: char) -> bool {
    ('0' <= c && c <= '9') || ('a' <= c && c <= 'z')
}

/// Relies on base36::decode: decodes a base-36 string to bytes, succeeding
/// exactly when every character of the string is a decimal digit or a
/// lower-case letter.
#[verifier::external_body]
fn base36_decode(s: &str) -> (r: Option<Vec<u8>>)
    ensures
        r.deep_view() == base36_decoding(s@),
        r is Some <==> (forall|i: int| 0 <= i < s@.len() ==> is_base36_char(s@[i])),
{
    match base36::decode(s) {
        Ok(v) => Some(v),
        Err(_) => None,
    }
}

/// Whether 32 bytes form a valid verification key for the signature scheme,
/// as `ed25519_dalek::VerifyingKey::from_bytes` decides it.
pub uninterp spec fn valid_verifying_key(b: Seq<u8>) -> bool;

/// Relies on ed25519_dalek::VerifyingKey::from_bytes: whether the given
/// 32 bytes decompress to a valid point of the signature scheme.
#[verifier::external_body]
pub(crate) fn key_well_formed(bytes: &[u8]) -> (r: bool)
    requires
        bytes@.len() == 32,
    ensures
        r == valid_verifying_key(bytes@),
{
    match <&[u8; 32]>::try_from(bytes) {
        Ok(arr) => ed25519_dalek::VerifyingKey::from_bytes(arr).is_ok(),
        Err(_) => false,
    }
}

/// A decoded device verification key: exactly 32 bytes forming a valid
/// point for the signature scheme.
pub struct PublicKey {
    bytes: Vec<u8>,
}

impl PublicKey {
    #[verifier::type_invariant]
    spec fn wf(self) -> bool {
        self.bytes@.len() == 32 && valid_verifying_key(self.bytes@)
    }
}

impl View for PublicKey {
    type V = Seq<u8>;

    closed spec fn view(&self) -> Seq<u8> {
        self.bytes@
    }
}

impl PublicKey {
    /// The raw key bytes, as a borrowed slice.
    pub fn as_bytes(&self) -> (r: &[u8])
        ensures
            r@ == self@,
            self@.len() == 32,
            valid_verifying_key(self@),
    {
        proof {
            use_type_invariant(self);
        }
        self.bytes.as_slice()
    }

    /// A copy of the raw key bytes.
    pub fn to_bytes(&self) -> (r: Vec<u8>)
        ensures
            r@ == self@,
            self@.len() == 32,
            valid_verifying_key(self@),
    {
        proof {
            use_type_invariant(self);
        }
        let mut r: Vec<u8> = Vec::new();
        let n = self.bytes.len();
        for i in 0..n
            invariant
                n == self.bytes@.len(),
                r@ =~= self.bytes@.take(i as int),
        {
            r.push(self.bytes[i]);
            proof {
                assert(self.bytes@.take(i + 1) =~= self.bytes@.take(i as int).push(
                    self.bytes@[i as int],
                ));
            }
        }
        proof {
            assert(self.bytes@.take(n as int) =~= self.bytes@);
        }
        r
    }
}

/// What decoding a device identity yields: the 32 key bytes, or the exact
/// failure. Decoding fails on a character outside the base-36 alphabet, on
/// a decoded width other than 32 bytes, and on bytes that are not a valid
/// point for the signature scheme.
pub open spec fn spec_decode_pubkey(s: Seq<char>) -> Result<Seq<u8>, DecodeError> {
    match base36_decoding(s) {
        None => Err(DecodeError::InvalidEncoding),
        Some(b) => if b.len() != 32 {
            Err(DecodeError::WrongKeyLength)
        } else if !valid_verifying_key(b) {
            Err(DecodeError::InvalidKeyPoint)
        } else {
            Ok(b)
        },
    }
}

/// Decode a device identity string into its verification key.
///
/// Succeeds exactly on identities that spell a 32-byte valid verification
/// key in base-36; any other string is rejected with the matching
/// [`DecodeError`], never accepted and never truncated.
pub fn decode_pubkey(holoport_id: &str) -> (r: Result<PublicKey, DecodeError>)
    ensures
        match r {
            Ok(k) => spec_decode_pubkey(holoport_id@) matches Ok(b) && k@ == b,
            Err(e) => spec_decode_pubkey(holoport_id@) matches Err(e2) && e == e2,
        },
        (exists|i: int|
            0 <= i < holoport_id@.len() && !is_base36_char(holoport_id@[i])) ==> r matches Err(
            DecodeError::InvalidEncoding,
        ),
{
    match base36_decode(holoport_id) {
        None => Err(DecodeError::InvalidEncoding),
        Some(bytes) => {
            proof {
                assert(bytes.deep_view() =~= bytes@);
            }
            if bytes.len() != 32 {
                Err(DecodeError::WrongKeyLength)
            } else if !key_well_formed(bytes.as_slice()) {
                Err(DecodeError::InvalidKeyPoint)
            } else {
                Ok(PublicKey { bytes })
            }
        },
    }
}

} // verus!
