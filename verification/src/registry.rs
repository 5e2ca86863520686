//! Registration directory: the authoritative membership check.
//!
//! An enrollment binds a device to one or more `(role, public key)` pairs.
//! A report is attributable to a registered device exactly when its key
//! occurs in some enrollment record. Absence of a match rejects the
//! *report* (an explicit missing-record rejection), not the query.

use vstd::prelude::*;

use crate::errors::{ApiError, Error404};
use crate::types::HostRegistration;
use crate::types::RegistrationCode;

verus! {

/// Whether one enrollment code lists `key` among its authorized keys.
pub open spec fn spec_code_has_key(rc: RegistrationCode, key: Seq<char>) -> bool {
    exists|k: int| 0 <= k < rc.agent_pub_keys@.len() && rc.agent_pub_keys@[k].pub_key@ == key
}

/// Whether one enrollment record authorizes `key` under any of its codes.
pub open spec fn spec_registration_has_key(hr: HostRegistration, key: Seq<char>) -> bool {
    exists|j: int|
        0 <= j < hr.registration_code@.len() && spec_code_has_key(
            #[trigger] hr.registration_code@[j],
            key,
        )
}

/// Whether any enrollment record of the directory authorizes `key`.
pub open spec fn spec_key_registered(regs: Seq<HostRegistration>, key: Seq<char>) -> bool {
    exists|i: int| 0 <= i < regs.len() && spec_registration_has_key(#[trigger] regs[i], key)
}

/// The rejection text for a key no enrollment record authorizes.
pub open spec fn no_host_msg(key: Seq<char>) -> Seq<char> {
    "No host found with provided public key. "@ + key
}

/// Determine whether the provided host public key exists within any
/// registration record. Succeeds exactly when some record authorizes the
/// key; otherwise the report is rejected with a missing-record error that
/// names the key.
pub fn verify_host(pub_key: &String, registrations: &Vec<HostRegistration>) -> (r: Result<
    (),
    ApiError,
>)
    ensures
        r is Ok <==> spec_key_registered(registrations@, pub_key@),
        r matches Err(e) ==> (e matches ApiError::MissingRecord(Error404::Info(m)) && m@
            == no_host_msg(pub_key@)),
{
    let n = registrations.len();
    for i in 0..n
        invariant
            n == registrations@.len(),
            forall|x: int|
                0 <= x < i ==> !spec_registration_has_key(#[trigger] registrations@[x], pub_key@),
    {
        if registration_has_key(&registrations[i], pub_key) {
            proof {
                assert(spec_key_registered(registrations@, pub_key@));
            }
            return Ok(());
        }
    }
    let mut message = String::from_str("No host found with provided public key. ");
    message.append(pub_key.as_str());
    Err(ApiError::MissingRecord(Error404::Info(message)))
}

/// Whether one enrollment record authorizes the key under any of its codes.
fn registration_has_key(hr: &HostRegistration, pub_key: &String) -> (r: bool)
    ensures
        r == spec_registration_has_key(*hr, pub_key@),
{
    let n = hr.registration_code.len();
    for j in 0..n
        invariant
            n == hr.registration_code@.len(),
            forall|x: int|
                0 <= x < j ==> !spec_code_has_key(#[trigger] hr.registration_code@[x], pub_key@),
    {
        if code_has_key(&hr.registration_code[j], pub_key) {
            return true;
        }
    }
    false
}

/// Whether one enrollment code lists the key.
fn code_has_key(rc: &RegistrationCode, pub_key: &String) -> (r: bool)
    ensures
        r == spec_code_has_key(*rc, pub_key@),
{
    let n = rc.agent_pub_keys.len();
    for k in 0..n
        invariant
            n == rc.agent_pub_keys@.len(),
            forall|x: int| 0 <= x < k ==> rc.agent_pub_keys@[x].pub_key@ != pub_key@,
    {
        if rc.agent_pub_keys[k].pub_key == *pub_key {
            return true;
        }
    }
    false
}

} // verus!
