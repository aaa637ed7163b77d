//! Remote keystores.

use crate::error::ServiceError;
use sc_keystore::LocalKeystore;
use std::sync::Arc;
use vstd::prelude::*;
use vstd::string::StringExecFns;

verus! {

/// The keystore of the keystore crate. No remote keystore exists, so no value of
/// it is ever made here.
#[verifier::external_type_specification]
#[verifier::external_body]
pub struct ExLocalKeystore(LocalKeystore);

/// Builds the keystore that lives at `url`. None can be built so far.
pub fn remote_keystore(_url: &String) -> (r: Result<Arc<LocalKeystore>, &'static str>)
    ensures
        r is Err,
        r->Err_0@ == "Remote Keystore not supported."@,
{
    Err("Remote Keystore not supported.")
}

/// Builds the keystore that lives at `url`, or says why the node cannot hook it
/// up.
pub fn hook_remote_keystore(url: &String) -> (r: Result<Arc<LocalKeystore>, ServiceError>)
    ensures
        r is Err,
        r->Err_0.says(
            "Error hooking up remote keystore for "@ + url@ + ": "@
                + "Remote Keystore not supported."@,
        ),
{
    match remote_keystore(url) {
        Ok(keystore) => Ok(keystore),
        Err(reason) => {
            let words = "Error hooking up remote keystore for ".to_owned().concat(
                url.as_str(),
            ).concat(": ").concat(reason);
            Err(ServiceError::Other(words))
        },
    }
}

} // verus!
