//! The long-term credential: the permanent identity that, together with an
//! MFA code, mints sessions. It is loaded once per run, never written back
//! other than verbatim, and never persisted anywhere else.

use vstd::prelude::*;

verus! {

/// The three fields of the `default-long-term` profile. Values are the raw
/// bytes of the credential file.
#[derive(Clone, Debug)]
pub struct AwsCredentials {
    pub access_key_id: Vec<u8>,
    pub secret_access_key: Vec<u8>,
    pub mfa_device: Vec<u8>,
}

impl AwsCredentials {
    /// All three fields present and non-empty; the entity cannot be built
    /// otherwise.
    pub open spec fn wf(&self) -> bool {
        self.access_key_id@.len() > 0 && self.secret_access_key@.len() > 0
            && self.mfa_device@.len() > 0
    }

    pub fn new(access_key_id: Vec<u8>, secret_access_key: Vec<u8>, mfa_device: Vec<u8>) -> (r:
        AwsCredentials)
        requires
            access_key_id@.len() > 0,
            secret_access_key@.len() > 0,
            mfa_device@.len() > 0,
        ensures
            r.access_key_id == access_key_id,
            r.secret_access_key == secret_access_key,
            r.mfa_device == mfa_device,
            r.wf(),
    {
        AwsCredentials { access_key_id, secret_access_key, mfa_device }
    }
}

} // verus!
