//! The update orchestrator: one linear run. Load the long-term credential
//! from the file's bytes, shape the one provider request, judge the provider's
//! answer, and render the rewritten file. Every step is a total function on
//! plain values; the surrounding binary does the reading, calling and writing
//! in between, and persists nothing unless a step succeeded.

use vstd::prelude::*;

use crate::credentials::AwsCredentials;
use crate::error::UpdateError;
use crate::ini::clean_value;
use crate::session::{rfc3339_of, SessionCredential, MAX_RFC3339_EPOCH};
use crate::store::{
    load_long_term, load_matches, render_credentials_file, spec_load, spec_render_file,
};
use crate::text::sub_vec;

verus! {

/// Everything the one provider call is made from. The call authenticates with
/// exactly these long-term fields, never an ambient identity: the request
/// carries the credential it is to be signed with.
#[derive(Debug)]
pub struct SessionRequest {
    pub access_key_id: Vec<u8>,
    pub secret_access_key: Vec<u8>,
    pub mfa_serial: Vec<u8>,
    pub token_code: Vec<u8>,
    pub duration_seconds: i32,
}

/// What came back from the one provider call, as plain values.
pub enum ProviderOutcome {
    /// A credential payload: keys, token, and expiry in epoch seconds.
    Session {
        access_key_id: Vec<u8>,
        secret_access_key: Vec<u8>,
        session_token: Vec<u8>,
        expires_at: i64,
    },
    /// The provider rejected the long-term credential or the MFA code; the
    /// remote service does not always say which.
    AuthenticationRejected,
    /// The provider could not be reached.
    ConnectionFailed,
    /// The call succeeded but carried no credential payload.
    NoCredentials,
}

/// A payload the run can use: every field survives the credential file and
/// the expiry instant is representable.
pub open spec fn usable_payload(
    access_key_id: Seq<u8>,
    secret_access_key: Seq<u8>,
    session_token: Seq<u8>,
    expires_at: i64,
) -> bool {
    clean_value(access_key_id) && clean_value(secret_access_key) && clean_value(session_token)
        && 0 <= expires_at <= MAX_RFC3339_EPOCH
}

fn copy_bytes(v: &Vec<u8>) -> (r: Vec<u8>)
    ensures
        r@ == v@,
{
    let r = sub_vec(v, 0, v.len());
    proof {
        assert(v@.subrange(0, v@.len() as int) =~= v@);
    }
    r
}

/// One run's fixed state: the loaded long-term credential and the requested
/// session validity.
#[derive(Debug)]
pub struct AwsMfaUpdater {
    pub credentials: AwsCredentials,
    pub duration: u32,
}

impl AwsMfaUpdater {
    /// Builds the updater from the credential file's bytes: parses the file
    /// and extracts the long-term credential, failing exactly as the load
    /// model says.
    pub fn new(file_text: &Vec<u8>, duration: u32) -> (r: Result<AwsMfaUpdater, UpdateError>)
        ensures
            r matches Ok(u) ==> u.duration == duration && load_matches(
                Ok(u.credentials),
                spec_load(file_text@),
            ),
            r matches Err(e) ==> load_matches(
                Err::<AwsCredentials, UpdateError>(e),
                spec_load(file_text@),
            ),
            r is Ok <==> spec_load(file_text@) is Loaded,
    {
        match load_long_term(file_text) {
            Ok(credentials) => Ok(AwsMfaUpdater { credentials, duration }),
            Err(e) => Err(e),
        }
    }

    /// Shapes the one provider request of the run from the long-term
    /// credential, the MFA code and the requested duration. Fails exactly
    /// when the duration overflows the provider's signed 32-bit width; the
    /// window itself is the provider's to enforce.
    pub fn session_request(&self, token_code: Vec<u8>) -> (r: Result<SessionRequest, UpdateError>)
        ensures
            self.duration <= i32::MAX ==> (r matches Ok(q) && q.access_key_id@
                == self.credentials.access_key_id@ && q.secret_access_key@
                == self.credentials.secret_access_key@ && q.mfa_serial@
                == self.credentials.mfa_device@ && q.token_code == token_code
                && q.duration_seconds == self.duration as i32),
            self.duration > i32::MAX ==> r == Err::<SessionRequest, UpdateError>(
                UpdateError::DurationOutOfRange,
            ),
    {
        if self.duration > 2147483647u32 {
            return Err(UpdateError::DurationOutOfRange);
        }
        Ok(
            SessionRequest {
                access_key_id: copy_bytes(&self.credentials.access_key_id),
                secret_access_key: copy_bytes(&self.credentials.secret_access_key),
                mfa_serial: copy_bytes(&self.credentials.mfa_device),
                token_code,
                duration_seconds: self.duration as i32,
            },
        )
    }

    /// Judges the provider's answer and, on a usable payload, renders the
    /// whole rewritten file. Every failed outcome maps to its error and
    /// yields no content, so a failed run leaves the file untouched: there is
    /// nothing to write.
    pub fn update_credentials(&self, outcome: ProviderOutcome) -> (r: Result<Vec<u8>, UpdateError>)
        ensures
            r is Ok ==> outcome is Session,
            outcome matches ProviderOutcome::Session {
                access_key_id,
                secret_access_key,
                session_token,
                expires_at,
            } ==> if usable_payload(
                access_key_id@,
                secret_access_key@,
                session_token@,
                expires_at,
            ) {
                r matches Ok(c) && c@ == spec_render_file(
                    access_key_id@,
                    secret_access_key@,
                    session_token@,
                    rfc3339_of(expires_at as int),
                    self.credentials.access_key_id@,
                    self.credentials.secret_access_key@,
                    self.credentials.mfa_device@,
                )
            } else {
                r == Err::<Vec<u8>, UpdateError>(UpdateError::EmptyResponse)
            },
            outcome is AuthenticationRejected ==> r == Err::<Vec<u8>, UpdateError>(
                UpdateError::AuthenticationFailed,
            ),
            outcome is ConnectionFailed ==> r == Err::<Vec<u8>, UpdateError>(
                UpdateError::NetworkError,
            ),
            outcome is NoCredentials ==> r == Err::<Vec<u8>, UpdateError>(
                UpdateError::EmptyResponse,
            ),
    {
        match outcome {
            ProviderOutcome::Session {
                access_key_id,
                secret_access_key,
                session_token,
                expires_at,
            } => {
                match SessionCredential::new(
                    access_key_id,
                    secret_access_key,
                    session_token,
                    expires_at,
                ) {
                    Ok(session) => Ok(render_credentials_file(&session, &self.credentials)),
                    Err(e) => Err(e),
                }
            },
            ProviderOutcome::AuthenticationRejected => Err(UpdateError::AuthenticationFailed),
            ProviderOutcome::ConnectionFailed => Err(UpdateError::NetworkError),
            ProviderOutcome::NoCredentials => Err(UpdateError::EmptyResponse),
        }
    }
}

} // verus!
