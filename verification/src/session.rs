//! The session credential: the time-boxed result of the MFA exchange, and the
//! one trusted computation of the library, the RFC 3339 rendering of its
//! expiry instant.

use vstd::prelude::*;

use crate::error::UpdateError;
use crate::ini::clean_value;
use crate::ini::is_clean_value;

verus! {

/// Last epoch second of year 9999, the latest instant RFC 3339 can carry.
pub const MAX_RFC3339_EPOCH: i64 = 253402300799;

/// A byte the RFC 3339 rendering may contain: a digit, `-`, `:`, `T` or `Z`.
pub open spec fn timestamp_byte(b: u8) -> bool {
    (48 <= b <= 57) || b == 45 || b == 58 || b == 84 || b == 90
}

/// The RFC 3339 UTC rendering (`YYYY-MM-DDThh:mm:ssZ`) of an epoch-second
/// count, as the provider's type library computes it.
pub uninterp spec fn rfc3339_of(epoch_seconds: int) -> Seq<u8>;

/// Relies on `aws_smithy_types::DateTime::fmt` with `Format::DateTime`: for a
/// whole-second instant it renders the twenty-byte RFC 3339 UTC timestamp
/// `YYYY-MM-DDThh:mm:ssZ` (digits and `-`, `:`, `T`, `Z` only), and it fails
/// exactly when the instant falls outside the years 1 through 9999.
#[verifier::external_body]
pub(crate) fn format_rfc3339(epoch_seconds: i64) -> (r: Option<Vec<u8>>)
    ensures
        r matches Some(v) ==> v@ == rfc3339_of(epoch_seconds as int),
        r matches Some(v) ==> v@.len() == 20,
        r matches Some(v) ==> forall|i: int|
            0 <= i < v@.len() ==> timestamp_byte(#[trigger] v@[i]),
        0 <= epoch_seconds <= MAX_RFC3339_EPOCH ==> r is Some,
{
    aws_smithy_types::DateTime::from_secs(epoch_seconds)
        .fmt(aws_smithy_types::date_time::Format::DateTime)
        .ok()
        .map(|s| s.into_bytes())
}

/// An RFC 3339 rendering is a clean value: non-empty, no line feed, no
/// whitespace at the ends.
pub proof fn lemma_timestamp_clean(v: Seq<u8>)
    requires
        v.len() > 0,
        forall|i: int| 0 <= i < v.len() ==> timestamp_byte(#[trigger] v[i]),
    ensures
        clean_value(v),
{
    crate::text::lemma_has_byte(v, 10);
}

/// The temporary credential issued after MFA proof. `expires_at` counts epoch
/// seconds; its window is enforced by the remote provider, not re-checked
/// here beyond what rendering the timestamp needs.
pub struct SessionCredential {
    pub access_key_id: Vec<u8>,
    pub secret_access_key: Vec<u8>,
    pub session_token: Vec<u8>,
    pub expires_at: i64,
}

impl SessionCredential {
    /// Field values survive the credential file round trip and the expiry
    /// instant is representable.
    pub open spec fn wf(&self) -> bool {
        clean_value(self.access_key_id@) && clean_value(self.secret_access_key@) && clean_value(
            self.session_token@,
        ) && 0 <= self.expires_at <= MAX_RFC3339_EPOCH
    }

    /// Builds the session from the provider's payload. A payload whose fields
    /// would not survive the credential file, or whose expiry cannot be
    /// rendered, is no usable payload: the run fails as if none was returned.
    pub fn new(
        access_key_id: Vec<u8>,
        secret_access_key: Vec<u8>,
        session_token: Vec<u8>,
        expires_at: i64,
    ) -> (r: Result<SessionCredential, UpdateError>)
        ensures
            r matches Ok(s) ==> s.access_key_id == access_key_id && s.secret_access_key
                == secret_access_key && s.session_token == session_token && s.expires_at
                == expires_at && s.wf(),
            r is Ok <==> (clean_value(access_key_id@) && clean_value(secret_access_key@)
                && clean_value(session_token@) && 0 <= expires_at <= MAX_RFC3339_EPOCH),
            r is Err ==> r == Err::<SessionCredential, UpdateError>(UpdateError::EmptyResponse),
    {
        if !is_clean_value(&access_key_id) || !is_clean_value(&secret_access_key)
            || !is_clean_value(&session_token) || expires_at < 0 || expires_at
            > MAX_RFC3339_EPOCH {
            return Err(UpdateError::EmptyResponse);
        }
        Ok(SessionCredential { access_key_id, secret_access_key, session_token, expires_at })
    }
}

} // verus!
