//! The failure taxonomy of one update run. Every failure is terminal for the
//! run; nothing is retried inside the library.

use vstd::prelude::*;

verus! {

/// Why an update run stopped. `MissingField` carries the name of the first
/// required `default-long-term` field that the credential file lacks.
#[derive(Debug, Clone, PartialEq, Eq)]
pub enum UpdateError {
    /// The credential file does not exist at the resolved path.
    NotFound,
    /// No path was given and the home directory could not be determined.
    HomeDirUnresolvable,
    /// The credential file is not valid section/key-value text.
    ParseError,
    /// A required long-term field is absent (or empty) in `default-long-term`.
    MissingField(Vec<u8>),
    /// The provider rejected the long-term credential or the MFA code.
    AuthenticationFailed,
    /// The requested duration does not fit the provider's signed 32-bit width.
    DurationOutOfRange,
    /// The provider could not be reached.
    NetworkError,
    /// The provider answered without a usable credential payload.
    EmptyResponse,
    /// A filesystem or terminal read/write failed.
    IoError,
}

impl UpdateError {
    pub open spec fn spec_message(&self) -> Seq<char> {
        match self {
            UpdateError::NotFound => "credentials file not found"@,
            UpdateError::HomeDirUnresolvable => "could not determine home directory"@,
            UpdateError::ParseError => "credentials file is not valid section/key-value text"@,
            UpdateError::MissingField(_) => "missing required field in the default-long-term profile"@,
            UpdateError::AuthenticationFailed => "authentication failed: credential or MFA code rejected"@,
            UpdateError::DurationOutOfRange => "session duration does not fit the provider's accepted range"@,
            UpdateError::NetworkError => "could not reach the token provider"@,
            UpdateError::EmptyResponse => "token provider returned no credentials"@,
            UpdateError::IoError => "input/output failure"@,
        }
    }

    /// A fixed diagnostic line for each failure kind.
    pub fn message(&self) -> (m: &'static str)
        ensures
            m@ == self.spec_message(),
    {
        match self {
            UpdateError::NotFound => "credentials file not found",
            UpdateError::HomeDirUnresolvable => "could not determine home directory",
            UpdateError::ParseError => "credentials file is not valid section/key-value text",
            UpdateError::MissingField(_) => "missing required field in the default-long-term profile",
            UpdateError::AuthenticationFailed => "authentication failed: credential or MFA code rejected",
            UpdateError::DurationOutOfRange => "session duration does not fit the provider's accepted range",
            UpdateError::NetworkError => "could not reach the token provider",
            UpdateError::EmptyResponse => "token provider returned no credentials",
            UpdateError::IoError => "input/output failure",
        }
    }
}

} // verus!
