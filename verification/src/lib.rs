//! Refreshes the two-profile AWS credential file: the `default` profile holds
//! the current MFA-authenticated session, the `default-long-term` profile the
//! permanent credential that mints sessions.
//!
//! The library owns everything that can be stated and proved: parsing the
//! credential file, validating the long-term profile, shaping the session
//! request, validating the provider's answer, choosing the MFA code source,
//! and rendering the rewritten file. The surrounding binary performs the
//! file, terminal, subprocess and network work and hands plain values in.

pub mod cli;
pub mod credentials;
pub mod error;
pub mod ini;
pub mod mfa;
pub mod session;
pub mod store;
pub mod text;
pub mod updater;
