//! Configuration inputs of one run, as plain values. The surrounding binary
//! fills them from command-line flags and environment variables.

use vstd::prelude::*;

verus! {

/// What one invocation was asked to do.
pub struct Args {
    /// Path to the credential file; the platform default is used when absent.
    pub credentials_path: Option<String>,
    /// Region the provider call is made against.
    pub region: String,
    /// Requested session validity in seconds.
    pub duration: u32,
    /// Secret-manager account holding the MFA item, when automation is wanted.
    pub op_account: Option<String>,
    /// Secret-manager item that yields the one-time code.
    pub op_item_name: Option<String>,
}

} // verus!
