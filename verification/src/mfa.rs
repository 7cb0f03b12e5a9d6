//! MFA code source policy: accept a secret-manager answer only when it is a
//! clean six-digit code; anything else falls back to the interactive path.

use vstd::prelude::*;

use crate::text::{spec_trim, trim};

verus! {

pub open spec fn is_ascii_digit(b: u8) -> bool {
    48 <= b <= 57
}

/// A usable automated MFA code: exactly six ASCII digits.
pub open spec fn valid_code(s: Seq<u8>) -> bool {
    s.len() == 6 && (forall|i: int| 0 <= i < s.len() ==> is_ascii_digit(#[trigger] s[i]))
}

/// Judges a secret-manager invocation: its exit status and what it printed.
/// Returns the trimmed code exactly when the command succeeded and printed a
/// six-digit code; `None` means the caller must fall back to the interactive
/// prompt, never that the run failed.
pub fn automated_code(exit_success: bool, output: &Vec<u8>) -> (r: Option<Vec<u8>>)
    ensures
        r matches Some(code) ==> code@ == spec_trim(output@),
        r is Some <==> (exit_success && valid_code(spec_trim(output@))),
{
    if !exit_success {
        return None;
    }
    let t = trim(output);
    if t.len() != 6 {
        return None;
    }
    let mut i: usize = 0;
    while i < 6
        invariant
            0 <= i <= 6,
            t@.len() == 6,
            t@ == spec_trim(output@),
            forall|j: int| 0 <= j < i ==> is_ascii_digit(#[trigger] t@[j]),
        decreases 6 - i,
    {
        let b = t[i];
        if b < 48 || b > 57 {
            return None;
        }
        i = i + 1;
    }
    Some(t)
}

/// A manually entered code: the input line trimmed of surrounding whitespace,
/// deliberately without digit or length validation (the remote provider is
/// the authority on malformed manual entries).
pub fn manual_code(line: &Vec<u8>) -> (r: Vec<u8>)
    ensures
        r@ == spec_trim(line@),
{
    trim(line)
}

} // verus!
