//! The file guard: the decision that protects an existing file from a silent
//! overwrite. Whether the target exists and what the operator answered are
//! facts only the unverified shell can gather; it hands them in as plain
//! booleans, and this module makes the decision. The shell consults the
//! `assume_yes` flag before ever invoking the prompt, so `confirmed` only
//! matters when the file exists and the flag is off.

use vstd::prelude::*;

use crate::errors::Error;

verus! {

/// When a write to a target is allowed: the target does not exist, or the
/// operator forced overwriting, or the operator confirmed it interactively.
pub open spec fn overwrite_allowed(file_exists: bool, assume_yes: bool, confirmed: bool) -> bool {
    !file_exists || assume_yes || confirmed
}

/// Checks one target path for an accidental overwrite, given whether a file
/// exists there, whether the operator passed the forced-yes flag, and how an
/// interactive confirmation (if one was held) came out. Succeeds silently
/// exactly when overwriting is allowed; a decline is an `Aborted` error.
pub fn check_if_file_exists(file_exists: bool, assume_yes: bool, confirmed: bool) -> (r: Result<
    (),
    Error,
>)
    ensures
        r is Ok <==> overwrite_allowed(file_exists, assume_yes, confirmed),
        r is Err ==> r->Err_0 is Aborted,
{
    if file_exists && !assume_yes && !confirmed {
        Err(Error::Aborted)
    } else {
        Ok(())
    }
}

} // verus!
