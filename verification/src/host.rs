//! What a session asks of the host it runs on: the time.

use vstd::prelude::*;
use anchor_lang::prelude::{Clock, ProgramError, SolanaSysvar};

verus! {

/// `anchor_lang`'s `ProgramError`, the error type of the host. A value of it
/// is taken as it comes and handed on unread.
#[verifier::external_type_specification]
#[verifier::external_body]
pub struct ExProgramError(ProgramError);

/// Asks the host for its clock with `anchor_lang`'s `Clock::get` and returns
/// the clock's `unix_timestamp`, in seconds since the epoch, or the host's
/// error where it has no clock to offer.
///
/// Nothing is claimed of the reading: it is whatever the host says at the
/// moment of the call, and two calls may differ.
#[verifier::external_body]
pub(crate) fn host_unix_timestamp() -> (reading: Result<i64, ProgramError>) {
    match Clock::get() {
        Ok(clock) => Ok(clock.unix_timestamp),
        Err(host_error) => Err(host_error),
    }
}

} // verus!
