//! Program metadata read from the machine: a generated program name, the
//! user and host identity, and the current time.  Each call's outcome
//! depends on the environment, so the contracts promise almost nothing; the
//! header comments they feed are free text.

use vstd::prelude::*;

verus! {

/// A randomly generated program name.
///
/// Relies on `moby_name_gen::random_name`, which joins one adjective and one
/// surname from its built-in word lists with a hyphen; the choice is random,
/// so only non-emptiness is promised.
#[verifier::external_body]
pub(crate) fn generated_name() -> (r: String)
    ensures
        r@.len() > 0,
{
    moby_name_gen::random_name()
}

/// The login name of the user running this process, if it can be read.
///
/// Relies on `username::get_user_name`, which reads the login name from the
/// environment; the outcome depends on the environment, so nothing is
/// promised of it.
#[verifier::external_body]
pub(crate) fn user_name() -> (r: Option<String>) {
    username::get_user_name().ok()
}

/// The system host name, if it can be read.
///
/// Relies on `hostname::get`; the outcome depends on the machine, so nothing
/// is promised of it.
#[verifier::external_body]
pub(crate) fn host_name() -> (r: Option<String>) {
    hostname::get().ok().map(|h| h.to_string_lossy().to_string())
}

/// The current time as text.
///
/// Relies on `time::OffsetDateTime::now_local`, falling back to `now_utc`
/// when the local offset is indeterminate, and on the `OffsetDateTime`
/// display; the outcome depends on the clock, so nothing is promised of it.
#[verifier::external_body]
pub(crate) fn current_time_text() -> (r: String) {
    time::OffsetDateTime::now_local().unwrap_or(time::OffsetDateTime::now_utc()).to_string()
}

} // verus!
