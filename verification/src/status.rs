//! The Status Translator: the single path every host status code takes on
//! its way to application code.

use crate::env::Env;
use crate::host::{napi_env__, napi_get_last_error_info, napi_status, same_except_calls};
use vstd::prelude::*;

verus! {

/// An application-level error carrying the diagnostic text the host
/// reported at the moment a failing status was observed.
#[derive(Debug)]
pub struct Error {
    pub message: String,
}

impl Error {
    /// The diagnostic text, for display by the application.
    pub fn message(&self) -> (m: &String)
        ensures
            m@ == self.message@,
    {
        &self.message
    }
}

/// Translate one host status code.  The success sentinel passes the
/// supplied value through untouched and issues no further host call; any
/// other code issues exactly one call, to the last-error facility, and the
/// diagnostic message is snapshotted into an owned `Error` before anything
/// else can touch the environment — the host's diagnostic buffer only
/// lives until the next call on it.  Translated failures are never
/// retried; callers decide whether to propagate or to escalate.
pub fn translate<T>(env: Env, host: &mut napi_env__, status: napi_status, value: T) -> (r: Result<
    T,
    Error,
>)
    ensures
        status == napi_status::napi_ok ==> (r matches Ok(v) && v == value),
        status == napi_status::napi_ok ==> *final(host) == *old(host),
        status != napi_status::napi_ok ==> (r matches Err(e)
            && e.message@ == old(host).last_error_message@),
        status != napi_status::napi_ok ==> same_except_calls(*old(host), *final(host))
            && final(host).calls@ == old(host).calls@ + 1,
        old(host).wf() ==> final(host).wf(),
{
    match status {
        napi_status::napi_ok => Ok(value),
        _ => {
            let (_info_status, message) = napi_get_last_error_info(host);
            Err(Error { message })
        },
    }
}

} // verus!
