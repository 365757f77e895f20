//! The Trampoline: the single entry point the host calls for every
//! registered function.  It reconstructs a Callback Context from the
//! host's invocation record, runs the statically typed application
//! callback the registration's data slot designates, and converts the
//! callback's result into the host's return convention — handing the
//! success value straight back, or raising the error value as a pending
//! host exception and reporting the host's failure sentinel.

use crate::context::CallbackInfo;
use crate::env::Env;
use crate::host::{napi_env__, napi_get_cb_info, napi_throw, same_except_calls, Value};
use crate::status::translate;
use vstd::prelude::*;

verus! {

/// How one trampoline invocation ended, in the host's terms.
#[derive(Clone, Copy, Debug, PartialEq, Eq, Structural)]
pub enum DispatchResult {
    /// The callback succeeded; the host receives this value as the call's
    /// result.
    Return(Value),
    /// The callback failed; its error value is now the pending host
    /// exception and the host receives its null/failure sentinel.
    Threw,
    /// A binding invariant was violated mid-call — a bookkeeping host call
    /// failed, or the host contradicted itself about the argument count.
    /// Never reported as a normal error: the call path is abandoned.
    Fatal,
}

/// The defence the trampoline owes itself: the count the host reports when
/// it fills the argument buffer must agree with the count the buffer was
/// sized for on the first query.  A contradiction would mean the buffer no
/// longer matches the host's view of the call, so the arguments are
/// released only when both counts and the buffer length agree.
pub fn check_arg_count(first: usize, second: usize, args: Vec<Value>) -> (r: Option<Vec<Value>>)
    ensures
        second == first && args@.len() == first ==> (r matches Some(a) && a@ == args@),
        !(second == first && args@.len() == first) ==> r is None,
{
    if second == first && args.len() == first {
        Some(args)
    } else {
        None
    }
}

/// One trampoline invocation, from the host's raw call to the host's
/// return convention.
///
/// The host hands over the environment and the index of the invocation
/// record; `f` is the application callback the registration's data slot
/// designates (its key travels in the record, and the caller resolves the
/// key through the registration table — the only producer of such keys).
///
/// The contract: bookkeeping reads but never alters the visible host
/// state; the callback runs on a context assembled exactly from the
/// host's record, with out-of-range indexing defaulting to undefined; a
/// callback success is returned to the host unchanged with no exception
/// raised, and a callback failure becomes the pending host exception with
/// the failure sentinel reported.  A bookkeeping failure, a contradicted
/// argument count, or a throw that cannot be raised is fatal.
pub fn callback_dispatch<F: FnOnce(&CallbackInfo, napi_env__) -> (napi_env__, Result<Value, Value>)>(
    env: Env,
    host: napi_env__,
    info: usize,
    f: F,
) -> (r: (napi_env__, DispatchResult))
    requires
        host.wf(),
        env.refers_to(host),
        forall|ci: CallbackInfo, h: napi_env__| call_requires(f, (&ci, h)),
    ensures
        !host.valid_info(info as int) ==> r.1 == DispatchResult::Fatal,
        host.valid_info(info as int) ==> exists|
            ci: CallbackInfo,
            h1: napi_env__,
            h2: napi_env__,
            cr: Result<Value, Value>,
        |
            {
                &&& #[trigger] call_ensures(f, (&ci, h1), (h2, cr))
                &&& ci.assembled_from(host, env, info as int)
                &&& same_except_calls(host, h1)
                &&& h1.wf()
                &&& match cr {
                    Ok(v) => r.1 == DispatchResult::Return(v) && r.0 == h2,
                    Err(e) => {
                        if h2.pending_exception is None && h2.valid_value(e) {
                            &&& r.1 == DispatchResult::Threw
                            &&& r.0.pending_exception == Some(e)
                            &&& r.0.values@ == h2.values@
                            &&& r.0.infos@ == h2.infos@
                            &&& r.0.env_id == h2.env_id
                            &&& r.0.registered == h2.registered
                        } else {
                            r.1 == DispatchResult::Fatal
                        }
                    },
                }
            },
{
    let mut host = host;

    // First pass: discover the argument count, the receiver and the
    // registration's data slot, supplying no argument buffer.
    let (status1, argc, _, this, _data) = napi_get_cb_info(&mut host, info, None);
    let first = match translate(env, &mut host, status1, argc) {
        Ok(n) => n,
        Err(_) => {
            return (host, DispatchResult::Fatal);
        },
    };

    // Second pass: materialize the arguments into a buffer sized to
    // exactly the discovered count; the count is re-read and must agree.
    let (status2, second, argv, _, _) = napi_get_cb_info(&mut host, info, Some(first));
    let argv = match translate(env, &mut host, status2, argv) {
        Ok(v) => v,
        Err(_) => {
            return (host, DispatchResult::Fatal);
        },
    };
    let args = match check_arg_count(first, second, argv) {
        Some(a) => a,
        None => {
            return (host, DispatchResult::Fatal);
        },
    };

    // Assemble the context, with a freshly fetched undefined value as the
    // default for out-of-range argument access.
    let undefined = env.undefined(&mut host);
    let ci = CallbackInfo { env, info, this, args, undefined };
    proof {
        assert(ci.args@ =~= host.infos@[info as int].args@);
    }

    // Run the application callback.
    let ghost h1 = host;
    let (cb_host, outcome) = f(&ci, host);
    let mut host = cb_host;
    let ghost h2 = host;

    match outcome {
        Ok(v) => {
            proof {
                assert(call_ensures(f, (&ci, h1), (h2, Ok(v))));
            }
            (host, DispatchResult::Return(v))
        },
        Err(e) => {
            // Raise the callback's error value as the pending host
            // exception; if even that fails, the binding itself is broken.
            let status = napi_throw(&mut host, e);
            match translate(env, &mut host, status, ()) {
                Ok(_) => {
                    proof {
                        assert(call_ensures(f, (&ci, h1), (h2, Err::<Value, Value>(e))));
                    }
                    (host, DispatchResult::Threw)
                },
                Err(_) => {
                    proof {
                        assert(call_ensures(f, (&ci, h1), (h2, Err::<Value, Value>(e))));
                    }
                    (host, DispatchResult::Fatal)
                },
            }
        },
    }
}

} // verus!
