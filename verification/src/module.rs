//! The Module Registrar: the process-wide entry point the host invokes
//! exactly once when the module is loaded, and the application
//! initialization it runs.

use crate::context::CallbackInfo;
use crate::env::{create_function, set_named_property, Env};
use crate::host::{lemma_wf_preserved, napi_env__, Value, ValueKind};
use vstd::prelude::*;

verus! {

/// The registration-table key under which the application's `throw`
/// callback is dispatched.  Only keys minted here ever reach a host
/// function value's data slot.
pub const THROW_CALLBACK_KEY: usize = 0;

/// The canonical demonstration callback: fail the call with the value
/// received as its first argument, which the host will then observe as
/// the thrown exception.  With no argument supplied it throws the
/// context's undefined value.
pub fn throw(info: &CallbackInfo, host: napi_env__) -> (r: (napi_env__, Result<Value, Value>))
    ensures
        r.0 == host,
        r.1 == Err::<Value, Value>(
            if info.args@.len() > 0 {
                info.args@[0]
            } else {
                info.undefined
            },
        ),
{
    let v = info.index(0);
    (host, Err(v))
}

/// Application-supplied initialization: populate the pre-created exports
/// object with this module's functions.  It registers the `throw`
/// callback under the property key of the same name, bound through the
/// registration key `THROW_CALLBACK_KEY`; the host function value it
/// creates is the one the exports object ends up holding.
pub fn init(env: Env, host: &mut napi_env__, exports: Value)
    requires
        old(host).wf(),
        env.refers_to(*old(host)),
        old(host).valid_value(exports),
        old(host).kind_of(exports) is Object,
    ensures
        final(host).wf(),
        final(host).env_id == old(host).env_id,
        final(host).registered == old(host).registered,
        final(host).pending_exception == old(host).pending_exception,
        final(host).infos == old(host).infos,
        final(host).props_map(exports) == old(host).props_map(exports).insert(
            "throw"@,
            (Value { id: old(host).values.len() }),
        ),
        final(host).kind_of((Value { id: old(host).values.len() }))
            matches ValueKind::Function { name, data } && name@ == "throw"@ && data
            == THROW_CALLBACK_KEY,
{
    let fv = create_function(env, host, "throw", THROW_CALLBACK_KEY).unwrap();
    set_named_property(env, host, exports, "throw", fv).unwrap();
}

/// The module registrar.  The host invokes it exactly once per module
/// load — a guarantee modelled by the `registered` flag, which this entry
/// point demands clear and leaves set — handing the environment and the
/// module's pre-created exports object.  It runs application
/// initialization once, synchronously, and hands the very same exports
/// object back, augmented with whatever initialization attached.
pub fn napi_register_module_v1(env: Env, host: &mut napi_env__, exports: Value) -> (r: Value)
    requires
        old(host).wf(),
        env.refers_to(*old(host)),
        old(host).valid_value(exports),
        old(host).kind_of(exports) is Object,
        !old(host).registered,
    ensures
        r == exports,
        final(host).registered,
        final(host).wf(),
        final(host).pending_exception == old(host).pending_exception,
        final(host).props_map(exports) == old(host).props_map(exports).insert(
            "throw"@,
            (Value { id: old(host).values.len() }),
        ),
        final(host).kind_of((Value { id: old(host).values.len() }))
            matches ValueKind::Function { name, data } && name@ == "throw"@ && data
            == THROW_CALLBACK_KEY,
{
    host.registered = true;
    proof {
        lemma_wf_preserved(*old(host), *host);
    }
    init(env, host, exports);
    exports
}

} // verus!
