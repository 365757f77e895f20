//! The Callback Context: the per-invocation bundle of receiver, argument
//! handles and environment handed to an application callback.

use crate::env::Env;
use crate::host::{napi_env__, napi_get_new_target, undefined_handle, Value};
use crate::status::translate;
use vstd::prelude::*;

verus! {

/// Assembled fresh by the trampoline for each invocation and never
/// escaping it: the environment token, the host's record index for the
/// invocation, the receiver, the materialized argument handles, and a
/// precomputed undefined value serving as the default for out-of-range
/// argument access.
pub struct CallbackInfo {
    pub env: Env,
    pub info: usize,
    pub this: Value,
    pub args: Vec<Value>,
    pub undefined: Value,
}

impl CallbackInfo {
    /// The context matches what the host recorded for the invocation.
    pub open spec fn assembled_from(self, host: napi_env__, env: Env, info: int) -> bool {
        &&& self.env == env
        &&& self.info == info
        &&& host.valid_info(info)
        &&& self.this == host.infos[info].this
        &&& self.args@ == host.infos[info].args@
        &&& self.undefined == undefined_handle()
    }

    /// The environment handle of the invocation.
    pub fn env(&self) -> (r: Env)
        ensures
            r == self.env,
    {
        self.env
    }

    /// How many arguments the host supplied for this invocation.
    pub fn len(&self) -> (r: usize)
        ensures
            r == self.args@.len(),
    {
        self.args.len()
    }

    /// The invocation's receiver.
    pub fn this(&self) -> (r: Value)
        ensures
            r == self.this,
    {
        self.this
    }

    /// The argument at `index`, in call order; any index at or past the
    /// supplied count yields the context's undefined value, never a fault.
    pub fn index(&self, index: usize) -> (r: Value)
        ensures
            index < self.args@.len() ==> r == self.args@[index as int],
            index >= self.args@.len() ==> r == self.undefined,
    {
        match self.args.get(index) {
            Some(v) => *v,
            None => self.undefined,
        }
    }

    /// The constructor-call target of the invocation, or the undefined
    /// value for a plain call.  One host call, must succeed.
    pub fn new_target(&self, host: &mut napi_env__) -> (r: Value)
        requires
            old(host).wf(),
            old(host).valid_info(self.info as int),
        ensures
            r == (match old(host).infos[self.info as int].new_target {
                Some(t) => t,
                None => undefined_handle(),
            }),
            final(host).valid_value(r),
            crate::host::same_except_calls(*old(host), *final(host)),
            final(host).calls@ == old(host).calls@ + 1,
            final(host).wf(),
    {
        let (status, nt) = napi_get_new_target(host, self.info);
        translate(self.env, host, status, nt).unwrap()
    }
}

} // verus!
