//! The Environment Handle — the capability token through which every host
//! operation is invoked — and the free value-construction and property
//! operations that take it.

use crate::host::{
    extends_with_one, napi_create_function, napi_create_string_utf8, napi_env__,
    napi_get_null, napi_get_undefined, napi_is_exception_pending, napi_set_named_property,
    null_handle, same_except_calls, undefined_handle, Value, ValueKind,
};
use crate::status::{translate, Error};
use vstd::prelude::*;
use vstd::string::StringSliceAdditionalSpecFns;

verus! {

/// A copyable capability token wrapping the identity of one host
/// environment.  The host owns the environment and guarantees it outlives
/// any call using it; equality of tokens is pointer identity and nothing
/// more.
#[derive(Clone, Copy, Debug, PartialEq, Eq, Structural)]
pub struct Env {
    pub id: u64,
}

impl Env {
    /// The token designates this environment state.
    pub open spec fn refers_to(self, host: napi_env__) -> bool {
        self.id == host.env_id
    }

    /// Wrap a raw environment identity in a capability token.
    pub fn from(id: u64) -> (r: Env)
        ensures
            r.id == id,
    {
        Env { id }
    }

    /// Is an exception pending on this environment?  One host call, whose
    /// translation must succeed: failure here would mean host-level
    /// corruption, not a recoverable condition.
    pub fn is_exception_pending(&self, host: &mut napi_env__) -> (r: bool)
        requires
            old(host).wf(),
            self.refers_to(*old(host)),
        ensures
            r == (old(host).pending_exception is Some),
            same_except_calls(*old(host), *final(host)),
            final(host).calls@ == old(host).calls@ + 1,
            final(host).wf(),
    {
        let (status, pending) = napi_is_exception_pending(host);
        translate(*self, host, status, pending).unwrap()
    }

    /// The environment's undefined value.  One host call, must succeed.
    pub fn undefined(&self, host: &mut napi_env__) -> (r: Value)
        requires
            old(host).wf(),
            self.refers_to(*old(host)),
        ensures
            r == undefined_handle(),
            final(host).valid_value(r),
            same_except_calls(*old(host), *final(host)),
            final(host).calls@ == old(host).calls@ + 1,
            final(host).wf(),
    {
        let (status, v) = napi_get_undefined(host);
        translate(*self, host, status, v).unwrap()
    }

    /// The environment's null value.  One host call, must succeed.
    pub fn null(&self, host: &mut napi_env__) -> (r: Value)
        requires
            old(host).wf(),
            self.refers_to(*old(host)),
        ensures
            r == null_handle(),
            final(host).valid_value(r),
            same_except_calls(*old(host), *final(host)),
            final(host).calls@ == old(host).calls@ + 1,
            final(host).wf(),
    {
        let (status, v) = napi_get_null(host);
        translate(*self, host, status, v).unwrap()
    }
}

/// Convert an owned textual value into a host string value.  The byte
/// length is computed from the text's raw bytes — never from a terminator
/// or a character count — and passed to the host explicitly beside the
/// bytes, so text containing multi-byte sequences is carried through
/// without truncation.
pub fn create_string_utf8(env: Env, host: &mut napi_env__, string: &str) -> (r: Result<
    Value,
    Error,
>)
    requires
        old(host).wf(),
        env.refers_to(*old(host)),
    ensures
        r matches Ok(v) && {
            &&& v.id == old(host).values.len()
            &&& final(host).valid_value(v)
            &&& final(host).kind_of(v) is StringUtf8
            &&& final(host).kind_of(v)->StringUtf8_0@ == string.spec_bytes()
        },
        extends_with_one(*old(host), *final(host)),
        final(host).calls@ == old(host).calls@ + 1,
        final(host).wf(),
{
    let bytes: &[u8] = string.as_bytes();
    let len: usize = bytes.len();
    let (status, v) = napi_create_string_utf8(host, bytes, len);
    proof {
        assert(bytes@.subrange(0, len as int) =~= bytes@);
    }
    translate(env, host, status, v)
}

/// Round-trip law: a host string value holding what `create_string_utf8`
/// stored for text `s` is observationally equal to `s` — decoding the
/// stored bytes yields exactly the characters of `s`, and their count is
/// the byte length of the text, not its character count, so multi-byte
/// content survives intact.
pub proof fn lemma_create_string_round_trip(host: napi_env__, s: &str, v: Value)
    requires
        host.valid_value(v),
        host.kind_of(v) is StringUtf8,
        host.kind_of(v)->StringUtf8_0@ == s.spec_bytes(),
    ensures
        vstd::utf8::decode_utf8(host.kind_of(v)->StringUtf8_0@) == s@,
        host.kind_of(v)->StringUtf8_0@.len() == s.spec_bytes().len(),
{
    vstd::utf8::encode_utf8_decode_utf8(s@);
}

/// Register a statically typed application callback under a display name
/// and hand back a callable host value bound to it.  The registration's
/// opaque data slot receives only the lookup key `data`; this layer never
/// stores anything of another shape there, which is what keeps later
/// dispatch through the slot sound.
pub fn create_function(env: Env, host: &mut napi_env__, name: &str, data: usize) -> (r: Result<
    Value,
    Error,
>)
    requires
        old(host).wf(),
        env.refers_to(*old(host)),
    ensures
        r matches Ok(v) && {
            &&& v.id == old(host).values.len()
            &&& final(host).valid_value(v)
            &&& final(host).kind_of(v) matches ValueKind::Function { name: n, data: d } && n@
                == name@ && d == data
        },
        extends_with_one(*old(host), *final(host)),
        final(host).calls@ == old(host).calls@ + 1,
        final(host).wf(),
{
    let (status, v) = napi_create_function(host, name, data);
    translate(env, host, status, v)
}

/// Attach a value to a host object under a property key.  The target must
/// be a value the host treats as object-capable: a mismatch surfaces as a
/// translated `Error` carrying the host's diagnostic, never as a fault.
pub fn set_named_property(
    env: Env,
    host: &mut napi_env__,
    object: Value,
    name: &str,
    value: Value,
) -> (r: Result<(), Error>)
    requires
        old(host).wf(),
        env.refers_to(*old(host)),
    ensures
        final(host).wf(),
        final(host).env_id == old(host).env_id,
        final(host).infos == old(host).infos,
        final(host).pending_exception == old(host).pending_exception,
        final(host).registered == old(host).registered,
        final(host).values.len() == old(host).values.len(),
        old(host).valid_value(object) && old(host).valid_value(value) && old(host).kind_of(object)
            is Object ==> {
            &&& r is Ok
            &&& final(host).kind_of(object) is Object
            &&& final(host).props_map(object) == old(host).props_map(object).insert(name@, value)
            &&& forall|i: int|
                0 <= i < old(host).values.len() && i != object.id ==> final(host).values[i] == old(
                    host,
                ).values[i]
        },
        !(old(host).valid_value(object) && old(host).valid_value(value)) ==> (r matches Err(e)
            && e.message@ == "invalid argument"@ && final(host).values@ == old(host).values@),
        old(host).valid_value(object) && old(host).valid_value(value) && !(old(host).kind_of(object)
            is Object) ==> (r matches Err(e) && e.message@ == "object expected"@
            && final(host).values@ == old(host).values@),
{
    let status = napi_set_named_property(host, object, name, value);
    translate(env, host, status, ())
}

} // verus!
