//! A model of the host environment that the binding layer binds against.
//!
//! The real host is a memory-unsafe C-ABI runtime: an opaque environment
//! pointer, opaque value pointers, and status-returning entry points with
//! out-parameters.  This module models that world as plain data so that the
//! binding layer can be specified and proved against it: `napi_env__` is the
//! state behind the environment pointer, `napi_value__` one host-managed
//! value record, and a `Value` is the handle (here an index) an application
//! holds.  Handles must be treated as opaque by application code; the model
//! exposes their representation only so that contracts can speak about it.
//!
//! Every modelled host entry point returns a status, reports diagnostics
//! through the last-error facility, and counts as one host call (the ghost
//! `calls` counter), which is what lets contracts say "this operation makes
//! no further host call".

use vstd::prelude::*;

verus! {

/// The closed status enumeration every host entry point returns.
#[allow(non_camel_case_types)]
#[derive(Clone, Copy, Debug, PartialEq, Eq, Hash, Structural)]
pub enum napi_status {
    napi_ok,
    napi_invalid_arg,
    napi_object_expected,
    napi_string_expected,
    napi_name_expected,
    napi_function_expected,
    napi_number_expected,
    napi_boolean_expected,
    napi_array_expected,
    napi_generic_failure,
    napi_pending_exception,
    napi_cancelled,
    napi_escape_called_twice,
    napi_handle_scope_mismatch,
    napi_callback_scope_mismatch,
    napi_queue_full,
    napi_closing,
    napi_bigint_expected,
}

/// A non-owning handle to a host-managed value.  The host owns the value;
/// this layer only references it.  In the model a handle is an index into
/// the environment's value store.
#[derive(Clone, Copy, Debug, PartialEq, Eq, Structural)]
pub struct Value {
    pub id: usize,
}

/// What a host-managed value is: the kinds this layer constructs or reads.
#[derive(Clone, Debug, PartialEq)]
pub enum ValueKind {
    Undefined,
    Null,
    /// A host string; the host stores the raw bytes handed to it, so byte
    /// content (not character count) is what round-trips.
    StringUtf8(Vec<u8>),
    /// A host object: property key to value handle, later entries shadowing
    /// earlier ones.
    Object(Vec<(String, Value)>),
    /// A callable host value.  Its registration record holds only a lookup
    /// key for the application's callback, never a reinterpreted pointer.
    Function { name: String, data: usize },
}

/// One host-managed value record, the target of a `Value` handle.
#[allow(non_camel_case_types)]
#[derive(Clone, Debug)]
pub struct napi_value__ {
    pub kind: ValueKind,
}

/// The host's record of one callback invocation: receiver, argument
/// handles, the constructor-call target if any, and the registration's
/// opaque data slot (a callback lookup key).
#[allow(non_camel_case_types)]
#[derive(Clone, Debug)]
pub struct napi_callback_info__ {
    pub this: Value,
    pub args: Vec<Value>,
    pub new_target: Option<Value>,
    pub data: usize,
}

/// The state behind the host's environment pointer.
#[allow(non_camel_case_types)]
pub struct napi_env__ {
    /// Identity of this environment; an `Env` capability token carries the
    /// same number, modelling pointer identity.
    pub env_id: u64,
    /// The value store; a `Value` handle indexes into it.  Slot 0 is the
    /// undefined value and slot 1 the null value.
    pub values: Vec<napi_value__>,
    /// Callback invocations the host has prepared.
    pub infos: Vec<napi_callback_info__>,
    /// The exception the host currently holds pending, if any.
    pub pending_exception: Option<Value>,
    /// The last-error facility: the diagnostic text of the most recent
    /// failing entry point.
    pub last_error_message: String,
    /// Whether the module registrar has already run for this environment.
    pub registered: bool,
    /// Ghost count of host entry points called on this environment.
    pub calls: Ghost<int>,
}

/// The handle every environment hands out for its undefined value.
pub open spec fn undefined_handle() -> Value {
    Value { id: 0 }
}

/// The handle every environment hands out for its null value.
pub open spec fn null_handle() -> Value {
    Value { id: 1 }
}

impl napi_env__ {
    /// A handle is valid when it references a record the store holds.
    pub open spec fn valid_value(self, v: Value) -> bool {
        v.id < self.values.len()
    }

    /// The record a valid handle references.
    pub open spec fn kind_of(self, v: Value) -> ValueKind {
        self.values[v.id as int].kind
    }

    /// An invocation record is internally valid: every handle it carries
    /// references the value store.
    pub open spec fn info_ok(self, i: int) -> bool {
        &&& self.valid_value(self.infos[i].this)
        &&& forall|j: int|
            0 <= j < self.infos[i].args.len() ==> self.valid_value(#[trigger] self.infos[i].args[j])
        &&& self.infos[i].new_target matches Some(t) ==> self.valid_value(
            self.infos[i].new_target->Some_0,
        )
    }

    pub open spec fn valid_info(self, i: int) -> bool {
        0 <= i < self.infos.len() && self.info_ok(i)
    }

    /// Well-formedness of the environment: the two sentinel values sit in
    /// their slots, and every handle the host itself holds is valid.
    pub open spec fn wf(self) -> bool {
        &&& self.values.len() >= 2
        &&& self.kind_of(undefined_handle()) is Undefined
        &&& self.kind_of(null_handle()) is Null
        &&& self.pending_exception matches Some(e) ==> self.valid_value(
            self.pending_exception->Some_0,
        )
        &&& forall|i: int| 0 <= i < self.infos.len() ==> self.info_ok(i)
    }

    /// A fresh environment holding only the undefined and null values.
    pub fn new(env_id: u64) -> (r: napi_env__)
        ensures
            r.wf(),
            r.env_id == env_id,
            r.values.len() == 2,
            r.infos.len() == 0,
            r.pending_exception is None,
            r.registered == false,
            r.calls@ == 0,
    {
        napi_env__ {
            env_id,
            values: vec![
                napi_value__ { kind: ValueKind::Undefined },
                napi_value__ { kind: ValueKind::Null },
            ],
            infos: Vec::new(),
            pending_exception: None,
            last_error_message: String::new(),
            registered: false,
            calls: Ghost(0),
        }
    }
}

/// Everything about two environment states agrees except the ghost count of
/// host calls: the visible host state is unchanged.
pub open spec fn same_except_calls(pre: napi_env__, post: napi_env__) -> bool {
    &&& post.env_id == pre.env_id
    &&& post.values == pre.values
    &&& post.infos == pre.infos
    &&& post.pending_exception == pre.pending_exception
    &&& post.last_error_message == pre.last_error_message
    &&& post.registered == pre.registered
}

/// Host entry point: report the diagnostic record of the most recent
/// failure.  The model hands back an owned snapshot of the message; in the
/// real host the buffer only lives until the next call on the environment,
/// which is why callers must snapshot it first.
pub fn napi_get_last_error_info(env: &mut napi_env__) -> (r: (napi_status, String))
    ensures
        r.0 == napi_status::napi_ok,
        r.1@ == old(env).last_error_message@,
        same_except_calls(*old(env), *final(env)),
        final(env).calls@ == old(env).calls@ + 1,
        old(env).wf() ==> final(env).wf(),
{
    proof {
        env.calls@ = env.calls@ + 1;
        if old(env).wf() {
            lemma_wf_preserved(*old(env), *env);
        }
    }
    (napi_status::napi_ok, env.last_error_message.clone())
}

/// Host entry point: is an exception pending on this environment?
pub fn napi_is_exception_pending(env: &mut napi_env__) -> (r: (napi_status, bool))
    ensures
        r.0 == napi_status::napi_ok,
        r.1 == old(env).pending_exception is Some,
        same_except_calls(*old(env), *final(env)),
        final(env).calls@ == old(env).calls@ + 1,
        old(env).wf() ==> final(env).wf(),
{
    proof {
        env.calls@ = env.calls@ + 1;
        if old(env).wf() {
            lemma_wf_preserved(*old(env), *env);
        }
    }
    (napi_status::napi_ok, env.pending_exception.is_some())
}

/// Host entry point: the environment's undefined value.
pub fn napi_get_undefined(env: &mut napi_env__) -> (r: (napi_status, Value))
    requires
        old(env).wf(),
    ensures
        r.0 == napi_status::napi_ok,
        r.1 == undefined_handle(),
        final(env).valid_value(r.1),
        same_except_calls(*old(env), *final(env)),
        final(env).calls@ == old(env).calls@ + 1,
        final(env).wf(),
{
    proof {
        env.calls@ = env.calls@ + 1;
        lemma_wf_preserved(*old(env), *env);
    }
    (napi_status::napi_ok, Value { id: 0 })
}

/// Host entry point: the environment's null value.
pub fn napi_get_null(env: &mut napi_env__) -> (r: (napi_status, Value))
    requires
        old(env).wf(),
    ensures
        r.0 == napi_status::napi_ok,
        r.1 == null_handle(),
        final(env).valid_value(r.1),
        same_except_calls(*old(env), *final(env)),
        final(env).calls@ == old(env).calls@ + 1,
        final(env).wf(),
{
    proof {
        env.calls@ = env.calls@ + 1;
        lemma_wf_preserved(*old(env), *env);
    }
    (napi_status::napi_ok, Value { id: 1 })
}

/// Host entry point: raise `error` as the pending exception.  Fails when an
/// exception is already pending or the handle is not one of this
/// environment's values; the host state is then unchanged apart from the
/// diagnostic record.
pub fn napi_throw(env: &mut napi_env__, error: Value) -> (r: napi_status)
    ensures
        final(env).calls@ == old(env).calls@ + 1,
        final(env).env_id == old(env).env_id,
        final(env).values == old(env).values,
        final(env).infos == old(env).infos,
        final(env).registered == old(env).registered,
        old(env).pending_exception is Some ==> {
            &&& r == napi_status::napi_pending_exception
            &&& final(env).pending_exception == old(env).pending_exception
            &&& final(env).last_error_message@ == "an exception is already pending"@
        },
        old(env).pending_exception is None && !old(env).valid_value(error) ==> {
            &&& r == napi_status::napi_invalid_arg
            &&& final(env).pending_exception is None
            &&& final(env).last_error_message@ == "invalid argument"@
        },
        old(env).pending_exception is None && old(env).valid_value(error) ==> {
            &&& r == napi_status::napi_ok
            &&& final(env).pending_exception == Some(error)
            &&& final(env).last_error_message == old(env).last_error_message
        },
        old(env).wf() ==> final(env).wf(),
{
    proof {
        env.calls@ = env.calls@ + 1;
    }
    if env.pending_exception.is_some() {
        env.last_error_message = "an exception is already pending".to_owned();
        proof {
            if old(env).wf() {
                lemma_wf_preserved(*old(env), *env);
            }
        }
        napi_status::napi_pending_exception
    } else if error.id >= env.values.len() {
        env.last_error_message = "invalid argument".to_owned();
        proof {
            if old(env).wf() {
                lemma_wf_preserved(*old(env), *env);
            }
        }
        napi_status::napi_invalid_arg
    } else {
        env.pending_exception = Some(error);
        proof {
            if old(env).wf() {
                lemma_wf_preserved(*old(env), *env);
            }
        }
        napi_status::napi_ok
    }
}

/// The property table of an object, later entries shadowing earlier ones.
pub open spec fn assoc_map(s: Seq<(String, Value)>) -> Map<Seq<char>, Value>
    decreases s.len(),
{
    if s.len() == 0 {
        Map::empty()
    } else {
        assoc_map(s.drop_last()).insert(s.last().0@, s.last().1)
    }
}

impl napi_env__ {
    /// The properties of a value as a map, empty when it is not an object.
    pub open spec fn props_map(self, v: Value) -> Map<Seq<char>, Value> {
        if self.valid_value(v) {
            match self.kind_of(v) {
                ValueKind::Object(ps) => assoc_map(ps@),
                _ => Map::empty(),
            }
        } else {
            Map::empty()
        }
    }
}

/// Looking one entry deeper into a property table with a key that differs
/// from the one sought changes nothing about the lookup.
proof fn lemma_assoc_skip(s: Seq<(String, Value)>, i: int, key: Seq<char>)
    requires
        0 <= i < s.len(),
        s[i].0@ != key,
    ensures
        assoc_map(s.take(i + 1)).contains_key(key) == assoc_map(s.take(i)).contains_key(key),
        assoc_map(s.take(i)).contains_key(key) ==> assoc_map(s.take(i + 1))[key] == assoc_map(
            s.take(i),
        )[key],
{
    assert(s.take(i + 1).drop_last() =~= s.take(i));
    assert(s.take(i + 1).last() == s[i]);
}

/// The latest entry bearing the key sought decides the lookup.
proof fn lemma_assoc_hit(s: Seq<(String, Value)>, i: int, key: Seq<char>)
    requires
        0 <= i < s.len(),
        s[i].0@ == key,
    ensures
        assoc_map(s.take(i + 1)).contains_key(key),
        assoc_map(s.take(i + 1))[key] == s[i].1,
{
    assert(s.take(i + 1).drop_last() =~= s.take(i));
    assert(s.take(i + 1).last() == s[i]);
}

/// Observation on the model: the value attached to `object` under `name`,
/// honouring shadowing (the latest entry wins), or nothing when the key is
/// absent or the target is no object.
pub fn get_named_property(env: &napi_env__, object: Value, name: &str) -> (r: Option<Value>)
    ensures
        env.props_map(object).contains_key(name@) ==> r == Some(env.props_map(object)[name@]),
        !env.props_map(object).contains_key(name@) ==> r is None,
{
    if object.id >= env.values.len() {
        return None;
    }
    let sought = name.to_owned();
    match &env.values[object.id].kind {
        ValueKind::Object(ps) => {
            let ghost full = ps@;
            let mut i = ps.len();
            proof {
                assert(full.take(i as int) =~= full);
            }
            while i > 0
                invariant
                    i <= ps@.len(),
                    ps@ == full,
                    sought@ == name@,
                    object.id < env.values.len(),
                    env.kind_of(object) == ValueKind::Object(*ps),
                    assoc_map(full).contains_key(name@) == assoc_map(
                        full.take(i as int),
                    ).contains_key(name@),
                    assoc_map(full.take(i as int)).contains_key(name@) ==> assoc_map(
                        full.take(i as int),
                    )[name@] == assoc_map(full)[name@],
                decreases i,
            {
                i = i - 1;
                let entry = &ps[i];
                if entry.0 == sought {
                    proof {
                        lemma_assoc_hit(full, i as int, name@);
                    }
                    return Some(entry.1);
                }
                proof {
                    lemma_assoc_skip(full, i as int, name@);
                }
            }
            proof {
                assert(full.take(0) =~= Seq::<(String, Value)>::empty());
            }
            None
        },
        _ => None,
    }
}

/// Observation on the model: the byte content of a host string value.
pub fn get_string_bytes<'a>(env: &'a napi_env__, v: Value) -> (r: Option<&'a Vec<u8>>)
    ensures
        (env.valid_value(v) && env.kind_of(v) is StringUtf8) ==> (r matches Some(b) && b@
            == env.kind_of(v)->StringUtf8_0@),
        !(env.valid_value(v) && env.kind_of(v) is StringUtf8) ==> r is None,
{
    if v.id >= env.values.len() {
        return None;
    }
    match &env.values[v.id].kind {
        ValueKind::StringUtf8(b) => Some(b),
        _ => None,
    }
}

/// The host preparing one callback invocation: it records the receiver,
/// the argument handles, the constructor-call target if any, and the data
/// slot of the registration being invoked.  This is the host's own doing
/// between calls into it, so the call counter does not move.
pub fn push_callback_info(
    env: &mut napi_env__,
    this: Value,
    args: Vec<Value>,
    new_target: Option<Value>,
    data: usize,
) -> (r: usize)
    requires
        old(env).wf(),
        old(env).valid_value(this),
        forall|j: int| 0 <= j < args@.len() ==> old(env).valid_value(#[trigger] args@[j]),
        new_target matches Some(t) ==> old(env).valid_value(new_target->Some_0),
    ensures
        final(env).wf(),
        r == old(env).infos.len(),
        final(env).valid_info(r as int),
        final(env).infos.len() == old(env).infos.len() + 1,
        final(env).infos[r as int].this == this,
        final(env).infos[r as int].args == args,
        final(env).infos[r as int].new_target == new_target,
        final(env).infos[r as int].data == data,
        forall|i: int| 0 <= i < old(env).infos.len() ==> final(env).infos[i] == old(env).infos[i],
        final(env).env_id == old(env).env_id,
        final(env).values == old(env).values,
        final(env).pending_exception == old(env).pending_exception,
        final(env).last_error_message == old(env).last_error_message,
        final(env).registered == old(env).registered,
        final(env).calls@ == old(env).calls@,
{
    let r = env.infos.len();
    env.infos.push(napi_callback_info__ { this, args, new_target, data });
    proof {
        assert forall|i: int| 0 <= i < env.infos.len() implies env.info_ok(i) by {
            if i < old(env).infos.len() {
                assert(old(env).info_ok(i));
                assert forall|j: int|
                    0 <= j < env.infos[i].args.len() implies env.valid_value(
                    #[trigger] env.infos[i].args[j],
                ) by {
                    assert(old(env).valid_value(old(env).infos[i].args[j]));
                }
            }
        }
    }
    r
}

/// Host entry point: introspect one callback invocation.  Without a buffer
/// capacity it reports only the argument count, the receiver and the data
/// slot; with one it also fills a buffer with at most that many argument
/// handles, in call order, and re-reports the count either way.
pub fn napi_get_cb_info(env: &mut napi_env__, info: usize, argv_capacity: Option<usize>) -> (r: (
    napi_status,
    usize,
    Vec<Value>,
    Value,
    usize,
))
    requires
        old(env).wf(),
    ensures
        final(env).calls@ == old(env).calls@ + 1,
        final(env).wf(),
        !old(env).valid_info(info as int) ==> {
            &&& r.0 == napi_status::napi_invalid_arg
            &&& final(env).env_id == old(env).env_id
            &&& final(env).values == old(env).values
            &&& final(env).infos == old(env).infos
            &&& final(env).pending_exception == old(env).pending_exception
            &&& final(env).registered == old(env).registered
            &&& final(env).last_error_message@ == "invalid argument"@
        },
        old(env).valid_info(info as int) ==> {
            &&& r.0 == napi_status::napi_ok
            &&& same_except_calls(*old(env), *final(env))
            &&& r.1 == old(env).infos[info as int].args.len()
            &&& r.3 == old(env).infos[info as int].this
            &&& r.4 == old(env).infos[info as int].data
            &&& (argv_capacity matches Some(cap) ==> r.2@ == old(env).infos[
                info as int
            ].args@.take(
                if cap < old(env).infos[info as int].args.len() {
                    cap as int
                } else {
                    old(env).infos[info as int].args.len() as int
                },
            ))
            &&& (argv_capacity is None ==> r.2@.len() == 0)
        },
{
    proof {
        env.calls@ = env.calls@ + 1;
    }
    if info >= env.infos.len() {
        env.last_error_message = "invalid argument".to_owned();
        proof {
            lemma_wf_preserved(*old(env), *env);
        }
        return (napi_status::napi_invalid_arg, 0, Vec::new(), Value { id: 0 }, 0);
    }
    proof {
        lemma_wf_preserved(*old(env), *env);
    }
    let rec = &env.infos[info];
    let count = rec.args.len();
    let this = rec.this;
    let data = rec.data;
    let mut argv: Vec<Value> = Vec::new();
    match argv_capacity {
        None => {},
        Some(cap) => {
            let fill = if cap < count {
                cap
            } else {
                count
            };
            let mut i: usize = 0;
            while i < fill
                invariant
                    i <= fill,
                    fill <= rec.args.len(),
                    argv@ =~= rec.args@.take(i as int),
                decreases fill - i,
            {
                argv.push(rec.args[i]);
                i = i + 1;
                proof {
                    assert(argv@ =~= rec.args@.take(i as int));
                }
            }
        },
    }
    (napi_status::napi_ok, count, argv, this, data)
}

/// Host entry point: the constructor-call target of one invocation, or the
/// undefined value when the invocation was a plain call.
pub fn napi_get_new_target(env: &mut napi_env__, info: usize) -> (r: (napi_status, Value))
    requires
        old(env).wf(),
    ensures
        final(env).calls@ == old(env).calls@ + 1,
        final(env).wf(),
        !old(env).valid_info(info as int) ==> {
            &&& r.0 == napi_status::napi_invalid_arg
            &&& final(env).values == old(env).values
            &&& final(env).infos == old(env).infos
            &&& final(env).pending_exception == old(env).pending_exception
            &&& final(env).last_error_message@ == "invalid argument"@
        },
        old(env).valid_info(info as int) ==> {
            &&& r.0 == napi_status::napi_ok
            &&& same_except_calls(*old(env), *final(env))
            &&& r.1 == (match old(env).infos[info as int].new_target {
                Some(t) => t,
                None => undefined_handle(),
            })
            &&& final(env).valid_value(r.1)
        },
{
    proof {
        env.calls@ = env.calls@ + 1;
    }
    if info >= env.infos.len() {
        env.last_error_message = "invalid argument".to_owned();
        proof {
            lemma_wf_preserved(*old(env), *env);
        }
        return (napi_status::napi_invalid_arg, Value { id: 0 });
    }
    proof {
        lemma_wf_preserved(*old(env), *env);
    }
    match env.infos[info].new_target {
        Some(t) => (napi_status::napi_ok, t),
        None => (napi_status::napi_ok, Value { id: 0 }),
    }
}

/// Well-formedness survives any step that keeps the two sentinel records
/// in place, never shrinks the value store, leaves the invocation records
/// as they were, and leaves no dangling pending exception.
pub(crate) proof fn lemma_wf_preserved(pre: napi_env__, post: napi_env__)
    requires
        pre.wf(),
        post.values@.len() >= pre.values@.len(),
        post.values@[0] == pre.values@[0],
        post.values@[1] == pre.values@[1],
        post.infos@ == pre.infos@,
        post.pending_exception matches Some(e) ==> post.valid_value(post.pending_exception->Some_0),
    ensures
        post.wf(),
{
    assert forall|i: int| 0 <= i < post.infos.len() implies post.info_ok(i) by {
        assert(pre.info_ok(i));
        assert forall|j: int|
            0 <= j < post.infos[i].args.len() implies post.valid_value(
            #[trigger] post.infos[i].args[j],
        ) by {
            assert(pre.valid_value(pre.infos[i].args[j]));
        }
    }
}

/// The value store grew by exactly one record; everything else but the
/// diagnostic state is unchanged.
pub open spec fn extends_with_one(pre: napi_env__, post: napi_env__) -> bool {
    &&& post.env_id == pre.env_id
    &&& post.values.len() == pre.values.len() + 1
    &&& forall|i: int| 0 <= i < pre.values.len() ==> post.values[i] == pre.values[i]
    &&& post.infos == pre.infos
    &&& post.pending_exception == pre.pending_exception
    &&& post.registered == pre.registered
}

/// Host entry point: construct a host string value from a raw byte buffer
/// and an explicit byte length.  The host copies exactly `length` bytes;
/// whether a terminator follows them is irrelevant to it, so embedded
/// multi-byte sequences are carried through untruncated.  The caller owes
/// the host a length within the buffer, exactly as with the real call.
pub fn napi_create_string_utf8(env: &mut napi_env__, bytes: &[u8], length: usize) -> (r: (
    napi_status,
    Value,
))
    requires
        old(env).wf(),
        length <= bytes@.len(),
    ensures
        r.0 == napi_status::napi_ok,
        extends_with_one(*old(env), *final(env)),
        final(env).last_error_message == old(env).last_error_message,
        final(env).calls@ == old(env).calls@ + 1,
        r.1.id == old(env).values.len(),
        final(env).valid_value(r.1),
        final(env).kind_of(r.1) matches ValueKind::StringUtf8(b) && b@ == bytes@.subrange(
            0,
            length as int,
        ),
        final(env).wf(),
{
    proof {
        env.calls@ = env.calls@ + 1;
    }
    let stored: Vec<u8> = vstd::slice::slice_to_vec(vstd::slice::slice_subrange(bytes, 0, length));
    let id = env.values.len();
    env.values.push(napi_value__ { kind: ValueKind::StringUtf8(stored) });
    proof {
        lemma_wf_preserved(*old(env), *env);
    }
    (napi_status::napi_ok, Value { id })
}

/// Host entry point: construct a callable host value.  The registration
/// record stores the display name and the opaque data slot, which this
/// layer always fills with a callback lookup key.
pub fn napi_create_function(env: &mut napi_env__, name: &str, data: usize) -> (r: (
    napi_status,
    Value,
))
    requires
        old(env).wf(),
    ensures
        r.0 == napi_status::napi_ok,
        extends_with_one(*old(env), *final(env)),
        final(env).last_error_message == old(env).last_error_message,
        final(env).calls@ == old(env).calls@ + 1,
        r.1.id == old(env).values.len(),
        final(env).valid_value(r.1),
        final(env).kind_of(r.1) matches ValueKind::Function { name: n, data: d } && n@ == name@
            && d == data,
        final(env).wf(),
{
    proof {
        env.calls@ = env.calls@ + 1;
    }
    let id = env.values.len();
    env.values.push(napi_value__ { kind: ValueKind::Function { name: name.to_owned(), data } });
    proof {
        lemma_wf_preserved(*old(env), *env);
    }
    (napi_status::napi_ok, Value { id })
}

/// Host entry point: construct a fresh, empty host object value.
pub fn napi_create_object(env: &mut napi_env__) -> (r: (napi_status, Value))
    requires
        old(env).wf(),
    ensures
        r.0 == napi_status::napi_ok,
        extends_with_one(*old(env), *final(env)),
        final(env).last_error_message == old(env).last_error_message,
        final(env).calls@ == old(env).calls@ + 1,
        r.1.id == old(env).values.len(),
        final(env).valid_value(r.1),
        final(env).kind_of(r.1) matches ValueKind::Object(ps) && ps@.len() == 0,
        final(env).props_map(r.1) == Map::<Seq<char>, Value>::empty(),
        final(env).wf(),
{
    proof {
        env.calls@ = env.calls@ + 1;
    }
    let id = env.values.len();
    env.values.push(napi_value__ { kind: ValueKind::Object(Vec::new()) });
    proof {
        lemma_wf_preserved(*old(env), *env);
    }
    (napi_status::napi_ok, Value { id })
}

/// Host entry point: attach `value` to `object` under the property key
/// `name`.  A handle outside the store fails with `napi_invalid_arg`; a
/// target the host does not treat as an object fails with
/// `napi_object_expected`; both leave the object untouched.
pub fn napi_set_named_property(
    env: &mut napi_env__,
    object: Value,
    name: &str,
    value: Value,
) -> (r: napi_status)
    requires
        old(env).wf(),
    ensures
        final(env).calls@ == old(env).calls@ + 1,
        final(env).env_id == old(env).env_id,
        final(env).infos == old(env).infos,
        final(env).pending_exception == old(env).pending_exception,
        final(env).registered == old(env).registered,
        final(env).values.len() == old(env).values.len(),
        final(env).wf(),
        !(old(env).valid_value(object) && old(env).valid_value(value)) ==> {
            &&& r == napi_status::napi_invalid_arg
            &&& final(env).values@ == old(env).values@
            &&& final(env).last_error_message@ == "invalid argument"@
        },
        old(env).valid_value(object) && old(env).valid_value(value) && !(old(env).kind_of(object)
            is Object) ==> {
            &&& r == napi_status::napi_object_expected
            &&& final(env).values@ == old(env).values@
            &&& final(env).last_error_message@ == "object expected"@
        },
        old(env).valid_value(object) && old(env).valid_value(value) && old(env).kind_of(object)
            is Object ==> {
            &&& r == napi_status::napi_ok
            &&& final(env).last_error_message == old(env).last_error_message
            &&& final(env).kind_of(object) is Object
            &&& final(env).props_map(object) == old(env).props_map(object).insert(name@, value)
            &&& forall|i: int|
                0 <= i < old(env).values.len() && i != object.id ==> final(env).values[i] == old(
                    env,
                ).values[i]
        },
{
    proof {
        env.calls@ = env.calls@ + 1;
    }
    if object.id >= env.values.len() || value.id >= env.values.len() {
        env.last_error_message = "invalid argument".to_owned();
        proof {
            lemma_wf_preserved(*old(env), *env);
        }
        return napi_status::napi_invalid_arg;
    }
    let ghost pre_kind = env.values@[object.id as int].kind;
    let slot = &mut env.values[object.id];
    let attached: bool = match &mut slot.kind {
        ValueKind::Object(props) => {
            props.push((name.to_owned(), value));
            true
        },
        _ => false,
    };
    if attached {
        proof {
            let ps = env.values@[object.id as int].kind->Object_0;
            assert(ps@.drop_last() =~= pre_kind->Object_0@);
            assert(assoc_map(ps@) == assoc_map(pre_kind->Object_0@).insert(name@, value));
            assert(object.id != 0 && object.id != 1);
            lemma_wf_preserved(*old(env), *env);
        }
        napi_status::napi_ok
    } else {
        env.last_error_message = "object expected".to_owned();
        proof {
            assert(env.values@ =~= old(env).values@);
            lemma_wf_preserved(*old(env), *env);
        }
        napi_status::napi_object_expected
    }
}

} // verus!
