use napi_bind::{
    callback_dispatch, check_arg_count, create_function, create_string_utf8, get_named_property,
    get_string_bytes, napi_create_object, napi_env__, napi_register_module_v1, napi_status,
    push_callback_info, set_named_property, throw, translate, CallbackInfo, DispatchResult, Env,
    Value, ValueKind, THROW_CALLBACK_KEY,
};

fn fresh_host() -> (Env, napi_env__) {
    (Env::from(7), napi_env__::new(7))
}

// A status equal to the success sentinel passes the supplied value through
// unchanged and touches nothing.
#[test]
fn translate_ok_passes_value_through() {
    let (env, mut host) = fresh_host();
    host.last_error_message = String::from("stale diagnostic");
    let r: Result<u32, _> = translate(env, &mut host, napi_status::napi_ok, 42u32);
    assert_eq!(r.unwrap(), 42);
    // No further host call: the stale diagnostic was not even read.
    assert_eq!(host.last_error_message, "stale diagnostic");
    assert!(host.pending_exception.is_none());
}

// A failing status yields an error carrying exactly the diagnostic the
// host reported at the moment of failure.
#[test]
fn translate_failure_snapshots_diagnostic() {
    let (env, mut host) = fresh_host();
    host.last_error_message = String::from("something went wrong");
    let r: Result<(), _> = translate(env, &mut host, napi_status::napi_generic_failure, ());
    let err = r.err().expect("non-ok status must translate to an error");
    assert_eq!(err.message(), "something went wrong");
}

// The diagnostic of a real failing operation travels through translation.
#[test]
fn translate_failure_from_real_operation() {
    let (env, mut host) = fresh_host();
    let text = create_string_utf8(env, &mut host, "not an object").unwrap();
    let arbitrary = env.undefined(&mut host);
    let r = set_named_property(env, &mut host, text, "key", arbitrary);
    let err = r.err().expect("a string is not object-capable");
    assert_eq!(err.message(), "object expected");
}

#[test]
fn translate_failure_invalid_handle() {
    let (env, mut host) = fresh_host();
    let dangling = Value { id: 999 };
    let value = env.null(&mut host);
    let r = set_named_property(env, &mut host, dangling, "key", value);
    let err = r.err().expect("a dangling handle must be rejected");
    assert_eq!(err.message(), "invalid argument");
}

#[test]
fn undefined_and_null_are_distinct_fixed_values() {
    let (env, mut host) = fresh_host();
    let u = env.undefined(&mut host);
    let n = env.null(&mut host);
    assert_ne!(u, n);
    assert_eq!(u, env.undefined(&mut host));
    assert!(matches!(host.values[u.id].kind, ValueKind::Undefined));
    assert!(matches!(host.values[n.id].kind, ValueKind::Null));
}

#[test]
fn exception_pending_tracks_host_state() {
    let (env, mut host) = fresh_host();
    assert!(!env.is_exception_pending(&mut host));
    host.pending_exception = Some(Value { id: 1 });
    assert!(env.is_exception_pending(&mut host));
}

// Round trip: the bytes read back are exactly the bytes of the text, for
// ASCII and for multi-byte UTF-8 sequences alike.
#[test]
fn create_string_round_trip_ascii() {
    let (env, mut host) = fresh_host();
    let v = create_string_utf8(env, &mut host, "hello").unwrap();
    let b = get_string_bytes(&host, v).expect("a string value was constructed");
    assert_eq!(b.as_slice(), b"hello");
}

#[test]
fn create_string_round_trip_multibyte() {
    let (env, mut host) = fresh_host();
    let text = "na\u{ef}ve caf\u{e9} \u{1F600}";
    let v = create_string_utf8(env, &mut host, text).unwrap();
    let b = get_string_bytes(&host, v).expect("a string value was constructed");
    // Byte length, not character count, is what the host stores.
    assert_eq!(b.len(), text.len());
    assert_ne!(text.len(), text.chars().count());
    assert_eq!(b.as_slice(), text.as_bytes());
}

#[test]
fn create_string_empty() {
    let (env, mut host) = fresh_host();
    let v = create_string_utf8(env, &mut host, "").unwrap();
    let b = get_string_bytes(&host, v).expect("a string value was constructed");
    assert!(b.is_empty());
}

// Callback Context indexing: indices below the supplied count yield the
// arguments in call order; every other index yields undefined.
#[test]
fn context_indexing_in_and_out_of_range() {
    let (env, mut host) = fresh_host();
    let a = create_string_utf8(env, &mut host, "first").unwrap();
    let b = create_string_utf8(env, &mut host, "second").unwrap();
    let undefined = env.undefined(&mut host);
    let ci = CallbackInfo {
        env,
        info: 0,
        this: env.null(&mut host),
        args: vec![a, b],
        undefined,
    };
    assert_eq!(ci.len(), 2);
    assert_eq!(ci.index(0), a);
    assert_eq!(ci.index(1), b);
    assert_eq!(ci.index(2), undefined);
    assert_eq!(ci.index(usize::MAX), undefined);
}

fn succeed_with_this(info: &CallbackInfo, host: napi_env__) -> (napi_env__, Result<Value, Value>) {
    let v = info.this();
    (host, Ok(v))
}

// Trampoline success path: the callback's value is handed back to the
// host as the call's result, with no pending exception raised.
#[test]
fn trampoline_success_path() {
    let (env, mut host) = fresh_host();
    let receiver = env.null(&mut host);
    let info = push_callback_info(&mut host, receiver, vec![], None, 0);
    let (after, r) = callback_dispatch(env, host, info, succeed_with_this);
    assert_eq!(r, DispatchResult::Return(receiver));
    assert!(after.pending_exception.is_none());
}

// Trampoline failure path: the callback's error value becomes the pending
// host exception and the host sees the failure sentinel.
#[test]
fn trampoline_failure_path() {
    let (env, mut host) = fresh_host();
    let receiver = env.null(&mut host);
    let thrown = create_string_utf8(env, &mut host, "boom").unwrap();
    let info = push_callback_info(&mut host, receiver, vec![thrown], None, THROW_CALLBACK_KEY);
    let (after, r) = callback_dispatch(env, host, info, throw);
    assert_eq!(r, DispatchResult::Threw);
    assert_eq!(after.pending_exception, Some(thrown));
}

// With no argument supplied, the throw callback throws the context's
// undefined value.
#[test]
fn trampoline_throw_without_argument() {
    let (env, mut host) = fresh_host();
    let receiver = env.null(&mut host);
    let undefined = env.undefined(&mut host);
    let info = push_callback_info(&mut host, receiver, vec![], None, THROW_CALLBACK_KEY);
    let (after, r) = callback_dispatch(env, host, info, throw);
    assert_eq!(r, DispatchResult::Threw);
    assert_eq!(after.pending_exception, Some(undefined));
}

// An invocation record the host does not know is a fatal binding fault,
// not a normal error.
#[test]
fn trampoline_unknown_invocation_is_fatal() {
    let (env, mut host) = fresh_host();
    let _ = env.undefined(&mut host);
    let (_, r) = callback_dispatch(env, host, 99, throw);
    assert_eq!(r, DispatchResult::Fatal);
}

// Argument-count consistency: agreeing counts release the buffer; any
// contradiction is refused.
#[test]
fn arg_count_agreement_releases_buffer() {
    let args = vec![Value { id: 0 }, Value { id: 1 }];
    let out = check_arg_count(2, 2, args.clone()).expect("consistent counts must pass");
    assert_eq!(out, args);
}

#[test]
fn arg_count_contradiction_is_refused() {
    let args = vec![Value { id: 0 }, Value { id: 1 }];
    assert!(check_arg_count(2, 3, args.clone()).is_none());
    assert!(check_arg_count(3, 3, args.clone()).is_none());
    assert!(check_arg_count(2, 1, args).is_none());
}

// The registrar hands back the very exports object it received, augmented
// with the registered function, and leaves the once-only mark set.
#[test]
fn registrar_returns_same_exports_augmented() {
    let (env, mut host) = fresh_host();
    let (status, exports) = napi_create_object(&mut host);
    assert_eq!(status, napi_status::napi_ok);
    assert!(!host.registered);
    let returned = napi_register_module_v1(env, &mut host, exports);
    assert_eq!(returned, exports);
    assert!(host.registered);
    let fv = get_named_property(&host, exports, "throw").expect("initialization attached it");
    match &host.values[fv.id].kind {
        ValueKind::Function { name, data } => {
            assert_eq!(name, "throw");
            assert_eq!(*data, THROW_CALLBACK_KEY);
        },
        other => panic!("expected a function value, found {:?}", other),
    }
}

// A function value registered through the binding layer carries only the
// lookup key in its data slot, and dispatch through that key reaches the
// registered callback.
#[test]
fn registered_function_dispatches_by_key() {
    let (env, mut host) = fresh_host();
    let (_, exports) = napi_create_object(&mut host);
    let _ = napi_register_module_v1(env, &mut host, exports);
    let fv = get_named_property(&host, exports, "throw").unwrap();
    let key = match &host.values[fv.id].kind {
        ValueKind::Function { data, .. } => *data,
        _ => panic!("expected a function value"),
    };
    // The host invokes the function: it prepares an invocation record
    // carrying the data slot, and the shim resolves the key to the
    // registered callback before entering the trampoline.
    let receiver = env.null(&mut host);
    let arg = create_string_utf8(env, &mut host, "thrown value").unwrap();
    let info = push_callback_info(&mut host, receiver, vec![arg], None, key);
    assert_eq!(key, THROW_CALLBACK_KEY);
    let (after, r) = callback_dispatch(env, host, info, throw);
    assert_eq!(r, DispatchResult::Threw);
    assert_eq!(after.pending_exception, Some(arg));
}

// Property shadowing: attaching under an existing key replaces what a
// lookup finds.
#[test]
fn set_named_property_shadows_earlier_entry() {
    let (env, mut host) = fresh_host();
    let (_, obj) = napi_create_object(&mut host);
    let first = create_string_utf8(env, &mut host, "first").unwrap();
    let second = create_string_utf8(env, &mut host, "second").unwrap();
    set_named_property(env, &mut host, obj, "key", first).unwrap();
    set_named_property(env, &mut host, obj, "key", second).unwrap();
    assert_eq!(get_named_property(&host, obj, "key"), Some(second));
    assert_eq!(get_named_property(&host, obj, "missing"), None);
}

// The constructor-call target comes back for constructor-style calls and
// defaults to undefined for plain calls.
#[test]
fn new_target_present_and_absent() {
    let (env, mut host) = fresh_host();
    let receiver = env.null(&mut host);
    let target = create_string_utf8(env, &mut host, "ctor").unwrap();
    let undefined = env.undefined(&mut host);

    let plain = push_callback_info(&mut host, receiver, vec![], None, 0);
    let ci = CallbackInfo {
        env,
        info: plain,
        this: receiver,
        args: vec![],
        undefined,
    };
    assert_eq!(ci.new_target(&mut host), undefined);

    let ctor = push_callback_info(&mut host, receiver, vec![], Some(target), 0);
    let ci = CallbackInfo {
        env,
        info: ctor,
        this: receiver,
        args: vec![],
        undefined,
    };
    assert_eq!(ci.new_target(&mut host), target);
}

// A callback failing while an exception is already pending cannot raise a
// second one: the call path is abandoned as fatal and the earlier
// exception stands.
#[test]
fn trampoline_double_throw_is_fatal() {
    let (env, mut host) = fresh_host();
    let receiver = env.null(&mut host);
    let earlier = create_string_utf8(env, &mut host, "earlier").unwrap();
    let later = create_string_utf8(env, &mut host, "later").unwrap();
    let info = push_callback_info(&mut host, receiver, vec![later], None, THROW_CALLBACK_KEY);
    host.pending_exception = Some(earlier);
    let (after, r) = callback_dispatch(env, host, info, throw);
    assert_eq!(r, DispatchResult::Fatal);
    assert_eq!(after.pending_exception, Some(earlier));
}

#[test]
fn create_function_records_name_and_key() {
    let (env, mut host) = fresh_host();
    let fv = create_function(env, &mut host, "compute", 5).unwrap();
    match &host.values[fv.id].kind {
        ValueKind::Function { name, data } => {
            assert_eq!(name, "compute");
            assert_eq!(*data, 5);
        },
        other => panic!("expected a function value, found {:?}", other),
    }
}
