//! A safety-oriented binding layer between a C-ABI host-callback runtime and
//! application code that registers native functions callable from the host.
//!
//! The host environment itself is external and unverifiable; this crate keeps
//! a precise model of it (`host::napi_env__`) as plain data, and every
//! binding-layer operation — status translation, value construction, callback
//! context assembly, the trampoline, and module registration — is specified
//! and proved against that model.  The raw, unsafe C-ABI shim that drives the
//! same logic inside a real host process lives outside the verified library.

mod context;
mod dispatch;
mod env;
mod host;
mod module;
mod status;

pub use context::CallbackInfo;
pub use dispatch::{callback_dispatch, check_arg_count, DispatchResult};
pub use env::{create_function, create_string_utf8, lemma_create_string_round_trip, set_named_property, Env};
pub use host::{
    get_named_property, get_string_bytes, napi_callback_info__, napi_create_object, napi_env__, napi_status,
    napi_value__, push_callback_info, Value, ValueKind,
};
pub use module::{init, napi_register_module_v1, throw, THROW_CALLBACK_KEY};
pub use status::{translate, Error};
