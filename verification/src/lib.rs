//! A registry of script handlers.
//!
//! A caller hands in the source of a callable. The library wraps it into a
//! self-contained module, keeps the module under a fresh id, and later says
//! what the script engine is to run for that id and turns the engine's report
//! into a reply of three fields: a code, a result and a message. A callable
//! can also be run once without being registered.
//!
//! The script engine is not part of the library: [`exec_handler`] and
//! [`sync_exec`] end with an [`Invocation`], and [`finish_exec`] takes up
//! what the engine made of it.

pub mod decode;
pub mod engine;
pub mod envelope;
pub mod handlers;
pub mod ident;
pub mod json;
pub mod laws;
pub mod registry;
pub mod template;

pub use decode::{decode_envelope, envelope_from_fields, envelope_from_value, DecodeError};
pub use engine::{finish_exec, EngineError, Invocation};
pub use envelope::ExecResult;
pub use handlers::{
    create_handler, exec_handler, register_handler, remove_handler, sync_exec, ExecStep,
};
pub use registry::HandlerRegistry;
pub use template::{wrap_callable, ScriptModule};
