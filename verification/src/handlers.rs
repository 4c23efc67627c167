//! The four operations: create, execute and remove a registered handler, and
//! run a callable once without registering it.
//!
//! Running a module is the engine's work, outside this library. So the two
//! operations that execute come in two steps: the first says what is to run,
//! and [`crate::engine::finish_exec`] turns what the engine reported into the
//! reply. Between the two the registry is not needed: the invocation holds a
//! copy of the module.

use crate::engine::{Call, Invocation};
use crate::envelope::{no_handler_envelope, success_envelope, Envelope, ExecResult};
use crate::ident::{fresh_id, is_handler_id};
use crate::registry::HandlerRegistry;
use crate::template::{handler_module, one_shot_module, ModuleText, ScriptModule};
use vstd::prelude::*;

verus! {

/// Mathematical content of an [`ExecStep`].
pub enum Step {
    Run(Call),
    Done(Envelope),
}

/// What executing a handler asks for next.
#[derive(Debug, PartialEq, Eq)]
pub enum ExecStep {
    /// The engine is to run this invocation; its report goes to
    /// [`crate::engine::finish_exec`].
    Run(Invocation),
    /// Nothing is to run: this is the reply.
    Done(ExecResult),
}

impl View for ExecStep {
    type V = Step;

    open spec fn view(&self) -> Step {
        match self {
            ExecStep::Run(invocation) => Step::Run(invocation@),
            ExecStep::Done(reply) => Step::Done(reply@),
        }
    }
}

/// The handlers after registering the callable `code` under `id`.
pub open spec fn after_register(
    handlers: Map<Seq<char>, ModuleText>,
    id: Seq<char>,
    code: Seq<char>,
) -> Map<Seq<char>, ModuleText> {
    handlers.insert(id, handler_module(id, code))
}

/// The step that executing `id` with `args` takes.
pub open spec fn exec_step(
    handlers: Map<Seq<char>, ModuleText>,
    id: Seq<char>,
    args: Seq<char>,
) -> Step {
    if handlers.contains_key(id) {
        Step::Run(Call { module: handlers[id], args })
    } else {
        Step::Done(no_handler_envelope())
    }
}

/// The handlers after removing `id`.
pub open spec fn after_remove(handlers: Map<Seq<char>, ModuleText>, id: Seq<char>) -> Map<
    Seq<char>,
    ModuleText,
> {
    handlers.remove(id)
}

/// The reply to removing `id`.
pub open spec fn remove_reply(handlers: Map<Seq<char>, ModuleText>, id: Seq<char>) -> Envelope {
    if handlers.contains_key(id) {
        success_envelope(id)
    } else {
        no_handler_envelope()
    }
}

/// The invocation that runs the callable `code` once with `args`.
pub open spec fn one_shot_call(code: Seq<char>, args: Seq<char>) -> Call {
    Call { module: one_shot_module(code), args }
}

/// Registers the callable `code` under the given id, in place of what stood
/// there before, and replies with the id. The callable is wrapped, not run.
pub fn register_handler(registry: &mut HandlerRegistry, id: String, code: String) -> (reply:
    ExecResult)
    ensures
        final(registry)@ == after_register(old(registry)@, id@, code@),
        reply@ == success_envelope(id@),
{
    let module = ScriptModule::for_handler(id.as_str(), code.as_str());
    registry.insert(id.clone(), module);
    ExecResult::succeeded(id)
}

/// Registers the callable `code` under a fresh random id and replies with
/// that id. This always succeeds: a source that is not a callable is only
/// found out when the handler is executed.
pub fn create_handler(registry: &mut HandlerRegistry, code: String) -> (reply: ExecResult)
    ensures
        is_handler_id(reply@.result),
        reply@ == success_envelope(reply@.result),
        final(registry)@ == after_register(old(registry)@, reply@.result, code@),
{
    let id = fresh_id();
    register_handler(registry, id, code)
}

/// First step of executing the handler `uuid` with `args`, the JSON text of
/// an array of arguments: the invocation to run, with a copy of the handler's
/// module, or the reply that no handler was found. The registry is unchanged.
pub fn exec_handler(registry: &HandlerRegistry, uuid: String, args: String) -> (step: ExecStep)
    ensures
        step@ == exec_step(registry@, uuid@, args@),
{
    match registry.lookup(uuid.as_str()) {
        Some(module) => ExecStep::Run(Invocation { module, args }),
        None => ExecStep::Done(ExecResult::no_handler()),
    }
}

/// Removes the handler `uuid` and replies with its id, or replies that no
/// handler was found and leaves the registry as it was.
pub fn remove_handler(registry: &mut HandlerRegistry, uuid: String) -> (reply: ExecResult)
    ensures
        final(registry)@ == after_remove(old(registry)@, uuid@),
        reply@ == remove_reply(old(registry)@, uuid@),
{
    match registry.remove(uuid.as_str()) {
        Some(_) => ExecResult::succeeded(uuid),
        None => ExecResult::no_handler(),
    }
}

/// First step of running the callable `code` once with `args`: the
/// invocation to run. No registry is involved.
pub fn sync_exec(code: String, args: String) -> (invocation: Invocation)
    ensures
        invocation@ == one_shot_call(code@, args@),
{
    Invocation { module: ScriptModule::one_shot(code.as_str()), args }
}

} // verus!
