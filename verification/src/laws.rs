//! What holds of the operations taken together, stated over their models and
//! proved once for all registries, ids, sources and arguments.

use crate::decode::envelope_of_text;
use crate::engine::{reply_to, Call, Fault};
use crate::envelope::{
    is_exec_outcome, no_handler_envelope, CODE_COMPILE_ERROR, CODE_INVALID_RETURN,
    CODE_NO_HANDLER, CODE_RESULT_DECODE_ERROR, CODE_RUNTIME_ERROR, CODE_SUCCESS,
};
use crate::handlers::{after_register, after_remove, exec_step, one_shot_call, remove_reply, Step};
use crate::template::{handler_module, wrapped, ModuleText};
use vstd::prelude::*;

verus! {

/// Executing a handler that was just registered runs the wrapped callable
/// with the caller's arguments, whatever the registry held before.
pub proof fn lemma_registered_handler_runs(
    handlers: Map<Seq<char>, ModuleText>,
    id: Seq<char>,
    code: Seq<char>,
    args: Seq<char>,
)
    ensures
        exec_step(after_register(handlers, id, code), id, args) == Step::Run(
            Call { module: handler_module(id, code), args },
        ),
        handler_module(id, code).contents == wrapped(code),
{
}

/// An output that holds an envelope comes back as that envelope: with code 0
/// the reply carries the result that the module wrote, character by character.
pub proof fn lemma_envelope_passes_through(output: Seq<char>)
    ensures
        envelope_of_text(output) matches Ok(envelope) ==> reply_to(Ok(output)) == envelope,
{
}

/// After a handler is removed, executing its id finds no handler, and
/// executing any other id takes the step it took before.
pub proof fn lemma_removed_handler_not_found(
    handlers: Map<Seq<char>, ModuleText>,
    id: Seq<char>,
    other: Seq<char>,
    args: Seq<char>,
)
    requires
        other != id,
    ensures
        exec_step(after_remove(handlers, id), id, args) == Step::Done(no_handler_envelope()),
        exec_step(after_remove(handlers, id), other, args) == exec_step(handlers, other, args),
        after_remove(handlers, id).contains_key(other) == handlers.contains_key(other),
{
}

/// Removing an id that is not registered changes nothing and says so.
pub proof fn lemma_remove_of_unknown_id(handlers: Map<Seq<char>, ModuleText>, id: Seq<char>)
    requires
        !handlers.contains_key(id),
    ensures
        after_remove(handlers, id) == handlers,
        remove_reply(handlers, id) == no_handler_envelope(),
{
    assert(after_remove(handlers, id) =~= handlers);
}

/// Executing an id that is not registered finds no handler, however many
/// handlers the registry holds.
pub proof fn lemma_unknown_id_not_found(
    handlers: Map<Seq<char>, ModuleText>,
    id: Seq<char>,
    args: Seq<char>,
)
    requires
        !handlers.contains_key(id),
    ensures
        exec_step(handlers, id, args) == Step::Done(no_handler_envelope()),
{
}

/// Running a callable once hands the engine the same source and the same
/// arguments as registering it and executing it does, and removing the
/// handler afterwards leaves a registry that did not know the id as it was
/// before. Both paths turn the engine's report into the reply by the same
/// function, [`reply_to`].
pub proof fn lemma_one_shot_matches_registered(
    handlers: Map<Seq<char>, ModuleText>,
    id: Seq<char>,
    code: Seq<char>,
    args: Seq<char>,
)
    ensures
        exec_step(after_register(handlers, id, code), id, args) matches Step::Run(call)
            && call.module.contents == one_shot_call(code, args).module.contents
            && call.args == one_shot_call(code, args).args,
        !handlers.contains_key(id) ==> after_remove(after_register(handlers, id, code), id)
            == handlers,
{
    if !handlers.contains_key(id) {
        assert(after_remove(after_register(handlers, id, code), id) =~= handlers);
    }
}

/// The handlers after registering each entry of `entries`, an id and a
/// source, in order.
pub open spec fn after_register_all(
    handlers: Map<Seq<char>, ModuleText>,
    entries: Seq<(Seq<char>, Seq<char>)>,
) -> Map<Seq<char>, ModuleText>
    decreases entries.len(),
{
    if entries.len() == 0 {
        handlers
    } else {
        after_register(
            after_register_all(handlers, entries.drop_last()),
            entries.last().0,
            entries.last().1,
        )
    }
}

/// Whether no id occurs twice in `entries`.
pub open spec fn ids_distinct(entries: Seq<(Seq<char>, Seq<char>)>) -> bool {
    forall|i: int, j: int|
        0 <= i < j < entries.len() ==> (#[trigger] entries[i]).0 != (#[trigger] entries[j]).0
}

/// Handlers do not mix: after any number of handlers were registered under
/// ids that differ, executing each id runs the module of its own callable
/// with the arguments given for it, and an id that was not among them takes
/// the step it took before.
pub proof fn lemma_handlers_are_isolated(
    handlers: Map<Seq<char>, ModuleText>,
    entries: Seq<(Seq<char>, Seq<char>)>,
)
    requires
        ids_distinct(entries),
    ensures
        forall|i: int, args: Seq<char>|
            0 <= i < entries.len() ==> #[trigger] exec_step(
                after_register_all(handlers, entries),
                entries[i].0,
                args,
            ) == Step::Run(Call { module: handler_module(entries[i].0, entries[i].1), args }),
        forall|id: Seq<char>, args: Seq<char>|
            (forall|i: int| 0 <= i < entries.len() ==> (#[trigger] entries[i]).0 != id)
                ==> #[trigger] exec_step(after_register_all(handlers, entries), id, args)
                == exec_step(handlers, id, args),
    decreases entries.len(),
{
    if entries.len() > 0 {
        let front = entries.drop_last();
        assert forall|i: int, j: int| 0 <= i < j < front.len() implies (#[trigger] front[i]).0 != (
        #[trigger] front[j]).0 by {
            assert(front[i] == entries[i]);
            assert(front[j] == entries[j]);
        }
        lemma_handlers_are_isolated(handlers, front);
        let before = after_register_all(handlers, front);
        let after = after_register_all(handlers, entries);
        assert forall|i: int, args: Seq<char>| 0 <= i < entries.len() implies #[trigger] exec_step(
            after,
            entries[i].0,
            args,
        ) == Step::Run(Call { module: handler_module(entries[i].0, entries[i].1), args }) by {
            if i < entries.len() - 1 {
                assert(front[i] == entries[i]);
                assert(entries[i].0 != entries[entries.len() - 1].0);
                assert(exec_step(before, front[i].0, args) == Step::Run(
                    Call { module: handler_module(front[i].0, front[i].1), args },
                ));
            }
        }
        assert forall|id: Seq<char>, args: Seq<char>|
            (forall|i: int| 0 <= i < entries.len() ==> (#[trigger] entries[i]).0 != id)
                implies #[trigger] exec_step(after, id, args) == exec_step(handlers, id, args) by {
            assert forall|i: int| 0 <= i < front.len() implies (#[trigger] front[i]).0 != id by {
                assert(front[i] == entries[i]);
            }
            assert(entries[entries.len() - 1].0 != id);
            assert(exec_step(before, id, args) == exec_step(handlers, id, args));
        }
    }
}

/// Every reply to an execution carries a result exactly when its code is 0,
/// whatever the engine reported.
pub proof fn lemma_exec_reply_is_consistent(outcome: Result<Seq<char>, Fault>)
    ensures
        is_exec_outcome(reply_to(outcome)),
{
}

/// The codes of the library, in the order in which they were assigned.
pub open spec fn all_codes() -> Seq<int> {
    seq![
        CODE_SUCCESS as int,
        CODE_NO_HANDLER as int,
        CODE_INVALID_RETURN as int,
        CODE_COMPILE_ERROR as int,
        CODE_RUNTIME_ERROR as int,
        CODE_RESULT_DECODE_ERROR as int,
    ]
}

/// A guest that did not compile, a guest that raised an error and an output
/// that is not an envelope each get a reply with a code of its own, and no
/// two codes of the library are equal.
pub proof fn lemma_failures_are_told_apart(detail: Seq<char>, output: Seq<char>)
    ensures
        reply_to(Err(Fault::Compile(detail))).code == CODE_COMPILE_ERROR,
        reply_to(Err(Fault::Runtime(detail))).code == CODE_RUNTIME_ERROR,
        reply_to(Err(Fault::NoOutput(detail))).code == CODE_RESULT_DECODE_ERROR,
        envelope_of_text(output) is Err ==> reply_to(Ok(output)).code
            == CODE_RESULT_DECODE_ERROR,
        all_codes().no_duplicates(),
{
}

} // verus!
