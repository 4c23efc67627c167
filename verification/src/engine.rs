//! The boundary to the script engine.
//!
//! The engine itself stays outside this library. The library says what the
//! engine is to run, an [`Invocation`], and turns what the engine reports, a
//! raw output or an [`EngineError`], into the reply to the caller.

use crate::decode::{decode_envelope, envelope_of_text, reason_text};
use crate::envelope::{
    compile_failure_envelope, decode_failure_envelope, is_exec_outcome, runtime_failure_envelope,
    Envelope, ExecResult,
};
use crate::template::{ModuleText, ScriptModule};
use vstd::prelude::*;

verus! {

/// Mathematical content of an [`Invocation`].
pub struct Call {
    pub module: ModuleText,
    pub args: Seq<char>,
}

/// One run of a module's entry point: the module, and the JSON text of the
/// array of arguments that the entry point receives as its one string.
#[derive(Debug, PartialEq, Eq)]
pub struct Invocation {
    pub module: ScriptModule,
    pub args: String,
}

impl View for Invocation {
    type V = Call;

    open spec fn view(&self) -> Call {
        Call { module: self.module@, args: self.args@ }
    }
}

/// Mathematical content of an [`EngineError`].
pub enum Fault {
    Compile(Seq<char>),
    Runtime(Seq<char>),
    NoOutput(Seq<char>),
}

/// Why the engine produced no output; each carries the engine's report.
#[derive(Debug, Clone, PartialEq, Eq)]
pub enum EngineError {
    /// The module's source is not valid.
    Compile(String),
    /// The callable, or the entry point around it, raised an error.
    Runtime(String),
    /// The entry point ended, and what it handed back is not a string.
    NoOutput(String),
}

impl View for EngineError {
    type V = Fault;

    open spec fn view(&self) -> Fault {
        match self {
            EngineError::Compile(detail) => Fault::Compile(detail@),
            EngineError::Runtime(detail) => Fault::Runtime(detail@),
            EngineError::NoOutput(detail) => Fault::NoOutput(detail@),
        }
    }
}

/// The reply to a raw output: the envelope it holds, or the decode failure.
pub open spec fn reply_to_output(output: Seq<char>) -> Envelope {
    match envelope_of_text(output) {
        Ok(envelope) => envelope,
        Err(reason) => decode_failure_envelope(reason_text(reason)),
    }
}

/// The reply to an engine error.
pub open spec fn reply_to_fault(fault: Fault) -> Envelope {
    match fault {
        Fault::Compile(detail) => compile_failure_envelope(detail),
        Fault::Runtime(detail) => runtime_failure_envelope(detail),
        Fault::NoOutput(detail) => decode_failure_envelope(detail),
    }
}

/// The reply to what the engine reported.
pub open spec fn reply_to(outcome: Result<Seq<char>, Fault>) -> Envelope {
    match outcome {
        Ok(output) => reply_to_output(output),
        Err(fault) => reply_to_fault(fault),
    }
}

/// Content of what the engine reported.
pub open spec fn outcome_view(outcome: Result<String, EngineError>) -> Result<Seq<char>, Fault> {
    match outcome {
        Ok(output) => Ok(output@),
        Err(error) => Err(error@),
    }
}

/// Turns what the engine reported into the reply to the caller. No outcome
/// makes this fail: an output that is not an envelope becomes a reply of its
/// own, apart from those for a guest that did not compile or raised an error.
pub fn finish_exec(outcome: Result<String, EngineError>) -> (reply: ExecResult)
    ensures
        reply@ == reply_to(outcome_view(outcome)),
        is_exec_outcome(reply@),
{
    match outcome {
        Ok(output) => match decode_envelope(output.as_str()) {
            Ok(envelope) => envelope,
            Err(reason) => ExecResult::decode_failure(reason.describe()),
        },
        Err(EngineError::Compile(detail)) => ExecResult::compile_failure(detail.as_str()),
        Err(EngineError::Runtime(detail)) => ExecResult::runtime_failure(detail.as_str()),
        Err(EngineError::NoOutput(detail)) => ExecResult::decode_failure(detail.as_str()),
    }
}

} // verus!
