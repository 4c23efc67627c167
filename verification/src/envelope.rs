//! The uniform outcome type returned by every operation, and the closed set
//! of status codes it can carry.

use vstd::prelude::*;
use vstd::string::StringExecFns;

verus! {

/// The operation fully succeeded.
pub const CODE_SUCCESS: u16 = 0;

/// No handler is registered under the given id.
pub const CODE_NO_HANDLER: u16 = 10001;

/// The guest callable returned a value that has no JSON text.
pub const CODE_INVALID_RETURN: u16 = 10002;

/// The wrapped source is not a valid module.
pub const CODE_COMPILE_ERROR: u16 = 10003;

/// The guest callable raised an error while it ran.
pub const CODE_RUNTIME_ERROR: u16 = 10004;

/// The engine's output is not a result envelope.
pub const CODE_RESULT_DECODE_ERROR: u16 = 10005;

pub const MSG_SUCCEEDED: &'static str = "Execution Succeeded";

pub const MSG_NO_HANDLER: &'static str = "No handler found";

pub const MSG_INVALID_RETURN: &'static str =
    "The return value is invalid. The return value should be able to be formatted as JSON";

pub const MSG_COMPILE_ERROR: &'static str = "The handler source could not be compiled: ";

pub const MSG_RUNTIME_ERROR: &'static str = "The handler raised an error: ";

pub const MSG_RESULT_DECODE_ERROR: &'static str = "The engine output is not a result envelope: ";

/// Mathematical content of an [`ExecResult`].
pub struct Envelope {
    pub code: int,
    pub result: Seq<char>,
    pub message: Seq<char>,
}

/// Outcome of one operation: a status code, a payload and a description.
#[derive(Debug, Clone, PartialEq, Eq)]
pub struct ExecResult {
    pub code: u16,
    pub result: String,
    pub message: String,
}

impl View for ExecResult {
    type V = Envelope;

    open spec fn view(&self) -> Envelope {
        Envelope { code: self.code as int, result: self.result@, message: self.message@ }
    }
}

/// Success with the payload `result`.
pub open spec fn success_envelope(result: Seq<char>) -> Envelope {
    Envelope { code: CODE_SUCCESS as int, result, message: MSG_SUCCEEDED@ }
}

/// The reply to an id under which nothing is registered.
pub open spec fn no_handler_envelope() -> Envelope {
    Envelope { code: CODE_NO_HANDLER as int, result: Seq::empty(), message: MSG_NO_HANDLER@ }
}

/// The reply to a module that the engine could not compile; `detail` is the engine's report.
pub open spec fn compile_failure_envelope(detail: Seq<char>) -> Envelope {
    Envelope {
        code: CODE_COMPILE_ERROR as int,
        result: Seq::empty(),
        message: MSG_COMPILE_ERROR@ + detail,
    }
}

/// The reply to a callable that raised an error; `detail` is the engine's report.
pub open spec fn runtime_failure_envelope(detail: Seq<char>) -> Envelope {
    Envelope {
        code: CODE_RUNTIME_ERROR as int,
        result: Seq::empty(),
        message: MSG_RUNTIME_ERROR@ + detail,
    }
}

/// The reply to engine output that is not a result envelope; `detail` says
/// what is wrong with it.
pub open spec fn decode_failure_envelope(detail: Seq<char>) -> Envelope {
    Envelope {
        code: CODE_RESULT_DECODE_ERROR as int,
        result: Seq::empty(),
        message: MSG_RESULT_DECODE_ERROR@ + detail,
    }
}

/// What holds of every outcome of an execution: the payload is present
/// exactly when the code reports success.
pub open spec fn is_exec_outcome(e: Envelope) -> bool {
    e.code == CODE_SUCCESS <==> e.result.len() > 0
}

impl ExecResult {
    /// Success with the payload `result`.
    pub fn succeeded(result: String) -> (r: ExecResult)
        ensures
            r@ == success_envelope(result@),
    {
        ExecResult { code: CODE_SUCCESS, result, message: String::from_str(MSG_SUCCEEDED) }
    }

    /// The reply to an id under which nothing is registered.
    pub fn no_handler() -> (r: ExecResult)
        ensures
            r@ == no_handler_envelope(),
    {
        ExecResult {
            code: CODE_NO_HANDLER,
            result: String::new(),
            message: String::from_str(MSG_NO_HANDLER),
        }
    }

    /// The reply to a module that the engine could not compile.
    pub fn compile_failure(detail: &str) -> (r: ExecResult)
        ensures
            r@ == compile_failure_envelope(detail@),
    {
        let mut message = String::from_str(MSG_COMPILE_ERROR);
        message.append(detail);
        ExecResult { code: CODE_COMPILE_ERROR, result: String::new(), message }
    }

    /// The reply to a callable that raised an error.
    pub fn runtime_failure(detail: &str) -> (r: ExecResult)
        ensures
            r@ == runtime_failure_envelope(detail@),
    {
        let mut message = String::from_str(MSG_RUNTIME_ERROR);
        message.append(detail);
        ExecResult { code: CODE_RUNTIME_ERROR, result: String::new(), message }
    }

    /// The reply to engine output that is not a result envelope.
    pub fn decode_failure(detail: &str) -> (r: ExecResult)
        ensures
            r@ == decode_failure_envelope(detail@),
    {
        let mut message = String::from_str(MSG_RESULT_DECODE_ERROR);
        message.append(detail);
        ExecResult { code: CODE_RESULT_DECODE_ERROR, result: String::new(), message }
    }
}

} // verus!
