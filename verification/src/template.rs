//! The fixed wrapping that turns the source of a callable into a
//! self-contained module.
//!
//! The module's default export takes one string, the JSON text of an array of
//! arguments. It parses the array, calls the callable with the array's items
//! as positional arguments, awaits the value and answers with the JSON text of
//! an object `{result, code, message}`: code 0 and the JSON text of the value,
//! or code 10002 and an empty result when the value has no JSON text. An error
//! raised by the callable itself is not caught: it rejects the entry point.
//! The callable is only named in the module, never run while wrapping.

use vstd::prelude::*;
use vstd::string::StringExecFns;

verus! {

/// Module text in front of the callable's source.
pub const TEMPLATE_HEAD: &'static str = "export default async (params) => {
  params = JSON.parse(params);
  let res = await (
";

/// Module text behind the callable's source.
pub const TEMPLATE_TAIL: &'static str = "
  )(...params);
  try {
    const text = JSON.stringify(res);
    if (typeof text !== 'string') {
      throw new TypeError('no JSON text');
    }
    return JSON.stringify({
      result: text,
      code: 0,
      message: 'Execution Succeeded'
    });
  } catch (error) {
    return JSON.stringify({
      result: '',
      code: 10002,
      message: 'The return value is invalid. The return value should be able to be formatted as JSON'
    });
  }
}";

/// Extension of a registered handler's file name.
pub const HANDLER_EXTENSION: &'static str = ".js";

/// File name of a module that runs once without being registered.
pub const ONE_SHOT_FILENAME: &'static str = "temp.js";

/// The module text for the callable `code`.
pub open spec fn wrapped(code: Seq<char>) -> Seq<char> {
    TEMPLATE_HEAD@ + code + TEMPLATE_TAIL@
}

/// Mathematical content of a [`ScriptModule`].
pub struct ModuleText {
    pub filename: Seq<char>,
    pub contents: Seq<char>,
}

/// The module registered under `id` for the callable `code`.
pub open spec fn handler_module(id: Seq<char>, code: Seq<char>) -> ModuleText {
    ModuleText { filename: id + HANDLER_EXTENSION@, contents: wrapped(code) }
}

/// The module that runs the callable `code` once.
pub open spec fn one_shot_module(code: Seq<char>) -> ModuleText {
    ModuleText { filename: ONE_SHOT_FILENAME@, contents: wrapped(code) }
}

/// A named piece of module source, ready to be handed to the script engine.
#[derive(Debug, PartialEq, Eq)]
pub struct ScriptModule {
    pub filename: String,
    pub contents: String,
}

impl View for ScriptModule {
    type V = ModuleText;

    open spec fn view(&self) -> ModuleText {
        ModuleText { filename: self.filename@, contents: self.contents@ }
    }
}

impl Clone for ScriptModule {
    fn clone(&self) -> (copy: ScriptModule)
        ensures
            copy@ == self@,
    {
        ScriptModule { filename: self.filename.clone(), contents: self.contents.clone() }
    }
}

/// Wraps the source of a callable into the text of a module.
pub fn wrap_callable(code: &str) -> (source: String)
    ensures
        source@ == wrapped(code@),
{
    let mut source = String::from_str(TEMPLATE_HEAD);
    source.append(code);
    source.append(TEMPLATE_TAIL);
    source
}

impl ScriptModule {
    /// The module registered under `id` for the callable `code`.
    pub fn for_handler(id: &str, code: &str) -> (module: ScriptModule)
        ensures
            module@ == handler_module(id@, code@),
    {
        let mut filename = String::from_str(id);
        filename.append(HANDLER_EXTENSION);
        ScriptModule { filename, contents: wrap_callable(code) }
    }

    /// The module that runs the callable `code` once.
    pub fn one_shot(code: &str) -> (module: ScriptModule)
        ensures
            module@ == one_shot_module(code@),
    {
        ScriptModule { filename: String::from_str(ONE_SHOT_FILENAME), contents: wrap_callable(code) }
    }
}

} // verus!
