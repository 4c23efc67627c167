use script_handlers::envelope::{
    CODE_INVALID_RETURN, CODE_SUCCESS, MSG_INVALID_RETURN, MSG_SUCCEEDED,
};
use script_handlers::template::{
    HANDLER_EXTENSION, ONE_SHOT_FILENAME, TEMPLATE_HEAD, TEMPLATE_TAIL,
};
use script_handlers::{wrap_callable, ScriptModule};

#[test]
fn wrap_puts_source_between_head_and_tail() {
    let source = wrap_callable("f");
    assert_eq!(source, format!("{}f{}", TEMPLATE_HEAD, TEMPLATE_TAIL));
}

#[test]
fn wrap_gives_the_exact_module_text() {
    let expected = "export default async (params) => {
  params = JSON.parse(params);
  let res = await (
(a, b) => a + b
  )(...params);
  try {
    const text = JSON.stringify(res);
    if (typeof text !== 'string') {
      throw new TypeError('no JSON text');
    }
    return JSON.stringify({
      result: text,
      code: 0,
      message: 'Execution Succeeded'
    });
  } catch (error) {
    return JSON.stringify({
      result: '',
      code: 10002,
      message: 'The return value is invalid. The return value should be able to be formatted as JSON'
    });
  }
}";
    assert_eq!(wrap_callable("(a, b) => a + b"), expected);
}

#[test]
fn wrap_keeps_the_source_as_it_is() {
    let code = "async function f(x) { return { \"k\": `${x}` }; } // {}\n";
    let source = wrap_callable(code);
    assert!(source.starts_with(TEMPLATE_HEAD));
    assert!(source.ends_with(TEMPLATE_TAIL));
    assert_eq!(&source[TEMPLATE_HEAD.len()..source.len() - TEMPLATE_TAIL.len()], code);
}

#[test]
fn wrap_of_empty_source_is_head_and_tail() {
    assert_eq!(wrap_callable(""), format!("{}{}", TEMPLATE_HEAD, TEMPLATE_TAIL));
}

#[test]
fn wrap_does_not_depend_on_earlier_calls() {
    let first = wrap_callable("g");
    let _ = wrap_callable("something else");
    assert_eq!(wrap_callable("g"), first);
}

#[test]
fn template_calls_the_source_with_spread_arguments() {
    assert!(TEMPLATE_HEAD.contains("JSON.parse(params)"));
    assert!(TEMPLATE_HEAD.ends_with("await (\n"));
    assert!(TEMPLATE_TAIL.starts_with("\n  )(...params);"));
    assert!(TEMPLATE_TAIL.contains("code: 10002"));
    assert!(TEMPLATE_TAIL.contains("code: 0"));
}

#[test]
fn handler_module_is_named_after_its_id() {
    let module = ScriptModule::for_handler("abc", "f");
    assert_eq!(module.filename, "abc.js");
    assert_eq!(module.filename, format!("abc{}", HANDLER_EXTENSION));
    assert_eq!(module.contents, wrap_callable("f"));
}

#[test]
fn one_shot_module_has_the_fixed_name() {
    let module = ScriptModule::one_shot("f");
    assert_eq!(module.filename, "temp.js");
    assert_eq!(module.filename, ONE_SHOT_FILENAME);
    assert_eq!(module.contents, wrap_callable("f"));
}

#[test]
fn module_clone_is_equal() {
    let module = ScriptModule::for_handler("id", "() => 1");
    let copy = module.clone();
    assert_eq!(copy, module);
}

#[test]
fn template_writes_the_codes_and_messages_of_the_library() {
    assert!(TEMPLATE_TAIL.contains(&format!("code: {},", CODE_SUCCESS)));
    assert!(TEMPLATE_TAIL.contains(&format!("message: '{}'", MSG_SUCCEEDED)));
    assert!(TEMPLATE_TAIL.contains(&format!("code: {},", CODE_INVALID_RETURN)));
    assert!(TEMPLATE_TAIL.contains(&format!("message: '{}'", MSG_INVALID_RETURN)));
}
