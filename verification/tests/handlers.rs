use script_handlers::{
    create_handler, exec_handler, finish_exec, register_handler, remove_handler, sync_exec,
    wrap_callable, ExecResult, ExecStep, HandlerRegistry, Invocation, ScriptModule,
};

fn envelope(code: u16, result: &str, message: &str) -> ExecResult {
    ExecResult { code, result: result.to_string(), message: message.to_string() }
}

fn invocation(filename: &str, code: &str, args: &str) -> Invocation {
    Invocation {
        module: ScriptModule { filename: filename.to_string(), contents: wrap_callable(code) },
        args: args.to_string(),
    }
}

#[test]
fn create_replies_with_a_fresh_id() {
    let mut registry = HandlerRegistry::new();
    let reply = create_handler(&mut registry, "() => 1".to_string());
    assert_eq!(reply.code, 0);
    assert_eq!(reply.message, "Execution Succeeded");
    assert_eq!(registry.len(), 1);
    assert!(registry.contains(&reply.result));
    assert_eq!(
        registry.lookup(&reply.result),
        Some(ScriptModule::for_handler(&reply.result, "() => 1"))
    );
}

#[test]
fn created_id_is_a_hyphenated_lower_case_uuid() {
    let mut registry = HandlerRegistry::new();
    for _ in 0..20 {
        let id = create_handler(&mut registry, "f".to_string()).result;
        let chars: Vec<char> = id.chars().collect();
        assert_eq!(chars.len(), 36);
        for (i, c) in chars.iter().enumerate() {
            if i == 8 || i == 13 || i == 18 || i == 23 {
                assert_eq!(*c, '-');
            } else {
                assert!(matches!(*c, '0'..='9' | 'a'..='f'));
            }
        }
        assert_eq!(chars[14], '4');
    }
}

#[test]
fn created_ids_differ() {
    let mut registry = HandlerRegistry::new();
    let first = create_handler(&mut registry, "f".to_string()).result;
    let second = create_handler(&mut registry, "f".to_string()).result;
    assert_ne!(first, second);
    assert_eq!(registry.len(), 2);
}

#[test]
fn create_accepts_any_source() {
    let mut registry = HandlerRegistry::new();
    let reply = create_handler(&mut registry, "this is ) not a callable".to_string());
    assert_eq!(reply.code, 0);
    assert!(registry.contains(&reply.result));
    let reply = create_handler(&mut registry, String::new());
    assert_eq!(reply.code, 0);
    assert_eq!(registry.len(), 2);
}

#[test]
fn register_stores_the_wrapped_source_under_the_id() {
    let mut registry = HandlerRegistry::new();
    let reply = register_handler(&mut registry, "id-1".to_string(), "x => x".to_string());
    assert_eq!(reply, envelope(0, "id-1", "Execution Succeeded"));
    assert_eq!(
        registry.lookup("id-1"),
        Some(ScriptModule {
            filename: "id-1.js".to_string(),
            contents: wrap_callable("x => x"),
        })
    );
}

#[test]
fn register_under_a_used_id_overwrites() {
    let mut registry = HandlerRegistry::new();
    register_handler(&mut registry, "id".to_string(), "f".to_string());
    register_handler(&mut registry, "id".to_string(), "g".to_string());
    assert_eq!(registry.len(), 1);
    assert_eq!(
        exec_handler(&registry, "id".to_string(), "[]".to_string()),
        ExecStep::Run(invocation("id.js", "g", "[]"))
    );
}

#[test]
fn exec_of_a_registered_id_asks_to_run_its_module() {
    let mut registry = HandlerRegistry::new();
    register_handler(&mut registry, "id".to_string(), "(a, b) => a + b".to_string());
    let step = exec_handler(&registry, "id".to_string(), "[2, 3]".to_string());
    assert_eq!(step, ExecStep::Run(invocation("id.js", "(a, b) => a + b", "[2, 3]")));
}

#[test]
fn exec_can_be_repeated_and_leaves_the_registry() {
    let mut registry = HandlerRegistry::new();
    register_handler(&mut registry, "id".to_string(), "f".to_string());
    let first = exec_handler(&registry, "id".to_string(), "[1]".to_string());
    let second = exec_handler(&registry, "id".to_string(), "[2]".to_string());
    assert_eq!(first, ExecStep::Run(invocation("id.js", "f", "[1]")));
    assert_eq!(second, ExecStep::Run(invocation("id.js", "f", "[2]")));
    assert_eq!(registry.len(), 1);
}

#[test]
fn exec_hands_the_arguments_on_as_they_are() {
    let mut registry = HandlerRegistry::new();
    register_handler(&mut registry, "id".to_string(), "f".to_string());
    let step = exec_handler(&registry, "id".to_string(), "not even json".to_string());
    assert_eq!(step, ExecStep::Run(invocation("id.js", "f", "not even json")));
}

#[test]
fn exec_of_an_unknown_id_finds_no_handler() {
    let registry = HandlerRegistry::new();
    assert_eq!(
        exec_handler(&registry, "nobody".to_string(), "[]".to_string()),
        ExecStep::Done(envelope(10001, "", "No handler found"))
    );
}

#[test]
fn exec_of_an_unknown_id_does_not_depend_on_the_registry_size() {
    let mut registry = HandlerRegistry::new();
    for n in 0..200 {
        assert_eq!(registry.len(), n);
        assert_eq!(
            exec_handler(&registry, "never-created".to_string(), "[]".to_string()),
            ExecStep::Done(envelope(10001, "", "No handler found"))
        );
        create_handler(&mut registry, format!("() => {}", n));
    }
}

#[test]
fn remove_replies_with_the_id() {
    let mut registry = HandlerRegistry::new();
    let id = create_handler(&mut registry, "f".to_string()).result;
    assert_eq!(remove_handler(&mut registry, id.clone()), envelope(0, &id, "Execution Succeeded"));
    assert_eq!(registry.len(), 0);
}

#[test]
fn remove_of_an_unknown_id_finds_no_handler() {
    let mut registry = HandlerRegistry::new();
    register_handler(&mut registry, "id".to_string(), "f".to_string());
    assert_eq!(
        remove_handler(&mut registry, "other".to_string()),
        envelope(10001, "", "No handler found")
    );
    assert_eq!(registry.len(), 1);
    assert_eq!(registry.lookup("id"), Some(ScriptModule::for_handler("id", "f")));
}

#[test]
fn remove_twice_finds_no_handler_the_second_time() {
    let mut registry = HandlerRegistry::new();
    register_handler(&mut registry, "id".to_string(), "f".to_string());
    assert_eq!(remove_handler(&mut registry, "id".to_string()).code, 0);
    assert_eq!(remove_handler(&mut registry, "id".to_string()).code, 10001);
}

#[test]
fn removed_handler_is_not_found_and_others_stay() {
    let mut registry = HandlerRegistry::new();
    let first = create_handler(&mut registry, "f".to_string()).result;
    let second = create_handler(&mut registry, "g".to_string()).result;
    let before = exec_handler(&registry, second.clone(), "[1]".to_string());
    assert_eq!(remove_handler(&mut registry, first.clone()).code, 0);
    assert_eq!(
        exec_handler(&registry, first, "[1]".to_string()),
        ExecStep::Done(envelope(10001, "", "No handler found"))
    );
    let after = exec_handler(&registry, second.clone(), "[1]".to_string());
    assert_eq!(after, before);
    assert_eq!(after, ExecStep::Run(invocation(&format!("{}.js", second), "g", "[1]")));
}

#[test]
fn sync_exec_asks_to_run_the_module_once() {
    let call = sync_exec("async function test() { return 'hello world'; }".to_string(), "[]".to_string());
    assert_eq!(
        call,
        invocation("temp.js", "async function test() { return 'hello world'; }", "[]")
    );
}

#[test]
fn sync_exec_runs_the_source_that_a_handler_would_run() {
    let code = "(a, b) => a * b";
    let args = "[6, 7]";
    let mut registry = HandlerRegistry::new();
    let id = create_handler(&mut registry, code.to_string()).result;
    let step = exec_handler(&registry, id.clone(), args.to_string());
    let once = sync_exec(code.to_string(), args.to_string());
    match step {
        ExecStep::Run(call) => {
            assert_eq!(call.module.contents, once.module.contents);
            assert_eq!(call.args, once.args);
        }
        ExecStep::Done(_) => panic!("the handler was registered"),
    }
    assert_eq!(remove_handler(&mut registry, id).code, 0);
    assert_eq!(registry.len(), 0);
    let output = r#"{"result":"42","code":0,"message":"Execution Succeeded"}"#;
    assert_eq!(finish_exec(Ok(output.to_string())).result, "42");
}

#[test]
fn many_handlers_do_not_mix() {
    let mut registry = HandlerRegistry::new();
    let mut ids = Vec::new();
    for n in 0..64 {
        ids.push(create_handler(&mut registry, format!("() => {}", n)).result);
    }
    assert_eq!(registry.len(), 64);
    for (n, id) in ids.iter().enumerate().rev() {
        let step = exec_handler(&registry, id.clone(), format!("[{}]", n));
        assert_eq!(
            step,
            ExecStep::Run(invocation(
                &format!("{}.js", id),
                &format!("() => {}", n),
                &format!("[{}]", n)
            ))
        );
    }
}

#[test]
fn sum_of_two_numbers_comes_back_as_five() {
    let mut registry = HandlerRegistry::new();
    let created = create_handler(&mut registry, "(a, b) => a + b".to_string());
    assert_eq!(created.code, 0);
    let step = exec_handler(&registry, created.result.clone(), "[2, 3]".to_string());
    assert_eq!(
        step,
        ExecStep::Run(invocation(&format!("{}.js", created.result), "(a, b) => a + b", "[2, 3]"))
    );
    let output = r#"{"result":"5","code":0,"message":"Execution Succeeded"}"#.to_string();
    assert_eq!(finish_exec(Ok(output)), envelope(0, "5", "Execution Succeeded"));
}

#[test]
fn value_with_a_cycle_comes_back_as_invalid() {
    let mut registry = HandlerRegistry::new();
    let created = create_handler(&mut registry, "() => ({ self: null })".to_string());
    assert_eq!(created.code, 0);
    let step = exec_handler(&registry, created.result, "[]".to_string());
    assert!(matches!(step, ExecStep::Run(_)));
    let output = r#"{"result":"","code":10002,"message":"The return value is invalid. The return value should be able to be formatted as JSON"}"#.to_string();
    assert_eq!(
        finish_exec(Ok(output)),
        envelope(
            10002,
            "",
            "The return value is invalid. The return value should be able to be formatted as JSON"
        )
    );
}
