use code_server::run::{
    health_reply, invocation_for, parse_language, plan_run, reply_for_exit, reply_for_outcome,
    Language, ProcessOutcome, RunPlan, RunRequest,
};
use code_server::store::CodeStore;

fn request(code: &str, language: &str) -> RunRequest {
    RunRequest { code: code.to_string(), language: language.to_string() }
}

#[test]
fn javascript_request_starts_node_with_inline_code() {
    let mut store = CodeStore::new();
    match plan_run(&mut store, &request("console.log(42)", "javascript")) {
        RunPlan::Spawn(inv) => {
            assert_eq!(inv.program, "node");
            assert_eq!(inv.args, vec!["-e".to_string(), "console.log(42)".to_string()]);
        }
        RunPlan::Respond(_) => panic!("expected a process to start"),
    }
}

#[test]
fn typescript_request_starts_ts_node() {
    let mut store = CodeStore::new();
    match plan_run(&mut store, &request("let x: number = 1", "typescript")) {
        RunPlan::Spawn(inv) => {
            assert_eq!(inv.program, "ts-node");
            assert_eq!(inv.args, vec!["-e".to_string(), "let x: number = 1".to_string()]);
        }
        RunPlan::Respond(_) => panic!("expected a process to start"),
    }
}

#[test]
fn successful_javascript_run_replies_stdout() {
    let outcome = ProcessOutcome::Exited {
        success: true,
        stdout: b"42\n".to_vec(),
        stderr: b"ignored".to_vec(),
    };
    let reply = reply_for_outcome(&outcome);
    assert_eq!(reply.status, 200);
    assert_eq!(reply.body, "42\n");
}

#[test]
fn python_request_is_rejected_without_a_process() {
    let mut store = CodeStore::new();
    match plan_run(&mut store, &request("print(1)", "python")) {
        RunPlan::Respond(reply) => {
            assert_eq!(reply.status, 400);
            assert_eq!(reply.body, "Unsupported language");
        }
        RunPlan::Spawn(_) => panic!("no process may start for python"),
    }
    assert_eq!(store.get(), "print(1)");
}

#[test]
fn language_tags_are_matched_exactly() {
    assert_eq!(parse_language(&"javascript".to_string()), Some(Language::JavaScript));
    assert_eq!(parse_language(&"typescript".to_string()), Some(Language::TypeScript));
    assert_eq!(parse_language(&"JavaScript".to_string()), None);
    assert_eq!(parse_language(&"".to_string()), None);
    assert_eq!(parse_language(&"javascript ".to_string()), None);
}

#[test]
fn failing_run_replies_stderr() {
    let outcome = ProcessOutcome::Exited {
        success: false,
        stdout: b"partial".to_vec(),
        stderr: b"SyntaxError: Unexpected token".to_vec(),
    };
    let reply = reply_for_outcome(&outcome);
    assert_eq!(reply.status, 500);
    assert_eq!(reply.body, "SyntaxError: Unexpected token");
}

#[test]
fn spawn_failure_replies_internal_error() {
    let reply = reply_for_outcome(&ProcessOutcome::SpawnFailed);
    assert_eq!(reply.status, 500);
    assert_eq!(reply.body, "Failed to execute code");
}

#[test]
fn invalid_utf8_output_is_replaced() {
    let outcome = ProcessOutcome::Exited {
        success: true,
        stdout: vec![b'o', b'k', 0xff],
        stderr: Vec::new(),
    };
    let reply = reply_for_outcome(&outcome);
    assert_eq!(reply.body, "ok\u{FFFD}");
}

#[test]
fn empty_output_gives_empty_body() {
    let outcome = ProcessOutcome::Exited { success: true, stdout: Vec::new(), stderr: Vec::new() };
    let reply = reply_for_outcome(&outcome);
    assert_eq!(reply.status, 200);
    assert_eq!(reply.body, "");
}

#[test]
fn exit_reply_carries_given_text() {
    let ok = reply_for_exit(true, "out".to_string());
    assert_eq!((ok.status, ok.body.as_str()), (200, "out"));
    let failed = reply_for_exit(false, "err".to_string());
    assert_eq!((failed.status, failed.body.as_str()), (500, "err"));
}

#[test]
fn store_read_after_run_returns_submitted_code() {
    let mut store = CodeStore::new();
    store.set("old".to_string());
    let _ = plan_run(&mut store, &request("1+2", "javascript"));
    assert_eq!(store.get(), "1+2");
}

#[test]
fn store_starts_empty() {
    assert_eq!(CodeStore::new().get(), "");
}

#[test]
fn interleaved_runs_keep_their_own_code() {
    let mut store = CodeStore::new();
    let first = plan_run(&mut store, &request("console.log('a')", "javascript"));
    let second = plan_run(&mut store, &request("console.log('b')", "javascript"));
    assert_eq!(store.get(), "console.log('b')");
    match (first, second) {
        (RunPlan::Spawn(a), RunPlan::Spawn(b)) => {
            assert_eq!(a.args[1], "console.log('a')");
            assert_eq!(b.args[1], "console.log('b')");
        }
        _ => panic!("both requests should start a process"),
    }
    let reply_a = reply_for_outcome(&ProcessOutcome::Exited {
        success: true,
        stdout: b"a\n".to_vec(),
        stderr: Vec::new(),
    });
    let reply_b = reply_for_outcome(&ProcessOutcome::Exited {
        success: true,
        stdout: b"b\n".to_vec(),
        stderr: Vec::new(),
    });
    assert_eq!(reply_a.body, "a\n");
    assert_eq!(reply_b.body, "b\n");
}

#[test]
fn invocation_keeps_code_verbatim() {
    let inv = invocation_for(Language::JavaScript, &"a \"quoted\"\nline".to_string());
    assert_eq!(inv.args, vec!["-e".to_string(), "a \"quoted\"\nline".to_string()]);
}

#[test]
fn health_is_fixed_whatever_the_store_holds() {
    let mut store = CodeStore::new();
    let before = health_reply();
    store.set("while(true){}".to_string());
    let after = health_reply();
    assert_eq!((before.status, before.body.as_str()), (200, "Server is running"));
    assert_eq!((after.status, after.body.as_str()), (200, "Server is running"));
}
