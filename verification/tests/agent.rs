use invoicevault::constants::AGENT_MAX_ITERATIONS;
use invoicevault::agent::{
    agent_loop_start, agent_loop_step, apply_tool_call_delta, audit_action, audit_after_confirmed, confirmed_call_arguments, continue_step, ContinueError, JsonArgs, catalog_flags, catalog_tool_names,
    confirmation_note, confirmed_tool_message, content_delta_event, finish_tool_calls,
    last_tool_call_message, llm_user_content, message_content_for_model, next_sse_event,
    session_title_from_message, sse_append, sse_event_data, streamed_content, tool_gate,
    tool_message_content, unknown_tool_message, AgentMessageRow, AgentStreamEvent, AuditKind, ContinueAction,
    LoopAction, LoopEvent, LoopPhase, ToolCallAccumulator, ToolCallDelta, ToolCallFunctionDelta,
    ToolGate, ToolOutcome,
};

fn s(v: &str) -> String {
    v.to_owned()
}

fn msg(role: &str, calls: bool) -> AgentMessageRow {
    AgentMessageRow {
        id: 1,
        session_id: 1,
        role: s(role),
        content: s(""),
        tool_call_json: if calls { Some(s("[]")) } else { None },
        tool_call_id: None,
        created_at: s("0"),
        attachments: Vec::new(),
    }
}

#[test]
fn a_turn_runs_tools_in_order_then_asks_again() {
    let s0 = agent_loop_start();
    let (s1, a1) = agent_loop_step(&s0, &LoopEvent::Start);
    assert!(a1 == LoopAction::SendRequest);
    assert_eq!(s1.llm_calls, 1);
    let (s2, a2) = agent_loop_step(&s1, &LoopEvent::Reply { tool_calls: 2 });
    assert!(a2 == LoopAction::ExecuteTool { index: 0 });
    let (s3, a3) = agent_loop_step(&s2, &LoopEvent::ToolDone { outcome: ToolOutcome::Success });
    assert!(a3 == LoopAction::RecordAndExecute { index: 1 });
    let (s4, a4) = agent_loop_step(&s3, &LoopEvent::ToolDone { outcome: ToolOutcome::Error });
    assert!(a4 == LoopAction::RecordAndSend);
    assert_eq!(s4.llm_calls, 2);
    let (s5, a5) = agent_loop_step(&s4, &LoopEvent::Reply { tool_calls: 0 });
    assert!(a5 == LoopAction::Finish);
    assert!(s5.phase == LoopPhase::Finished);
}

#[test]
fn a_turn_gives_up_after_the_request_limit() {
    let mut st = agent_loop_start();
    let (n, _) = agent_loop_step(&st, &LoopEvent::Start);
    st = n;
    let mut last = LoopAction::SendRequest;
    let mut requests = 1;
    for _ in 0..AGENT_MAX_ITERATIONS + 5 {
        if st.phase != LoopPhase::AwaitReply {
            break;
        }
        let (n, _) = agent_loop_step(&st, &LoopEvent::Reply { tool_calls: 1 });
        let (n2, a) = agent_loop_step(&n, &LoopEvent::ToolDone { outcome: ToolOutcome::Success });
        if a == LoopAction::RecordAndSend {
            requests += 1;
        }
        last = a;
        st = n2;
    }
    assert!(last == LoopAction::RecordAndGiveUp);
    assert_eq!(requests, AGENT_MAX_ITERATIONS);
    assert_eq!(AGENT_MAX_ITERATIONS, 20);
    assert!(st.phase == LoopPhase::GaveUp);
}

#[test]
fn a_confirmation_ends_the_turn() {
    let s0 = agent_loop_start();
    let (s1, _) = agent_loop_step(&s0, &LoopEvent::Start);
    let (s2, _) = agent_loop_step(&s1, &LoopEvent::Reply { tool_calls: 3 });
    let (s3, a) = agent_loop_step(&s2, &LoopEvent::ToolDone { outcome: ToolOutcome::ConfirmationRequired });
    assert!(a == LoopAction::AskConfirmation);
    assert!(s3.phase == LoopPhase::AwaitingConfirmation);
}

#[test]
fn tool_messages_and_notes() {
    assert_eq!(tool_message_content(&ToolOutcome::Error, "boom"), "Error: boom");
    assert_eq!(tool_message_content(&ToolOutcome::Success, "{}"), "{}");
    assert_eq!(confirmation_note(true), "已确认执行之前的操作。");
    assert_eq!(confirmation_note(false), "已取消之前的操作。");
    assert_eq!(confirmed_tool_message(false, &ToolOutcome::Success, "x"), "用户取消了此操作。");
    assert_eq!(confirmed_tool_message(true, &ToolOutcome::ConfirmationRequired, "x"), "操作需要额外确认，请重试。");
    assert_eq!(audit_action("export_logs", &AuditKind::Rejected), "tool:export_logs:rejected");
    assert_eq!(audit_action("x", &AuditKind::Ran), "tool:x");
    assert_eq!(unknown_tool_message("fly"), "未知工具: fly");
}

#[test]
fn turn_inputs() {
    let history = vec![msg("user", false), msg("assistant", true), msg("tool", false), msg("assistant", false)];
    assert_eq!(last_tool_call_message(&history), Some(1));
    assert_eq!(last_tool_call_message(&vec![msg("user", true)]), None);
    assert_eq!(llm_user_content("看看", Some("附件: a.xlsx")), "看看\n\n附件: a.xlsx");
    assert_eq!(llm_user_content("看看", Some("")), "看看");
    assert_eq!(session_title_from_message("一二三四五六七八九十一二三四五六七八九十一二三四五六七八九十多"), "一二三四五六七八九十一二三四五六七八九十一二三四五六七八九十");
    assert_eq!(message_content_for_model(""), None);
    assert_eq!(message_content_for_model("hi"), Some(s("hi")));
}

#[test]
fn gated_tools_need_confirmation() {
    assert!(tool_gate("export_invoices", false) == ToolGate::AskConfirmation);
    assert!(tool_gate("export_invoices", true) == ToolGate::Run);
    assert!(tool_gate("search_invoices", false) == ToolGate::Run);
    assert!(tool_gate("launch_rockets", true) == ToolGate::Unknown);
    let f = catalog_flags("update_invoice").expect("known");
    assert!(!f.is_read_only && f.requires_confirmation);
    let f = catalog_flags("set_theme").expect("known");
    assert!(!f.is_read_only && !f.requires_confirmation);
    assert!(catalog_flags("nope").is_none());
}

#[test]
fn stream_buffer_splits_events() {
    let buf = sse_append("data: {\"a\":1}\r\n", b"\r\ndata: [DONE]\r\n\r\n");
    assert_eq!(buf, "data: {\"a\":1}\n\ndata: [DONE]\n\n");
    let (ev, rest) = next_sse_event(&buf).expect("event");
    assert_eq!(ev, "data: {\"a\":1}");
    assert_eq!(rest, "data: [DONE]\n\n");
    assert_eq!(format!("{ev}\n\n{rest}"), buf);
    let (payloads, done) = sse_event_data(&ev);
    assert_eq!(payloads, vec![s("{\"a\":1}")]);
    assert!(!done);
    let (payloads, done) = sse_event_data("event: x\n  data:   \ndata:p1\ndata: [DONE]\ndata: p2");
    assert_eq!(payloads, vec![s("p1")]);
    assert!(done);
    assert!(next_sse_event("data: partial").is_none());
}

#[test]
fn tool_call_fragments_are_assembled() {
    let mut calls: Vec<ToolCallAccumulator> = Vec::new();
    let d = |index: usize, id: Option<&str>, name: Option<&str>, args: Option<&str>| ToolCallDelta {
        index,
        id: id.map(s),
        type_: None,
        function: Some(ToolCallFunctionDelta { name: name.map(s), arguments: args.map(s) }),
    };
    assert_eq!(apply_tool_call_delta(&mut calls, &d(0, Some("c1"), Some("search_"), Some("{\"q\":"))), Some(s("search_")));
    assert_eq!(apply_tool_call_delta(&mut calls, &d(2, None, Some("ask_user"), None)), Some(s("ask_user")));
    assert_eq!(apply_tool_call_delta(&mut calls, &d(0, None, Some("invoices"), Some("1}"))), Some(s("search_invoices")));
    assert_eq!(apply_tool_call_delta(&mut calls, &d(0, None, Some(""), None)), None);
    assert_eq!(calls.len(), 3);
    assert_eq!(calls[0].arguments, "{\"q\":1}");
    let done = finish_tool_calls(calls);
    assert_eq!(done.len(), 2);
    assert_eq!(done[0].id, "c1");
    assert_eq!(done[0].type_, "function");
    assert_eq!(done[0].function.name, "search_invoices");
    assert_eq!(done[1].id, "call_2");
    assert_eq!(done[1].function.arguments, "");
}

#[test]
fn empty_text_is_not_reported() {
    assert_eq!(streamed_content(s("")), None);
    assert_eq!(streamed_content(s("hi")), Some(s("hi")));
    assert!(content_delta_event(s("")).is_none());
    assert!(matches!(content_delta_event(s("x")), Some(AgentStreamEvent::AssistantDelta { .. })));
}

#[test]
fn every_offered_tool_has_flags() {
    let names = catalog_tool_names();
    assert_eq!(names.len(), 26);
    assert_eq!(names[0], "search_invoices");
    assert_eq!(names[25], "get_app_info");
    assert!(names.iter().all(|n| catalog_flags(n).is_some()));
}

#[test]
fn answering_a_confirmation() {
    match continue_step(None, true, false) {
        ContinueAction::AddNote { note } => assert_eq!(note, "已确认执行之前的操作。"),
        _ => panic!("expected a note"),
    }
    match continue_step(None, false, true) {
        ContinueAction::AddNote { note } => assert_eq!(note, "已取消之前的操作。"),
        _ => panic!("expected a note"),
    }
    match continue_step(Some("delete_invoice"), true, true) {
        ContinueAction::RunTool { tool, merge_extra } => {
            assert_eq!(tool, "delete_invoice");
            assert!(merge_extra);
        }
        _ => panic!("expected the tool to run"),
    }
    match continue_step(Some("export_invoices"), true, false) {
        ContinueAction::RunTool { merge_extra, .. } => assert!(!merge_extra),
        _ => panic!("expected the tool to run"),
    }
    match continue_step(Some("delete_invoice"), false, true) {
        ContinueAction::Reject { tool, audit, message } => {
            assert_eq!(tool, "delete_invoice");
            assert_eq!(audit, "tool:delete_invoice:rejected");
            assert_eq!(message, "用户取消了此操作。");
        }
        _ => panic!("expected a rejection"),
    }
    assert_eq!(audit_after_confirmed(&ToolOutcome::Success), Some(AuditKind::Ran));
    assert_eq!(audit_after_confirmed(&ToolOutcome::Error), Some(AuditKind::Failed));
    assert_eq!(audit_after_confirmed(&ToolOutcome::ConfirmationRequired), None);
}

fn object_of(args: JsonArgs) -> std::collections::BTreeMap<String, String> {
    match args {
        JsonArgs::Object(entries) => entries.into_iter().collect(),
        JsonArgs::Other(text) => panic!("expected an object, got {text}"),
    }
}

#[test]
fn confirmed_call_arguments_merge_flag_and_extras() {
    let plain = object_of(confirmed_call_arguments(r#"{"id": 7, "_confirmed": false}"#, None).unwrap());
    assert_eq!(plain.len(), 2);
    assert_eq!(plain["id"], "7");
    assert_eq!(plain["_confirmed"], "true");

    let extra = JsonArgs::Object(vec![(s("path"), s("\"/tmp/out.xlsx\"")), (s("id"), s("8"))]);
    let merged = object_of(confirmed_call_arguments(r#"{"id": 7, "format": "xlsx"}"#, Some(extra)).unwrap());
    assert_eq!(merged.len(), 4);
    assert_eq!(merged["id"], "8");
    assert_eq!(merged["format"], "\"xlsx\"");
    assert_eq!(merged["path"], "\"/tmp/out.xlsx\"");
    assert_eq!(merged["_confirmed"], "true");

    let ignored = object_of(confirmed_call_arguments("{}", Some(JsonArgs::Other(s("[1]")))).unwrap());
    assert_eq!(ignored.len(), 1);

    match confirmed_call_arguments("[1, 2]", None).unwrap() {
        JsonArgs::Other(text) => assert_eq!(text, "[1,2]"),
        JsonArgs::Object(_) => panic!("an array is not an object"),
    }
    assert!(matches!(confirmed_call_arguments("{not json", None), Err(ContinueError::Serialization)));
}
