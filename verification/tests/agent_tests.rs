use blart::agent::{run_scripted, AgentError, AgentState, Decision, RunResult, MAX_TOOL_CALLS};
use blart::chat::{
    check_choices, normalize_response, ChatResponse, Choice, ChoiceScan, Message, ResponseScan,
    ToolCall, ToolFunctionCall, Usage,
};

fn content_msg(text: &str) -> Message {
    Message {
        role: "assistant".to_string(),
        content: Some(text.to_string()),
        tool_calls: None,
        tool_call_id: None,
    }
}

fn call(id: &str) -> ToolCall {
    ToolCall {
        id: id.to_string(),
        tool_type: "function".to_string(),
        function: ToolFunctionCall {
            name: "read_file".to_string(),
            arguments: "{\"path\":\"x\"}".to_string(),
        },
    }
}

fn tool_call_msg(ids: &[&str]) -> Message {
    Message {
        role: "assistant".to_string(),
        content: None,
        tool_calls: Some(ids.iter().map(|id| call(id)).collect()),
        tool_call_id: None,
    }
}

fn single_call_script(n: usize, final_text: &str) -> Vec<Message> {
    let mut script: Vec<Message> = Vec::new();
    for i in 0..n {
        script.push(tool_call_msg(&[&format!("call-{}", i)]));
    }
    script.push(content_msg(final_text));
    script
}

fn count_tool_messages(state: &AgentState) -> usize {
    state.transcript.iter().filter(|m| m.role == "tool").count()
}

#[test]
fn fresh_state_holds_system_and_user() {
    let s = AgentState::new("sys".to_string(), "usr".to_string());
    assert_eq!(s.transcript.len(), 2);
    assert_eq!(s.transcript[0].role, "system");
    assert_eq!(s.transcript[0].content.as_deref(), Some("sys"));
    assert_eq!(s.transcript[1].role, "user");
    assert_eq!(s.transcript[1].content.as_deref(), Some("usr"));
    assert_eq!(s.tool_calls_used, 0);
}

#[test]
fn scripted_run_within_budget_succeeds_with_trimmed_content() {
    for n in [0usize, 1, 3, MAX_TOOL_CALLS] {
        let mut state = AgentState::new("s".to_string(), "u".to_string());
        let script = single_call_script(n, "  the answer  ");
        let outputs: Vec<String> = (0..n).map(|i| format!("out-{}", i)).collect();
        match run_scripted(&mut state, &script, &outputs) {
            RunResult::Done(text) => assert_eq!(text, "the answer"),
            _ => panic!("expected success for n={}", n),
        }
        assert_eq!(count_tool_messages(&state), n);
        assert_eq!(state.tool_calls_used, n);
    }
}

#[test]
fn scripted_run_past_budget_fails_after_exactly_eight_executions() {
    for n in [MAX_TOOL_CALLS + 1, MAX_TOOL_CALLS + 4] {
        let mut state = AgentState::new("s".to_string(), "u".to_string());
        let script = single_call_script(n, "never reached");
        match run_scripted(&mut state, &script, &Vec::new()) {
            RunResult::Failed(AgentError::ToolCallLimitExceeded) => {},
            _ => panic!("expected a budget failure for n={}", n),
        }
        assert_eq!(count_tool_messages(&state), MAX_TOOL_CALLS);
    }
}

#[test]
fn budget_counts_calls_across_batches() {
    // Three responses carrying three calls each: the ninth call of the third
    // batch would pass the ceiling.
    let script = vec![
        tool_call_msg(&["a1", "a2", "a3"]),
        tool_call_msg(&["b1", "b2", "b3"]),
        tool_call_msg(&["c1", "c2", "c3"]),
        content_msg("done"),
    ];
    let mut state = AgentState::new("s".to_string(), "u".to_string());
    match run_scripted(&mut state, &script, &Vec::new()) {
        RunResult::Failed(AgentError::ToolCallLimitExceeded) => {},
        _ => panic!("expected a budget failure"),
    }
    assert_eq!(count_tool_messages(&state), MAX_TOOL_CALLS);
}

#[test]
fn every_tool_message_answers_its_call_in_order() {
    let script = vec![tool_call_msg(&["id-a", "id-b"]), content_msg("fine")];
    let outputs = vec!["first output".to_string(), "second output".to_string()];
    let mut state = AgentState::new("s".to_string(), "u".to_string());
    match run_scripted(&mut state, &script, &outputs) {
        RunResult::Done(text) => assert_eq!(text, "fine"),
        _ => panic!("expected success"),
    }
    // Transcript order is strictly system, user, (assistant, tool*)*.
    let roles: Vec<&str> = state.transcript.iter().map(|m| m.role.as_str()).collect();
    assert_eq!(roles, vec!["system", "user", "assistant", "tool", "tool", "assistant"]);
    assert_eq!(state.transcript[3].tool_call_id.as_deref(), Some("id-a"));
    assert_eq!(state.transcript[3].content.as_deref(), Some("first output"));
    assert_eq!(state.transcript[4].tool_call_id.as_deref(), Some("id-b"));
    assert_eq!(state.transcript[4].content.as_deref(), Some("second output"));
}

#[test]
fn empty_and_placeholder_replies_fail_the_run() {
    for bad in [None, Some("   "), Some(""), Some("<no content>")] {
        let mut state = AgentState::new("s".to_string(), "u".to_string());
        let d = state.accept_assistant(bad.map(|b| b.to_string()), None);
        match d {
            Decision::Fail(AgentError::EmptyResponse) => {},
            _ => panic!("expected an empty-response failure for {:?}", bad),
        }
    }
    // Whitespace around real content is trimmed, not fatal.
    let mut state = AgentState::new("s".to_string(), "u".to_string());
    match state.accept_assistant(Some("  ok  ".to_string()), None) {
        Decision::Finish(text) => assert_eq!(text, "ok"),
        _ => panic!("expected success"),
    }
}

#[test]
fn error_messages_match_their_conditions() {
    assert_eq!(
        AgentError::ToolCallLimitExceeded.message(),
        "Tool call limit exceeded (max 8)."
    );
    assert_eq!(
        AgentError::EmptyResponse.message(),
        "Model returned an empty response with no tool calls."
    );
}

fn plain_scan(has_content: bool, has_tool_calls: bool) -> ResponseScan {
    ResponseScan {
        top_error: None,
        first_choice: Some(ChoiceScan {
            finish_reason: Some("stop".to_string()),
            has_content,
            has_tool_calls,
            error_text: None,
            rendered: "{}".to_string(),
        }),
    }
}

#[test]
fn top_level_errors_are_fatal() {
    let scan = ResponseScan { top_error: Some("boom".to_string()), first_choice: None };
    assert_eq!(normalize_response(&scan).unwrap_err(), "OpenAI API error: boom");
}

#[test]
fn irregular_choices_are_normalized() {
    let mut scan = plain_scan(false, false);
    assert_eq!(
        normalize_response(&scan).unwrap_err(),
        "OpenAI API error: finish_reason=stop response={}"
    );
    if let Some(c) = scan.first_choice.as_mut() {
        c.error_text = Some("inner".to_string());
    }
    assert_eq!(normalize_response(&scan).unwrap_err(), "OpenAI API error: inner");
    let mut err_reason = plain_scan(true, false);
    if let Some(c) = err_reason.first_choice.as_mut() {
        c.finish_reason = Some("error".to_string());
    }
    assert_eq!(
        normalize_response(&err_reason).unwrap_err(),
        "OpenAI API error: finish_reason=error response={}"
    );
}

#[test]
fn regular_choices_pass_normalization() {
    assert!(normalize_response(&plain_scan(true, false)).is_ok());
    assert!(normalize_response(&plain_scan(false, true)).is_ok());
    assert!(normalize_response(&ResponseScan { top_error: None, first_choice: None }).is_ok());
}

#[test]
fn responses_without_choices_are_rejected() {
    let resp = ChatResponse {
        id: "r".to_string(),
        object: "chat.completion".to_string(),
        created: 0,
        model: "m".to_string(),
        choices: vec![],
        usage: Usage { prompt_tokens: 0, completion_tokens: 0, total_tokens: 0 },
    };
    assert_eq!(check_choices(&resp).unwrap_err(), "OpenAI API error: empty choices array");
    let ok = ChatResponse {
        id: "r".to_string(),
        object: "chat.completion".to_string(),
        created: 0,
        model: "m".to_string(),
        choices: vec![Choice {
            index: 0,
            message: content_msg("hello"),
            finish_reason: "stop".to_string(),
        }],
        usage: Usage { prompt_tokens: 1, completion_tokens: 2, total_tokens: 3 },
    };
    assert!(check_choices(&ok).is_ok());
}

#[test]
fn an_empty_call_batch_executes_nothing() {
    let script = vec![
        Message {
            role: "assistant".to_string(),
            content: None,
            tool_calls: Some(Vec::new()),
            tool_call_id: None,
        },
        content_msg("done"),
    ];
    let mut state = AgentState::new("s".to_string(), "u".to_string());
    match run_scripted(&mut state, &script, &Vec::new()) {
        RunResult::Done(text) => assert_eq!(text, "done"),
        _ => panic!("expected success"),
    }
    assert_eq!(count_tool_messages(&state), 0);
    assert_eq!(state.tool_calls_used, 0);
}

#[test]
fn a_script_that_runs_out_is_reported() {
    let script = vec![tool_call_msg(&["only"])];
    let mut state = AgentState::new("s".to_string(), "u".to_string());
    match run_scripted(&mut state, &script, &vec!["out".to_string()]) {
        RunResult::OutOfScript => {},
        _ => panic!("expected the script to run out"),
    }
    assert_eq!(count_tool_messages(&state), 1);
}
