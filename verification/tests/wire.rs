use hartlab_protocol::{
    agent_step, frame_line, is_blank_line, unframe_line, AgentAction, AgentToHost, HostToAgent,
};

#[test]
fn shutdown_stops() {
    assert_eq!(agent_step(Ok(HostToAgent::Shutdown)), AgentAction::Stop);
}

#[test]
fn reset_and_start_answer_ready() {
    assert_eq!(agent_step(Ok(HostToAgent::Reset)), AgentAction::Send(AgentToHost::Ready));
    assert_eq!(
        agent_step(Ok(HostToAgent::Start { example_id: Some("blinky-rust".into()) })),
        AgentAction::Send(AgentToHost::Ready)
    );
}

#[test]
fn allowed_payload_is_forwarded() {
    assert_eq!(
        agent_step(Ok(HostToAgent::GdbMi { payload: "-exec-continue".into() })),
        AgentAction::Send(AgentToHost::GdbMi { payload: "-exec-continue".into() })
    );
}

#[test]
fn denied_payload_is_answered_fatal() {
    assert_eq!(
        agent_step(Ok(HostToAgent::GdbMi { payload: "shell ls".into() })),
        AgentAction::Send(AgentToHost::Fatal { message: "denied gdb command: shell".into() })
    );
}

#[test]
fn undecodable_line_is_answered_fatal() {
    assert_eq!(
        agent_step(Err("expected value at line 1 column 1".into())),
        AgentAction::Send(AgentToHost::Fatal {
            message: "bad host message: expected value at line 1 column 1".into()
        })
    );
}

#[test]
fn framing() {
    assert_eq!(frame_line("{\"type\":\"reset\"}".to_string()), "{\"type\":\"reset\"}\n");
    assert_eq!(unframe_line("  {\"type\":\"reset\"}\r\n"), "{\"type\":\"reset\"}");
    let line = frame_line("{}".to_string());
    assert_eq!(unframe_line(&line), "{}");
    assert_eq!(unframe_line("\u{a0}x\u{2029}"), "x");
}

#[test]
fn blank_lines() {
    assert!(is_blank_line(""));
    assert!(is_blank_line(" \t\r\n"));
    assert!(!is_blank_line(" x "));
}
