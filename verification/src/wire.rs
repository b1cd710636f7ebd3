//! The messages between the control plane and the session agent, their line
//! framing, and what the agent does with each message it receives.
use vstd::prelude::*;
use crate::gdb_guard::{gdb_command_denied, gdb_verdict};
use crate::text::{is_ws, lemma_trim_end_prefix, lemma_trim_start_suffix, trim, trim_end, trim_start, trim_str};

verus! {

/// Commands the control plane sends to the session agent.
#[derive(Debug, Clone, PartialEq, Eq)]
pub enum HostToAgent {
    Start { example_id: Option<String> },
    GdbMi { payload: String },
    Reset,
    Shutdown,
}

/// Events the session agent sends to the control plane.
#[derive(Debug, Clone, PartialEq)]
pub enum AgentToHost {
    Ready,
    GdbMi { payload: String },
    Hw { running: bool, leds: [bool; 4], uart: Option<String>, ts_us: u64 },
    Fatal { message: String },
}

/// What the agent does next.
#[derive(Debug, Clone, PartialEq)]
pub enum AgentAction {
    /// Leave the loop.
    Stop,
    /// Send this event to the control plane.
    Send(AgentToHost),
}

/// The agent's answer to one line from the control plane, given what the
/// line decoded to (`Err` holds the decoder's description of the failure).
/// A GDB payload is passed on only when the filter lets it through.
pub fn agent_step(msg: Result<HostToAgent, String>) -> (a: AgentAction)
    ensures
        match msg {
            Ok(HostToAgent::Shutdown) => a == AgentAction::Stop,
            Ok(HostToAgent::Reset) => a == AgentAction::Send(AgentToHost::Ready),
            Ok(HostToAgent::Start { .. }) => a == AgentAction::Send(AgentToHost::Ready),
            Ok(HostToAgent::GdbMi { payload }) => match gdb_verdict(payload@) {
                None => a == AgentAction::Send(AgentToHost::GdbMi { payload }),
                Some(reason) => a matches AgentAction::Send(AgentToHost::Fatal { message })
                    && message@ == "denied gdb command: "@ + reason,
            },
            Err(e) => a matches AgentAction::Send(AgentToHost::Fatal { message }) && message@
                == "bad host message: "@ + e@,
        },
{
    match msg {
        Ok(HostToAgent::Shutdown) => AgentAction::Stop,
        Ok(HostToAgent::Reset) | Ok(HostToAgent::Start { .. }) => AgentAction::Send(
            AgentToHost::Ready,
        ),
        Ok(HostToAgent::GdbMi { payload }) => {
            if let Some(cmd) = gdb_command_denied(payload.as_str()) {
                let mut message = String::from_str("denied gdb command: ");
                message.append(cmd);
                return AgentAction::Send(AgentToHost::Fatal { message });
            }
            AgentAction::Send(AgentToHost::GdbMi { payload })
        },
        Err(e) => {
            let mut message = String::from_str("bad host message: ");
            message.append(e.as_str());
            AgentAction::Send(AgentToHost::Fatal { message })
        },
    }
}

/// A line that holds nothing but whitespace; the agent passes over it.
pub fn is_blank_line(line: &str) -> (r: bool)
    ensures
        r == (trim(line@).len() == 0),
{
    trim_str(line).is_empty()
}

/// One encoded message as a line: the text followed by a line feed.
pub fn frame_line(encoded: String) -> (line: String)
    ensures
        line@ == encoded@ + "\n"@,
{
    let mut line = encoded;
    line.append("\n");
    line
}

/// The text of a received line, without surrounding whitespace (and so
/// without its line feed).
pub fn unframe_line(line: &str) -> (text: &str)
    ensures
        text@ == trim(line@),
{
    trim_str(line)
}

/// Framing and unframing give back any text without surrounding whitespace
/// (as a compact encoding is).
pub proof fn lemma_frame_roundtrip(text: Seq<char>)
    requires
        trim(text) == text,
    ensures
        trim(text + "\n"@) == text,
{
    reveal_strlit("\n");
    let line = text + "\n"@;
    assert(is_ws('\n'));
    assert("\n"@.len() == 1 && "\n"@[0] == '\n');
    if text.len() == 0 {
        assert(line =~= "\n"@);
        assert(line.drop_first() =~= Seq::<char>::empty());
        assert(trim_start(line.drop_first()) == Seq::<char>::empty());
        assert(line.len() > 0 && is_ws(line[0]));
        assert(trim_start(line) == Seq::<char>::empty());
    } else {
        lemma_trim_start_suffix(text);
        lemma_trim_end_prefix(trim_start(text));
        assert(trim_start(text) == text) by {
            if trim_start(text).len() < text.len() {
                assert(trim(text).len() <= trim_start(text).len());
            }
        }
        assert(!is_ws(text[0])) by {
            if is_ws(text[0]) {
                assert(trim_start(text) == trim_start(text.drop_first()));
                lemma_trim_start_suffix(text.drop_first());
            }
        }
        assert(trim_start(line) == line);
        assert(line.drop_last() =~= text);
        assert(trim_end(line) == trim_end(text));
    }
}

} // verus!
