//! Host ↔ session-container protocol and ELF accept list.
//!
//! - `elf`: the allowlist an uploaded firmware image must pass.
//! - `gdb_guard`: the default-deny filter on GDB payloads.
//! - `wire`: the messages between control plane and agent, their line
//!   framing, and the agent's answer to each message.
//! - `session`: the control plane's rules for opening a session.
//! - `base64`: decoding of uploaded images.
//! - `text`: the character-level text functions the filter is built on.
pub mod base64;
pub mod elf;
pub mod gdb_guard;
pub mod session;
pub mod text;
pub mod wire;

pub use base64::decode_b64;
pub use elf::{validate_elf, ElfError, MAX_ELF_BYTES, PLAYGROUND_LOAD_ADDR};
pub use gdb_guard::{gdb_command_denied, gdb_payload_allowed};
pub use session::{check_capacity, check_session_request, SessionRefusal, MAX_CONCURRENT};
pub use wire::{agent_step, frame_line, is_blank_line, unframe_line, AgentAction, AgentToHost, HostToAgent};
