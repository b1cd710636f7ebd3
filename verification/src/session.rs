//! The control plane's rules for opening a session: which requests are
//! refused, and with what. The control plane is a stub: an accepted request
//! starts no container, takes no slot and is given no WebSocket path.
use vstd::prelude::*;
#[allow(unused_imports)]
use vstd::string::StringSliceAdditionalSpecFns;
use crate::base64::{b64_decoded, decode_b64};
use crate::elf::{elf_error_text, elf_verdict, validate_elf, ElfError};
use crate::text::{chars_eq_str, str_chars};

verus! {

/// Most sessions that may be live at once.
pub const MAX_CONCURRENT: usize = 4;

/// The only target board that is implemented.
pub open spec fn default_target() -> Seq<char> {
    "polarfire"@
}

/// Why a session request was refused.
#[derive(Debug, Clone, Copy, PartialEq, Eq, Structural)]
pub enum SessionRefusal {
    UnknownTarget,
    BadBase64,
    BadElf(ElfError),
    MissingPayload,
    LabFull,
}

/// The HTTP status that answers a refusal.
pub open spec fn refusal_status(r: SessionRefusal) -> u16 {
    match r {
        SessionRefusal::LabFull => 503,
        _ => 400,
    }
}

/// The error text that answers a refusal.
pub open spec fn refusal_text(r: SessionRefusal) -> Seq<char> {
    match r {
        SessionRefusal::UnknownTarget => "only target=polarfire is implemented"@,
        SessionRefusal::BadBase64 => "elf_b64 is not valid base64"@,
        SessionRefusal::BadElf(e) => elf_error_text(e),
        SessionRefusal::MissingPayload => "provide example or elf_b64"@,
        SessionRefusal::LabFull => "lab is full"@,
    }
}

impl SessionRefusal {
    /// The HTTP status of the refusal: 503 when the lab is full, 400 otherwise.
    pub fn status(&self) -> (s: u16)
        ensures
            s == refusal_status(*self),
    {
        match self {
            SessionRefusal::LabFull => 503,
            _ => 400,
        }
    }

    /// The error text of the refusal.
    pub fn message(&self) -> (m: &'static str)
        ensures
            m@ == refusal_text(*self),
    {
        match self {
            SessionRefusal::UnknownTarget => "only target=polarfire is implemented",
            SessionRefusal::BadBase64 => "elf_b64 is not valid base64",
            SessionRefusal::BadElf(e) => e.message(),
            SessionRefusal::MissingPayload => "provide example or elf_b64",
            SessionRefusal::LabFull => "lab is full",
        }
    }
}

/// The view of an optional string.
pub open spec fn opt_chars(s: Option<String>) -> Option<Seq<char>> {
    match s {
        Some(t) => Some(t@),
        None => None,
    }
}

/// The verdict on a session request, before a slot is taken: the target
/// (defaulting to `polarfire`) or the first rule that the request breaks.
/// An uploaded ELF, when there is one, must decode and pass the allowlist;
/// without one, an example must be named.
pub open spec fn session_verdict(
    target: Option<Seq<char>>,
    has_example: bool,
    elf_b64: Option<Seq<u8>>,
) -> Result<Seq<char>, SessionRefusal> {
    let t = match target {
        Some(t) => t,
        None => default_target(),
    };
    if t != default_target() {
        Err(SessionRefusal::UnknownTarget)
    } else {
        match elf_b64 {
            Some(text) => match b64_decoded(text) {
                Err(()) => Err(SessionRefusal::BadBase64),
                Ok(bytes) => match elf_verdict(bytes) {
                    Err(e) => Err(SessionRefusal::BadElf(e)),
                    Ok(()) => Ok(t),
                },
            },
            None => if has_example {
                Ok(t)
            } else {
                Err(SessionRefusal::MissingPayload)
            },
        }
    }
}

/// Check a session request. On success, the target the session runs on.
pub fn check_session_request(
    target: Option<String>,
    example: &Option<String>,
    elf_b64: Option<&str>,
) -> (r: Result<String, SessionRefusal>)
    ensures
        match session_verdict(
            opt_chars(target),
            example is Some,
            match elf_b64 {
                Some(s) => Some(s.spec_bytes()),
                None => None,
            },
        ) {
            Ok(t) => r matches Ok(s) && s@ == t,
            Err(e) => r == Err::<String, SessionRefusal>(e),
        },
{
    let target = match target {
        Some(t) => t,
        None => String::from_str("polarfire"),
    };
    let chars = str_chars(target.as_str());
    if !chars_eq_str(&chars, "polarfire") {
        return Err(SessionRefusal::UnknownTarget);
    }
    match elf_b64 {
        Some(b64) => {
            let bytes = match decode_b64(b64) {
                Ok(bytes) => bytes,
                Err(()) => return Err(SessionRefusal::BadBase64),
            };
            if let Err(e) = validate_elf(bytes.as_slice()) {
                return Err(SessionRefusal::BadElf(e));
            }
        },
        None => {
            if example.is_none() {
                return Err(SessionRefusal::MissingPayload);
            }
        },
    }
    Ok(target)
}

/// Whether another session fits, with `live` sessions running. The count
/// itself is left alone: this stub starts no container, so nothing is held.
pub fn check_capacity(live: usize) -> (r: Result<(), SessionRefusal>)
    ensures
        live >= MAX_CONCURRENT ==> r == Err::<(), SessionRefusal>(SessionRefusal::LabFull),
        live < MAX_CONCURRENT ==> r is Ok,
{
    if live >= MAX_CONCURRENT {
        Err(SessionRefusal::LabFull)
    } else {
        Ok(())
    }
}

/// The rules of a session request, for every request whose target is
/// `polarfire` (given, or left out):
/// - an upload that decodes and passes the ELF allowlist is accepted, whether
///   or not an example is named too;
/// - without an upload, naming an example is accepted, and naming none is
///   refused as `MissingPayload`; `MissingPayload` comes only then;
/// - an upload that does not decode is refused as `BadBase64`, one that the
///   allowlist refuses as `BadElf` with the allowlist's reason, whatever the
///   example field holds;
/// and any other target is refused as `UnknownTarget`. An accepted request
/// runs on `polarfire`.
pub proof fn lemma_session_rules(
    target: Option<Seq<char>>,
    has_example: bool,
    elf_b64: Option<Seq<u8>>,
)
    ensures
        ({
            let r = session_verdict(target, has_example, elf_b64);
            let target_ok = target is None || target == Some("polarfire"@);
            &&& target_ok && (elf_b64 matches Some(text) && b64_decoded(text) matches Ok(bytes)
                && elf_verdict(bytes) is Ok) ==> r == Ok::<Seq<char>, SessionRefusal>(
                "polarfire"@,
            )
            &&& target_ok && elf_b64 is None && has_example ==> r == Ok::<
                Seq<char>,
                SessionRefusal,
            >("polarfire"@)
            &&& target_ok && elf_b64 is None && !has_example ==> r == Err::<
                Seq<char>,
                SessionRefusal,
            >(SessionRefusal::MissingPayload)
            &&& r == Err::<Seq<char>, SessionRefusal>(SessionRefusal::MissingPayload) ==> !has_example
                && elf_b64 is None
            &&& target_ok && (elf_b64 matches Some(text) && b64_decoded(text) is Err) ==> r == Err::<
                Seq<char>,
                SessionRefusal,
            >(SessionRefusal::BadBase64)
            &&& target_ok && (elf_b64 matches Some(text) && b64_decoded(text) matches Ok(bytes)
                && elf_verdict(bytes) is Err) ==> r == Err::<Seq<char>, SessionRefusal>(
                SessionRefusal::BadElf(elf_verdict(b64_decoded(elf_b64->0)->Ok_0)->Err_0),
            )
            &&& (target matches Some(t) && t != "polarfire"@) ==> r == Err::<
                Seq<char>,
                SessionRefusal,
            >(SessionRefusal::UnknownTarget)
            &&& r is Ok ==> r->Ok_0 == "polarfire"@
        }),
{
}

} // verus!
