//! Decision logic of the backend process supervisor.
//!
//! The host spawns the bundled worker binary and pumps its event stream from
//! a background task; neither action blocks the caller of the start
//! operation. Everything that stream pumping decides — which events produce
//! which diagnostic output, on which channel, and when the relay stops — is
//! fixed here, as is the reply the start operation gives for each spawn
//! outcome.

use vstd::prelude::*;
use crate::text::{append, concat_str, lossy_utf8, utf8_lossy};

verus! {

/// One event from the worker's stream: an output chunk, a process-level
/// error, termination with an exit code, or anything else (ignored).
pub enum BackendEvent {
    Stdout(Vec<u8>),
    Stderr(Vec<u8>),
    ProcessError(String),
    Terminated(Option<i32>),
    Other,
}

/// What the relay does with one event. `AnnounceExit` is terminal: the
/// relay stops after reporting the exit code.
pub enum RelayAction {
    Print { stderr: bool, text: String },
    AnnounceExit { code: Option<i32> },
    Ignore,
}

/// Decide the relay's reaction to one worker event. Output chunks are
/// forwarded with a channel tag, process errors are reported on the error
/// channel with a trailing newline, termination ends the relay, and
/// anything else is ignored.
pub fn relay_step(event: &BackendEvent) -> (r: RelayAction)
    ensures
        event matches BackendEvent::Stdout(b) ==> (r matches RelayAction::Print { stderr, text }
            && !stderr && text@ == "[Backend] "@ + lossy_utf8(b@)),
        event matches BackendEvent::Stderr(b) ==> (r matches RelayAction::Print { stderr, text }
            && stderr && text@ == "[Backend Error] "@ + lossy_utf8(b@)),
        event matches BackendEvent::ProcessError(e) ==> (r matches RelayAction::Print {
            stderr,
            text,
        } && stderr && text@ == "[Backend Process Error] "@ + e@ + "\n"@),
        event matches BackendEvent::Terminated(c) ==> (r matches RelayAction::AnnounceExit { code }
            && code == c),
        event is Other ==> r is Ignore,
        r is AnnounceExit <==> event is Terminated,
{
    match event {
        BackendEvent::Stdout(b) => RelayAction::Print {
            stderr: false,
            text: concat_str("[Backend] ", utf8_lossy(b).as_str()),
        },
        BackendEvent::Stderr(b) => RelayAction::Print {
            stderr: true,
            text: concat_str("[Backend Error] ", utf8_lossy(b).as_str()),
        },
        BackendEvent::ProcessError(e) => {
            let mut text: String = concat_str("[Backend Process Error] ", e.as_str());
            append(&mut text, "\n");
            RelayAction::Print { stderr: true, text }
        },
        BackendEvent::Terminated(c) => RelayAction::AnnounceExit { code: *c },
        BackendEvent::Other => RelayAction::Ignore,
    }
}

/// How the attempt to launch the worker ended: the spawn succeeded, the
/// bundled binary could not be resolved into a launchable command, or the
/// spawn system call itself failed.
pub enum SpawnOutcome {
    Spawned,
    SidecarUnavailable(String),
    SpawnFailed(String),
}

/// The start operation's reply for each spawn outcome. Both failures are
/// surfaced as strings and are non-fatal to the host; the reply never
/// depends on anything the spawned worker later does, so the caller gets
/// control back as soon as the spawn attempt itself has resolved.
pub fn start_result(outcome: &SpawnOutcome) -> (r: Result<String, String>)
    ensures
        outcome is Spawned <==> r is Ok,
        outcome is Spawned ==> (r matches Ok(m) && m@ == "Backend started"@),
        outcome matches SpawnOutcome::SidecarUnavailable(e) ==> (r matches Err(m) && m@
            == "Failed to create sidecar command: "@ + e@),
        outcome matches SpawnOutcome::SpawnFailed(e) ==> (r matches Err(m) && m@
            == "Failed to spawn backend: "@ + e@),
{
    match outcome {
        SpawnOutcome::Spawned => Ok("Backend started".to_owned()),
        SpawnOutcome::SidecarUnavailable(e) => Err(
            concat_str("Failed to create sidecar command: ", e.as_str()),
        ),
        SpawnOutcome::SpawnFailed(e) => Err(concat_str("Failed to spawn backend: ", e.as_str())),
    }
}

} // verus!
