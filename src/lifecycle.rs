//! Running/stopped state of the backend, driven by health probes.
//!
//! The manager keeps one cached flag. Starting and stopping consult and set
//! that flag; a status query never reads it and reports the probe instead.
//! The probe itself is performed by the caller, between the steps below.

use vstd::prelude::*;
use crate::config::ConfigError;

verus! {

/// A health report from the backend.
#[derive(Clone, Debug)]
pub struct Health {
    pub healthy: bool,
    pub latency_ms: u64,
    pub message: Option<String>,
}

/// Why a health probe gave no report.
#[derive(Clone, Debug)]
pub enum ClientError {
    /// The backend could not be reached.
    Unavailable,
    /// The probe ran out of time before the backend answered.
    Timeout,
    /// Any other failure, in words.
    Other(String),
}

/// Failures of lifecycle operations.
#[derive(Clone, Debug)]
pub enum ServerError {
    /// The configuration could not be loaded.
    Config(ConfigError),
    /// The health probe failed in a way that the operation does not absorb.
    Backend(ClientError),
}

/// A snapshot of the backend's state, built fresh for each query.
#[derive(Clone, Debug)]
pub struct ServerStatus {
    pub running: bool,
    pub latency_ms: u64,
    pub message: Option<String>,
}

/// The content of a `ServerStatus`, with its message as characters.
pub struct StatusView {
    pub running: bool,
    pub latency_ms: u64,
    pub message: Option<Seq<char>>,
}

pub open spec fn opt_view(s: Option<String>) -> Option<Seq<char>> {
    match s {
        Some(t) => Some(t@),
        None => None,
    }
}

impl View for ServerStatus {
    type V = StatusView;

    open spec fn view(&self) -> StatusView {
        StatusView { running: self.running, latency_ms: self.latency_ms, message: opt_view(self.message) }
    }
}

/// The message reported when the backend cannot be reached.
pub open spec fn unavailable_message() -> Seq<char> {
    seq!['S', 'e', 'r', 'v', 'e', 'r', ' ', 'u', 'n', 'a', 'v', 'a', 'i', 'l', 'a', 'b', 'l', 'e']
}

/// What a status query reports for a probe outcome, or `None` where the
/// outcome is an error that the query passes on.
pub open spec fn status_for(probe: Result<Health, ClientError>) -> Option<StatusView> {
    match probe {
        Ok(h) => Some(StatusView { running: h.healthy, latency_ms: h.latency_ms, message: opt_view(h.message) }),
        Err(ClientError::Unavailable) => Some(StatusView { running: false, latency_ms: 0, message: Some(unavailable_message()) }),
        Err(_) => None,
    }
}

/// Whether a probe outcome lets a start go ahead. Any report does; so does
/// an unreachable or slow backend, which is taken to be managed elsewhere.
/// Every other failure stops the start.
pub open spec fn probe_allows_start(probe: Result<Health, ClientError>) -> bool {
    match probe {
        Ok(_) => true,
        Err(ClientError::Unavailable) => true,
        Err(ClientError::Timeout) => true,
        Err(ClientError::Other(_)) => false,
    }
}

/// A whole start from flag `running` with probe outcome `probe` (not taken
/// when the flag is already set): the flag afterwards, and whether the start
/// succeeded.
pub open spec fn start_model(running: bool, probe: Result<Health, ClientError>) -> (bool, bool) {
    if running {
        (true, true)
    } else {
        (probe_allows_start(probe), probe_allows_start(probe))
    }
}

/// A whole stop: the flag afterwards. It always succeeds.
pub open spec fn stop_model(running: bool) -> bool {
    false
}

/// First step of a start.
#[derive(Clone, Copy, Debug, PartialEq, Eq, Structural)]
pub enum StartPlan {
    /// The flag is already set: nothing to do.
    AlreadyRunning,
    /// Probe the backend, then hand the outcome to `finish_start`.
    ProbeBackend,
}

/// What a stop did.
#[derive(Clone, Copy, Debug, PartialEq, Eq, Structural)]
pub enum StopOutcome {
    /// The flag was already clear: nothing was done.
    AlreadyStopped,
    /// The flag was cleared.
    Stopped,
}

/// Holds the cached running flag.
pub struct ServerManager {
    running: bool,
}

impl ServerManager {
    pub closed spec fn running(&self) -> bool {
        self.running
    }

    /// A manager whose flag is clear.
    pub fn new() -> (r: Self)
        ensures
            !r.running(),
    {
        ServerManager { running: false }
    }

    /// The cached flag, without probing.
    pub fn is_running(&self) -> (r: bool)
        ensures
            r == self.running(),
    {
        self.running
    }

    /// First step of a start: whether the backend needs probing at all.
    pub fn start_plan(&self) -> (r: StartPlan)
        ensures
            r == (if self.running() { StartPlan::AlreadyRunning } else { StartPlan::ProbeBackend }),
    {
        if self.running {
            StartPlan::AlreadyRunning
        } else {
            StartPlan::ProbeBackend
        }
    }

    /// Last step of a start, given the probe outcome: sets the flag when the
    /// outcome allows the start, and otherwise passes the failure on and
    /// leaves the flag as it is.
    pub fn finish_start(&mut self, probe: Result<Health, ClientError>) -> (r: Result<(), ServerError>)
        ensures
            final(self).running() == (old(self).running() || probe_allows_start(probe)),
            r is Ok == probe_allows_start(probe),
            !probe_allows_start(probe) ==> r == Err::<(), ServerError>(ServerError::Backend(probe->Err_0)),
            !old(self).running() ==> (final(self).running(), r is Ok) == start_model(false, probe),
    {
        match probe {
            Ok(_) => {
                self.running = true;
                Ok(())
            },
            Err(ClientError::Unavailable) => {
                self.running = true;
                Ok(())
            },
            Err(ClientError::Timeout) => {
                self.running = true;
                Ok(())
            },
            Err(e) => Err(ServerError::Backend(e)),
        }
    }

    /// Clears the flag; stopping a stopped manager does nothing.
    pub fn stop(&mut self) -> (r: StopOutcome)
        ensures
            final(self).running() == stop_model(old(self).running()),
            r == (if old(self).running() { StopOutcome::Stopped } else { StopOutcome::AlreadyStopped }),
    {
        if !self.running {
            StopOutcome::AlreadyStopped
        } else {
            self.running = false;
            StopOutcome::Stopped
        }
    }

    /// The status reported for a fresh probe outcome. The cached flag plays
    /// no part: a report is passed on as it is, an unreachable backend is
    /// reported as not running, and any other failure (a timeout included)
    /// is returned as an error.
    pub fn status(&self, probe: Result<Health, ClientError>) -> (r: Result<ServerStatus, ServerError>)
        ensures
            match status_for(probe) {
                Some(v) => r is Ok && r->Ok_0@ == v,
                None => r == Err::<ServerStatus, ServerError>(ServerError::Backend(probe->Err_0)),
            },
    {
        match probe {
            Ok(h) => Ok(ServerStatus { running: h.healthy, latency_ms: h.latency_ms, message: h.message }),
            Err(ClientError::Unavailable) => {
                let message = String::from_str("Server unavailable");
                proof {
                    reveal_strlit("Server unavailable");
                    assert(message@ =~= unavailable_message());
                }
                Ok(ServerStatus { running: false, latency_ms: 0, message: Some(message) })
            },
            Err(e) => Err(ServerError::Backend(e)),
        }
    }
}

/// Starting twice against a backend that answers leaves the flag set after
/// each start, and both starts succeed; stopping twice leaves it clear.
pub proof fn lemma_start_stop_idempotent(running: bool, h: Health)
    ensures
        start_model(running, Ok(h)) == (true, true),
        start_model(start_model(running, Ok(h)).0, Ok(h)) == (true, true),
        !stop_model(running),
        !stop_model(stop_model(running)),
{
}

/// With a backend that cannot be reached, a start still succeeds and sets
/// the flag, while a status query reports it as not running, with no
/// latency and the unavailable message.
pub proof fn lemma_unavailable_soft_start(running: bool)
    ensures
        start_model(running, Err(ClientError::Unavailable)) == (true, true),
        status_for(Err(ClientError::Unavailable)) == Some(
            StatusView { running: false, latency_ms: 0, message: Some(unavailable_message()) },
        ),
{
}

/// A status query after a start reports what the new probe says, not the
/// flag: a healthy report after a start through an unreachable backend
/// comes back as running, with the report's latency.
pub proof fn lemma_status_reprobes(running: bool, h: Health)
    requires
        h.healthy,
    ensures
        start_model(running, Err(ClientError::Unavailable)).0,
        status_for(Ok(h)) matches Some(v) && v.running && v.latency_ms == h.latency_ms,
{
}

} // verus!
