//! The lifecycle of the service: start, stop, the dormant and wake hints, and the
//! progress reports of the supervising task, as transitions of one state value.
use vstd::prelude::*;
use vstd::string::StringExecFns;
use vstd::utf8::{decode_utf8, valid_utf8};

use tokio::sync::oneshot::Sender;

use crate::path::parse_data_dir;
use crate::signal::fire;
use crate::status::{update_summary, ServiceStatus, PROGRESS_DONE};

verus! {

/// The abstract state of the service.
pub struct Lifecycle {
    pub running: bool,
    pub progress: int,
    pub summary: Seq<char>,
    /// Number of the current run; each successful start takes the next one.
    pub run: u64,
    /// Whether a shutdown signal is armed, waiting to be sent.
    pub armed: bool,
    /// Whether a client handle is stored.
    pub has_client: bool,
}

impl Lifecycle {
    pub open spec fn wf(self) -> bool {
        &&& (self.progress == 0 || self.progress == PROGRESS_DONE as int)
        &&& (!self.running ==> self.progress == 0)
    }
}

/// Why a start was refused.
#[derive(Clone, Copy, Debug, PartialEq, Eq, Structural)]
pub enum StartError {
    AlreadyRunning,
    InvalidPath,
    RuntimeInitFailed,
}

impl StartError {
    pub open spec fn spec_code(self) -> i32 {
        match self {
            StartError::AlreadyRunning => -1i32,
            StartError::InvalidPath => -2i32,
            StartError::RuntimeInitFailed => -3i32,
        }
    }

    /// The status code reported to the host.
    pub fn code(&self) -> (r: i32)
        ensures
            r == self.spec_code(),
    {
        match self {
            StartError::AlreadyRunning => -1i32,
            StartError::InvalidPath => -2i32,
            StartError::RuntimeInitFailed => -3i32,
        }
    }
}

/// What a successful start asks the host to launch: the supervising task for
/// run `run`, on the given data directory and proxy port.
pub struct Launch {
    pub data_dir: String,
    pub socks_port: u16,
    pub run: u64,
}

/// A report of the supervising task of some run.
pub enum SupervisorEvent<C> {
    /// The data directory is in place; the client is being configured.
    Configuring,
    /// The configuration is built; bootstrap has begun.
    Bootstrapping,
    /// Bootstrap succeeded, giving this client handle.
    Bootstrapped(C),
    /// The shutdown signal was received; the accept loop has ended.
    ShuttingDown,
    /// The task ended on a fatal error, described by the text.
    Failed(String),
    /// The task ended cleanly.
    Finished,
}

pub open spec fn next_run(run: u64) -> u64 {
    if run == u64::MAX {
        0
    } else {
        (run + 1) as u64
    }
}

/// Which error a start meets, if any: the running check comes first, then the
/// path, then the runtime.
pub open spec fn start_outcome(s: Lifecycle, path_ok: bool, runtime_ok: bool) -> Option<StartError> {
    if s.running {
        Some(StartError::AlreadyRunning)
    } else if !path_ok {
        Some(StartError::InvalidPath)
    } else if !runtime_ok {
        Some(StartError::RuntimeInitFailed)
    } else {
        None
    }
}

/// The state right after a successful start.
pub open spec fn after_start(s: Lifecycle) -> Lifecycle {
    Lifecycle {
        running: true,
        progress: 0,
        summary: "Starting..."@,
        run: next_run(s.run),
        armed: true,
        has_client: s.has_client,
    }
}

pub open spec fn stop_code(s: Lifecycle) -> i32 {
    if s.running {
        0i32
    } else {
        -1i32
    }
}

/// The state after a stop: the signal is spent, the client released, the status cleared.
pub open spec fn after_stop(s: Lifecycle) -> Lifecycle {
    if s.running {
        Lifecycle {
            running: false,
            progress: 0,
            summary: Seq::empty(),
            run: s.run,
            armed: false,
            has_client: false,
        }
    } else {
        s
    }
}

/// Code of the dormant and wake hints.
pub open spec fn hint_code(s: Lifecycle) -> i32 {
    if s.running {
        0i32
    } else {
        -1i32
    }
}

/// A hint only changes the summary, and only while running.
pub open spec fn after_hint(s: Lifecycle, text: Seq<char>) -> Lifecycle {
    if s.running {
        Lifecycle { summary: text, ..s }
    } else {
        s
    }
}

/// The effect of a report of run `run`. Reports of any run but the current one,
/// or that come once the service is no longer running, change nothing.
pub open spec fn after_event<C>(s: Lifecycle, run: u64, ev: SupervisorEvent<C>) -> Lifecycle {
    if run != s.run || !s.running {
        s
    } else {
        match ev {
            SupervisorEvent::Configuring => Lifecycle { summary: "Configuring..."@, ..s },
            SupervisorEvent::Bootstrapping => Lifecycle { summary: "Bootstrapping..."@, ..s },
            SupervisorEvent::Bootstrapped(_) => Lifecycle {
                progress: PROGRESS_DONE as int,
                summary: "Ready"@,
                has_client: true,
                ..s
            },
            SupervisorEvent::ShuttingDown => Lifecycle { summary: "Shutting down..."@, ..s },
            SupervisorEvent::Failed(msg) => Lifecycle {
                running: false,
                progress: 0,
                summary: "Error: "@ + msg@,
                ..s
            },
            SupervisorEvent::Finished => Lifecycle { running: false, progress: 0, ..s },
        }
    }
}

/// The state of the service: its status, the number of its current run, the
/// sender of the current shutdown signal and the client handle of type `C`.
pub struct ArtiState<C> {
    status: ServiceStatus,
    run: u64,
    shutdown_tx: Option<Sender<()>>,
    client: Option<C>,
}

impl<C> View for ArtiState<C> {
    type V = Lifecycle;

    closed spec fn view(&self) -> Lifecycle {
        Lifecycle {
            running: self.status.running,
            progress: self.status.progress as int,
            summary: self.status.summary@,
            run: self.run,
            armed: self.shutdown_tx is Some,
            has_client: self.client is Some,
        }
    }
}

impl<C> ArtiState<C> {
    pub open spec fn wf(&self) -> bool {
        self@.wf()
    }

    /// A stopped service, with no signal armed and no client.
    pub fn new() -> (r: ArtiState<C>)
        ensures
            r.wf(),
            !r@.running,
            r@.progress == 0,
            r@.summary == Seq::<char>::empty(),
            r@.run == 0,
            !r@.armed,
            !r@.has_client,
    {
        ArtiState { status: ServiceStatus::new(), run: 0, shutdown_tx: None, client: None }
    }

    /// The status that pollers read.
    pub fn status(&self) -> (r: &ServiceStatus)
        ensures
            r.running == self@.running,
            r.progress as int == self@.progress,
            r.summary@ == self@.summary,
            self.wf() ==> r.wf(),
    {
        &self.status
    }
}

/// Starts the service. The start is refused while the service runs, when the
/// data directory is not UTF-8, and when no runtime could be had
/// (`runtime_ok` is false). Otherwise the new shutdown signal is armed, the next
/// run begins with progress 0 and the summary "Starting...", and the result says
/// which supervising task to launch. A refused start changes nothing.
pub fn arti_start<C>(
    state: &mut ArtiState<C>,
    data_dir: &[u8],
    socks_port: u16,
    runtime_ok: bool,
    shutdown_tx: Sender<()>,
) -> (r: Result<Launch, StartError>)
    requires
        old(state).wf(),
    ensures
        final(state).wf(),
        r is Ok <==> start_outcome(old(state)@, valid_utf8(data_dir@), runtime_ok) is None,
        r matches Err(e) ==> start_outcome(old(state)@, valid_utf8(data_dir@), runtime_ok)
            == Some(e) && final(state)@ == old(state)@,
        r matches Ok(l) ==> {
            &&& final(state)@ == after_start(old(state)@)
            &&& l.data_dir@ == decode_utf8(data_dir@)
            &&& l.socks_port == socks_port
            &&& l.run == final(state)@.run
        },
{
    if state.status.running {
        return Err(StartError::AlreadyRunning);
    }
    let data_path = match parse_data_dir(data_dir) {
        Some(p) => p,
        None => {
            return Err(StartError::InvalidPath);
        },
    };
    if !runtime_ok {
        return Err(StartError::RuntimeInitFailed);
    }
    state.shutdown_tx = Some(shutdown_tx);
    state.run = if state.run == u64::MAX {
        0
    } else {
        state.run + 1
    };
    state.status.running = true;
    state.status.progress = 0;
    update_summary(&mut state.status, "Starting...");
    Ok(Launch { data_dir: data_path, socks_port, run: state.run })
}

/// Stops the service: sends the armed shutdown signal, if any, once; releases
/// the client; clears the status. Returns 0, or -1 with nothing changed when the
/// service is not running.
pub fn arti_stop<C>(state: &mut ArtiState<C>) -> (r: i32)
    requires
        old(state).wf(),
    ensures
        final(state).wf(),
        r == stop_code(old(state)@),
        final(state)@ == after_stop(old(state)@),
{
    if !state.status.running {
        return -1;
    }
    if let Some(tx) = state.shutdown_tx.take() {
        fire(tx);
    }
    state.client = None;
    state.status.running = false;
    state.status.progress = 0;
    update_summary(&mut state.status, "");
    proof {
        reveal_strlit("");
    }
    assert(state.status.summary@ =~= Seq::<char>::empty());
    0
}

/// Notes that the host went to the background. Advisory: only the summary changes.
pub fn arti_go_dormant<C>(state: &mut ArtiState<C>) -> (r: i32)
    requires
        old(state).wf(),
    ensures
        final(state).wf(),
        r == hint_code(old(state)@),
        final(state)@ == after_hint(old(state)@, "Dormant"@),
{
    if !state.status.running {
        return -1;
    }
    update_summary(&mut state.status, "Dormant");
    0
}

/// Notes that the host came back to the foreground. Advisory: only the summary changes.
pub fn arti_wake<C>(state: &mut ArtiState<C>) -> (r: i32)
    requires
        old(state).wf(),
    ensures
        final(state).wf(),
        r == hint_code(old(state)@),
        final(state)@ == after_hint(old(state)@, "Active"@),
{
    if !state.status.running {
        return -1;
    }
    update_summary(&mut state.status, "Active");
    0
}

/// Records a report of the supervising task of run `run`; see `after_event`.
pub fn supervisor_event<C>(state: &mut ArtiState<C>, run: u64, ev: SupervisorEvent<C>)
    requires
        old(state).wf(),
    ensures
        final(state).wf(),
        final(state)@ == after_event(old(state)@, run, ev),
{
    if run != state.run || !state.status.running {
        return;
    }
    match ev {
        SupervisorEvent::Configuring => update_summary(&mut state.status, "Configuring..."),
        SupervisorEvent::Bootstrapping => update_summary(&mut state.status, "Bootstrapping..."),
        SupervisorEvent::Bootstrapped(client) => {
            state.client = Some(client);
            state.status.progress = PROGRESS_DONE;
            update_summary(&mut state.status, "Ready");
        },
        SupervisorEvent::ShuttingDown => update_summary(&mut state.status, "Shutting down..."),
        SupervisorEvent::Failed(msg) => {
            let text = String::from_str("Error: ").concat(msg.as_str());
            state.status.running = false;
            state.status.progress = 0;
            update_summary(&mut state.status, text.as_str());
        },
        SupervisorEvent::Finished => {
            state.status.running = false;
            state.status.progress = 0;
        },
    }
}

} // verus!
