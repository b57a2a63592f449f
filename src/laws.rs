//! Properties of the lifecycle that hold across calls.
use vstd::prelude::*;

use crate::lifecycle::{
    after_event, after_hint, after_start, after_stop, start_outcome, stop_code, Lifecycle,
    StartError, SupervisorEvent,
};
use crate::status::{copied_len, PROGRESS_DONE};

verus! {

/// A start while the service runs is refused as already running, whatever its
/// arguments; a refused start leaves the state as it was.
pub proof fn start_while_running_is_refused(s: Lifecycle, path_ok: bool, runtime_ok: bool)
    requires
        s.running,
    ensures
        start_outcome(s, path_ok, runtime_ok) == Some(StartError::AlreadyRunning),
{
}

/// Two stops in a row give 0 and then -1. The first spends the shutdown signal;
/// the second finds none armed and changes nothing.
pub proof fn stop_twice(s: Lifecycle)
    requires
        s.running,
    ensures
        stop_code(s) == 0,
        !after_stop(s).armed,
        stop_code(after_stop(s)) == -1,
        after_stop(after_stop(s)) == after_stop(s),
{
}

/// Every transition keeps the progress at 0 or 100, and at 0 when not running.
pub proof fn progress_stays_binary<C>(s: Lifecycle, run: u64, ev: SupervisorEvent<C>, text: Seq<char>)
    requires
        s.wf(),
    ensures
        after_start(s).wf(),
        after_stop(s).wf(),
        after_hint(s, text).wf(),
        after_event(s, run, ev).wf(),
{
}

/// Within one run the progress never goes down: a report or a hint that leaves
/// the same run going leaves the progress where it was or raises it.
pub proof fn progress_monotone_within_run<C>(
    s: Lifecycle,
    run: u64,
    ev: SupervisorEvent<C>,
    text: Seq<char>,
)
    requires
        s.wf(),
    ensures
        after_event(s, run, ev).running ==> after_event(s, run, ev).run == s.run && s.progress
            <= after_event(s, run, ev).progress,
        after_hint(s, text).run == s.run,
        after_hint(s, text).progress == s.progress,
{
}

/// A buffer of `n` bytes, `n` at least 1, takes at most `n - 1` summary bytes,
/// which leaves room for the terminator.
pub proof fn summary_copy_fits(summary: Seq<u8>, n: int)
    requires
        n >= 1,
    ensures
        0 <= copied_len(summary, n) <= n - 1,
        copied_len(summary, n) <= summary.len(),
{
}

/// Start, stop and start again with good arguments: both starts succeed, the stop
/// in between succeeds, reports of the first run no longer change anything, and
/// the second run reaches progress 100 once its bootstrap completes.
pub proof fn restart_after_stop<C>(s: Lifecycle, ev: SupervisorEvent<C>, client: C)
    requires
        s.wf(),
        !s.running,
    ensures
        start_outcome(s, true, true) is None,
        stop_code(after_start(s)) == 0,
        start_outcome(after_stop(after_start(s)), true, true) is None,
        after_event(
            after_start(after_stop(after_start(s))),
            after_start(s).run,
            ev,
        ) == after_start(after_stop(after_start(s))),
        after_event(
            after_start(after_stop(after_start(s))),
            after_start(after_stop(after_start(s))).run,
            SupervisorEvent::Bootstrapped(client),
        ).progress == PROGRESS_DONE as int,
{
}

} // verus!
