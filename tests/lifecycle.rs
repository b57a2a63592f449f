use arti_bitchat::{
    arti_bootstrap_progress, arti_bootstrap_summary, arti_go_dormant, arti_is_running,
    arti_start, arti_stop, arti_wake, parse_data_dir, supervisor_event, update_summary,
    ArtiState, ServiceStatus, StartError, SupervisorEvent,
};
use tokio::sync::oneshot;

fn start(state: &mut ArtiState<u32>, dir: &[u8], port: u16) -> i32 {
    let (tx, _rx) = oneshot::channel();
    match arti_start(state, dir, port, true, tx) {
        Ok(_) => 0,
        Err(e) => e.code(),
    }
}

fn summary_of(state: &ArtiState<u32>) -> String {
    state.status().summary.clone()
}

#[test]
fn start_bootstrap_stop_scenario() {
    let mut st: ArtiState<u32> = ArtiState::new();
    let (tx, _rx) = oneshot::channel();
    let launch = arti_start(&mut st, b"/tmp/x", 39050, true, tx).ok().unwrap();
    assert_eq!(launch.data_dir, "/tmp/x");
    assert_eq!(launch.socks_port, 39050);
    assert_eq!(arti_is_running(st.status()), 1);
    assert_eq!(arti_bootstrap_progress(st.status()), 0);
    assert_eq!(summary_of(&st), "Starting...");
    supervisor_event(&mut st, launch.run, SupervisorEvent::Configuring);
    assert_eq!(summary_of(&st), "Configuring...");
    assert_eq!(arti_is_running(st.status()), 1);
    supervisor_event(&mut st, launch.run, SupervisorEvent::Bootstrapping);
    assert_eq!(summary_of(&st), "Bootstrapping...");
    assert_eq!(arti_bootstrap_progress(st.status()), 0);
    supervisor_event(&mut st, launch.run, SupervisorEvent::Bootstrapped(7));
    assert_eq!(arti_bootstrap_progress(st.status()), 100);
    assert_eq!(arti_is_running(st.status()), 1);
    assert_eq!(summary_of(&st), "Ready");
    assert_eq!(arti_stop(&mut st), 0);
    assert_eq!(arti_is_running(st.status()), 0);
    assert_eq!(arti_bootstrap_progress(st.status()), 0);
    assert_eq!(summary_of(&st), "");
}

#[test]
fn start_twice_is_refused() {
    let mut st: ArtiState<u32> = ArtiState::new();
    assert_eq!(start(&mut st, b"/tmp/x", 39050), 0);
    assert_eq!(start(&mut st, b"/tmp/x", 39050), -1);
    assert_eq!(arti_is_running(st.status()), 1);
    assert_eq!(summary_of(&st), "Starting...");
}

#[test]
fn start_while_running_keeps_state() {
    let mut st: ArtiState<u32> = ArtiState::new();
    let (tx, _rx) = oneshot::channel();
    let run = arti_start(&mut st, b"/data", 9150, true, tx).ok().unwrap().run;
    supervisor_event(&mut st, run, SupervisorEvent::Bootstrapped(1));
    let (tx2, _rx2) = oneshot::channel();
    let r = arti_start(&mut st, b"\xff", 1, false, tx2);
    assert!(matches!(r, Err(StartError::AlreadyRunning)));
    assert_eq!(arti_bootstrap_progress(st.status()), 100);
    assert_eq!(summary_of(&st), "Ready");
}

#[test]
fn stop_twice_reports_not_running() {
    let mut st: ArtiState<u32> = ArtiState::new();
    let (tx, mut rx) = oneshot::channel::<()>();
    assert!(arti_start(&mut st, b"/tmp/x", 39050, true, tx).is_ok());
    assert_eq!(arti_stop(&mut st), 0);
    assert_eq!(rx.try_recv(), Ok(()));
    assert_eq!(arti_stop(&mut st), -1);
}

#[test]
fn stop_when_never_started() {
    let mut st: ArtiState<u32> = ArtiState::new();
    assert_eq!(arti_stop(&mut st), -1);
}

#[test]
fn restart_after_stop_reaches_ready() {
    let mut st: ArtiState<u32> = ArtiState::new();
    let (tx, _rx) = oneshot::channel();
    let first = arti_start(&mut st, b"/tmp/x", 39050, true, tx).ok().unwrap().run;
    assert_eq!(arti_stop(&mut st), 0);
    let (tx2, _rx2) = oneshot::channel();
    let second = arti_start(&mut st, b"/tmp/x", 39050, true, tx2).ok().unwrap().run;
    assert_ne!(first, second);
    supervisor_event(&mut st, first, SupervisorEvent::Finished);
    assert_eq!(arti_is_running(st.status()), 1);
    supervisor_event(&mut st, second, SupervisorEvent::Bootstrapped(3));
    assert_eq!(arti_bootstrap_progress(st.status()), 100);
}

#[test]
fn invalid_path_is_refused() {
    let mut st: ArtiState<u32> = ArtiState::new();
    let (tx, _rx) = oneshot::channel();
    let r = arti_start(&mut st, b"/tmp/\xc3\x28", 39050, true, tx);
    assert!(matches!(r, Err(StartError::InvalidPath)));
    assert_eq!(StartError::InvalidPath.code(), -2);
    assert_eq!(arti_is_running(st.status()), 0);
}

#[test]
fn runtime_failure_is_refused() {
    let mut st: ArtiState<u32> = ArtiState::new();
    let (tx, _rx) = oneshot::channel();
    let r = arti_start(&mut st, b"/tmp/x", 39050, false, tx);
    assert!(matches!(r, Err(StartError::RuntimeInitFailed)));
    assert_eq!(StartError::RuntimeInitFailed.code(), -3);
    assert_eq!(arti_is_running(st.status()), 0);
}

#[test]
fn data_dir_decodes_utf8() {
    assert_eq!(parse_data_dir("/tmp/é".as_bytes()), Some("/tmp/é".to_string()));
    assert_eq!(parse_data_dir(b"\x80abc"), None);
    assert_eq!(parse_data_dir(b""), Some(String::new()));
}

#[test]
fn failure_is_reported_in_summary() {
    let mut st: ArtiState<u32> = ArtiState::new();
    let (tx, _rx) = oneshot::channel();
    let run = arti_start(&mut st, b"/tmp/x", 39050, true, tx).ok().unwrap().run;
    supervisor_event(&mut st, run, SupervisorEvent::Failed("bootstrap timed out".to_string()));
    assert_eq!(arti_is_running(st.status()), 0);
    assert_eq!(arti_bootstrap_progress(st.status()), 0);
    assert_eq!(summary_of(&st), "Error: bootstrap timed out");
    assert_eq!(arti_stop(&mut st), -1);
}

#[test]
fn shutting_down_then_finished() {
    let mut st: ArtiState<u32> = ArtiState::new();
    let (tx, _rx) = oneshot::channel();
    let run = arti_start(&mut st, b"/tmp/x", 39050, true, tx).ok().unwrap().run;
    supervisor_event(&mut st, run, SupervisorEvent::Bootstrapped(1));
    supervisor_event(&mut st, run, SupervisorEvent::ShuttingDown);
    assert_eq!(summary_of(&st), "Shutting down...");
    supervisor_event(&mut st, run, SupervisorEvent::Finished);
    assert_eq!(arti_is_running(st.status()), 0);
    assert_eq!(arti_bootstrap_progress(st.status()), 0);
}

#[test]
fn reports_after_stop_are_ignored() {
    let mut st: ArtiState<u32> = ArtiState::new();
    let (tx, _rx) = oneshot::channel();
    let run = arti_start(&mut st, b"/tmp/x", 39050, true, tx).ok().unwrap().run;
    assert_eq!(arti_stop(&mut st), 0);
    supervisor_event(&mut st, run, SupervisorEvent::Bootstrapped(1));
    supervisor_event(&mut st, run, SupervisorEvent::ShuttingDown);
    assert_eq!(arti_bootstrap_progress(st.status()), 0);
    assert_eq!(summary_of(&st), "");
}

#[test]
fn dormant_and_wake() {
    let mut st: ArtiState<u32> = ArtiState::new();
    assert_eq!(arti_go_dormant(&mut st), -1);
    assert_eq!(arti_wake(&mut st), -1);
    assert_eq!(summary_of(&st), "");
    assert_eq!(start(&mut st, b"/tmp/x", 39050), 0);
    assert_eq!(arti_go_dormant(&mut st), 0);
    assert_eq!(summary_of(&st), "Dormant");
    assert_eq!(arti_wake(&mut st), 0);
    assert_eq!(summary_of(&st), "Active");
    assert_eq!(arti_bootstrap_progress(st.status()), 0);
    assert_eq!(arti_is_running(st.status()), 1);
}

fn ready_status() -> ServiceStatus {
    let mut s = ServiceStatus::new();
    s.running = true;
    s.progress = 100;
    update_summary(&mut s, "Ready");
    s
}

#[test]
fn summary_truncated_to_small_buffer() {
    let s = ready_status();
    let mut buf = vec![0xAAu8; 4];
    assert_eq!(arti_bootstrap_summary(&s, &mut buf, 4), 3);
    assert_eq!(buf, b"Rea\0".to_vec());
}

#[test]
fn summary_fits_large_buffer() {
    let s = ready_status();
    let mut buf = vec![0xAAu8; 10];
    assert_eq!(arti_bootstrap_summary(&s, &mut buf, 8), 5);
    assert_eq!(buf, vec![b'R', b'e', b'a', b'd', b'y', 0, 0xAA, 0xAA, 0xAA, 0xAA]);
}

#[test]
fn summary_one_byte_buffer_gets_terminator_only() {
    let s = ready_status();
    let mut buf = vec![0xAAu8; 1];
    assert_eq!(arti_bootstrap_summary(&s, &mut buf, 1), 0);
    assert_eq!(buf, vec![0]);
}

#[test]
fn summary_rejects_non_positive_capacity() {
    let s = ready_status();
    let mut buf = vec![0xAAu8; 2];
    assert_eq!(arti_bootstrap_summary(&s, &mut buf, 0), -1);
    assert_eq!(arti_bootstrap_summary(&s, &mut buf, -5), -1);
    assert_eq!(buf, vec![0xAA, 0xAA]);
}

#[test]
fn summary_exact_fit() {
    let s = ready_status();
    let mut buf = vec![0xAAu8; 6];
    assert_eq!(arti_bootstrap_summary(&s, &mut buf, 6), 5);
    assert_eq!(buf, b"Ready\0".to_vec());
}
