//! What pollers read: the running flag, the bootstrap progress and the summary text.
use vstd::prelude::*;
use vstd::string::{StringExecFns, StringSliceAdditionalSpecFns};
use vstd::utf8::encode_utf8;

verus! {

/// Progress reported once bootstrap has completed.
pub const PROGRESS_DONE: i32 = 100;

/// Status of the service, as the host polls it.
pub struct ServiceStatus {
    pub running: bool,
    pub progress: i32,
    pub summary: String,
}

impl ServiceStatus {
    /// Progress is a binary indicator, and a service that is not running reports none.
    pub open spec fn wf(&self) -> bool {
        &&& (self.progress == 0 || self.progress == PROGRESS_DONE)
        &&& (!self.running ==> self.progress == 0)
    }

    /// The summary as the bytes that are handed to the host.
    pub open spec fn summary_bytes(&self) -> Seq<u8> {
        encode_utf8(self.summary@)
    }

    pub fn new() -> (r: ServiceStatus)
        ensures
            r.wf(),
            !r.running,
            r.progress == 0,
            r.summary@ == Seq::<char>::empty(),
    {
        ServiceStatus { running: false, progress: 0, summary: String::new() }
    }
}

/// Replaces the summary text, leaving the flag and the progress alone.
pub fn update_summary(status: &mut ServiceStatus, s: &str)
    ensures
        final(status).summary@ == s@,
        final(status).running == old(status).running,
        final(status).progress == old(status).progress,
{
    status.summary = String::from_str(s);
}

/// 1 while the service runs, 0 otherwise.
pub fn arti_is_running(status: &ServiceStatus) -> (r: i32)
    ensures
        r == (if status.running { 1i32 } else { 0i32 }),
{
    if status.running {
        1
    } else {
        0
    }
}

/// The bootstrap progress, 0 to 100.
pub fn arti_bootstrap_progress(status: &ServiceStatus) -> (r: i32)
    requires
        status.wf(),
    ensures
        r == status.progress,
        0 <= r <= 100,
        !status.running ==> r == 0,
{
    status.progress
}

/// How many summary bytes fit in a buffer of `len` bytes, keeping one for the
/// terminator.
pub open spec fn copied_len(summary: Seq<u8>, len: int) -> int {
    if summary.len() < len - 1 {
        summary.len() as int
    } else {
        len - 1
    }
}

/// Copies the summary into the first `len` bytes of `buf`: as many bytes as fit
/// before a terminating zero, which is always written. Returns the number of
/// summary bytes copied, or -1 when `len` leaves no room for the terminator.
pub fn arti_bootstrap_summary(status: &ServiceStatus, buf: &mut Vec<u8>, len: i32) -> (r: i32)
    requires
        len <= old(buf).len(),
    ensures
        len <= 0 ==> r == -1 && final(buf)@ == old(buf)@,
        len > 0 ==> {
            let n = copied_len(status.summary_bytes(), len as int);
            &&& r == n
            &&& final(buf)@ == status.summary_bytes().subrange(0, n) + seq![0u8] + old(
                buf,
            )@.subrange(n + 1, old(buf)@.len() as int)
        },
{
    if len <= 0 {
        return -1;
    }
    let bytes = status.summary.as_str().as_bytes();
    let room = (len - 1) as usize;
    let n: usize = if bytes.len() < room {
        bytes.len()
    } else {
        room
    };
    let mut i: usize = 0;
    while i < n
        invariant
            n <= bytes@.len(),
            n < buf@.len(),
            buf@.len() == old(buf)@.len(),
            i <= n,
            bytes@ == status.summary_bytes(),
            forall|k: int| 0 <= k < i ==> buf@[k] == bytes@[k],
            forall|k: int| i <= k < buf@.len() ==> buf@[k] == old(buf)@[k],
        decreases n - i,
    {
        buf.set(i, bytes[i]);
        i = i + 1;
    }
    buf.set(n, 0);
    assert(buf@ =~= status.summary_bytes().subrange(0, n as int) + seq![0u8] + old(buf)@.subrange(
        n as int + 1,
        old(buf)@.len() as int,
    ));
    n as i32
}

} // verus!
