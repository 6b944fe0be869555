use vstd::prelude::*;
use vstd::string::StringExecFns;

verus! {

/// The default bound of every data channel in a run.
pub const DEFAULT_CHANNEL_CAPACITY: usize = 1000;

/// How long a blocked receive waits, in seconds, before the worker or the
/// dispatcher re-checks its shutdown flag.
pub const DEFAULT_RECEIVE_TIMEOUT_SECS: u64 = 1;

/// How often the reporter asks for a progress line, in seconds.
pub const DEFAULT_REPORT_PERIOD_SECS: u64 = 30;

/// The immutable knobs of one run.
#[derive(Clone, Copy, PartialEq, Eq, Structural)]
pub struct RunConfig {
    /// How many workers the pool spawns.
    pub worker_pool_size: usize,
    /// The bound of every data channel.
    pub channel_capacity: usize,
    /// Seconds a blocked receive waits before re-checking shutdown.
    pub receive_timeout_secs: u64,
    /// Seconds between two progress reports.
    pub reporter_period_secs: u64,
}

impl RunConfig {
    /// Every knob is positive: a pool needs at least one worker, a channel
    /// at least one slot, and the two periods drive the shutdown checks.
    pub open spec fn wf(self) -> bool {
        &&& self.worker_pool_size >= 1
        &&& self.channel_capacity >= 1
        &&& self.receive_timeout_secs >= 1
        &&& self.reporter_period_secs >= 1
    }

    /// Check and build a configuration; exactly the values with a zero knob
    /// are rejected.
    pub fn new(
        worker_pool_size: usize,
        channel_capacity: usize,
        receive_timeout_secs: u64,
        reporter_period_secs: u64,
    ) -> (r: Option<RunConfig>)
        ensures
            ({
                let c = RunConfig {
                    worker_pool_size,
                    channel_capacity,
                    receive_timeout_secs,
                    reporter_period_secs,
                };
                if c.wf() {
                    r == Some(c)
                } else {
                    r is None
                }
            }),
    {
        if worker_pool_size >= 1 && channel_capacity >= 1 && receive_timeout_secs >= 1
            && reporter_period_secs >= 1 {
            Some(
                RunConfig {
                    worker_pool_size,
                    channel_capacity,
                    receive_timeout_secs,
                    reporter_period_secs,
                },
            )
        } else {
            None
        }
    }
}

/// The interpreter's module search path for a run: the search path the
/// interpreter starts with, then the script root with the interpreter's
/// `?.lua` module pattern, separated by the interpreter's `;` delimiter, so
/// scripts under the script root can require each other.
pub fn module_search_path(old_path: &str, script_root: &str) -> (r: String)
    ensures
        r@ == old_path@ + ";"@ + script_root@ + "/?.lua"@,
{
    let mut r = String::from_str(old_path);
    r.append(";");
    r.append(script_root);
    r.append("/?.lua");
    r
}

} // verus!
