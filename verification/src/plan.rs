//! The plans the supervisor hands to its driver: how to launch each service,
//! and the exact teardown steps for the recorded processes.

use vstd::prelude::*;
use crate::config::{GRACE_MILLIS, SETTLE_MILLIS, ServiceConfig};

verus! {

/// Everything the driver needs to spawn one service.
#[derive(Debug)]
pub struct LaunchCommand {
    /// Program to invoke.
    pub program: String,
    /// Subcommand arguments, ending in the service's logical name.
    pub args: Vec<String>,
    /// Port the service must listen on.
    pub port: u16,
    /// Bind address: all interfaces.
    pub host: String,
    /// Environment overrides for the spawned process.
    pub env: Vec<(String, String)>,
    /// Working directory of the spawned process.
    pub workdir: String,
    /// The process must be placed in a new process group rooted at its own
    /// process id, where the platform supports it, so that its own children
    /// are killable as a unit.
    pub new_process_group: bool,
    /// Best-effort settling delay after a successful spawn, in milliseconds,
    /// before the next dependent service may be launched.
    pub settle_millis: u64,
}

/// What it means for `cmd` to be the launch command of service `c` with
/// working directory `cwd`.
pub open spec fn is_launch_command_for(cmd: LaunchCommand, c: ServiceConfig, cwd: Seq<char>) -> bool {
    &&& cmd.program@ == "yarn"@
    &&& cmd.args@.len() == 3
    &&& cmd.args@[0]@ == "rw"@
    &&& cmd.args@[1]@ == "serve"@
    &&& cmd.args@[2]@ == c.name@
    &&& cmd.port == c.port
    &&& cmd.host@ == "0.0.0.0"@
    &&& cmd.env@ == c.env@
    &&& cmd.workdir@ == cwd
    &&& cmd.new_process_group
    &&& cmd.settle_millis == SETTLE_MILLIS
}

/// Build the launch command of service `c` with working directory `cwd`.
pub fn launch_command_for(c: &ServiceConfig, cwd: &String) -> (cmd: LaunchCommand)
    ensures
        is_launch_command_for(cmd, *c, cwd@),
{
    let mut args: Vec<String> = Vec::new();
    args.push("rw".to_owned());
    args.push("serve".to_owned());
    args.push(c.name.clone());
    let mut env: Vec<(String, String)> = Vec::new();
    let mut i: usize = 0;
    while i < c.env.len()
        invariant
            i <= c.env@.len(),
            env@ == c.env@.take(i as int),
        decreases c.env@.len() - i,
    {
        let pair = &c.env[i];
        env.push((pair.0.clone(), pair.1.clone()));
        proof {
            assert(env@ =~= c.env@.take(i as int + 1));
        }
        i += 1;
    }
    proof {
        assert(env@ =~= c.env@);
    }
    LaunchCommand {
        program: "yarn".to_owned(),
        args,
        port: c.port,
        host: "0.0.0.0".to_owned(),
        env,
        workdir: cwd.clone(),
        new_process_group: true,
        settle_millis: SETTLE_MILLIS,
    }
}

/// The two termination signals of the escalation sequence.
#[derive(Clone, Copy, PartialEq, Eq, Structural, Debug)]
pub enum Signal {
    /// Request a clean shutdown; the process may ignore it.
    Graceful,
    /// End the process unconditionally.
    Forceful,
}

/// One teardown step the driver must perform.  Steps that target a process or
/// a group that is already gone are harmless no-ops, never errors.
#[derive(Clone, Copy, PartialEq, Eq, Structural, Debug)]
pub enum StopStep {
    /// Send `signal` to the whole process group rooted at `pid`
    /// (negative-of-pid targeting); on platforms without process groups,
    /// to the tracked process alone.
    SignalGroup { pid: u32, signal: Signal },
    /// Wait `millis` milliseconds to allow a graceful shutdown.
    WaitGrace { millis: u64 },
    /// Block until process `pid` is reaped, so no zombie remains.
    Reap { pid: u32 },
}

/// The escalation sequence for one recorded process: graceful group signal,
/// bounded grace wait, unconditional forceful group signal, reap.
pub open spec fn teardown_steps(pid: u32) -> Seq<StopStep> {
    seq![
        StopStep::SignalGroup { pid, signal: Signal::Graceful },
        StopStep::WaitGrace { millis: GRACE_MILLIS },
        StopStep::SignalGroup { pid, signal: Signal::Forceful },
        StopStep::Reap { pid },
    ]
}

/// The full teardown plan for `pids`, given already in stop order.
pub open spec fn stop_plan(pids: Seq<u32>) -> Seq<StopStep>
    decreases pids.len(),
{
    if pids.len() == 0 {
        Seq::empty()
    } else {
        teardown_steps(pids[0]) + stop_plan(pids.drop_first())
    }
}

/// A teardown plan holds exactly four steps per process.
pub proof fn lemma_stop_plan_len(pids: Seq<u32>)
    ensures
        stop_plan(pids).len() == 4 * pids.len(),
    decreases pids.len(),
{
    if pids.len() > 0 {
        lemma_stop_plan_len(pids.drop_first());
    }
}

/// Appending a process to the stop order appends its escalation sequence to
/// the plan.
pub proof fn lemma_stop_plan_push(pids: Seq<u32>, pid: u32)
    ensures
        stop_plan(pids.push(pid)) == stop_plan(pids) + teardown_steps(pid),
    decreases pids.len(),
{
    if pids.len() == 0 {
        assert(pids.push(pid)[0] == pid);
        assert(pids.push(pid).drop_first() =~= Seq::<u32>::empty());
        assert(pids =~= Seq::<u32>::empty());
        assert(stop_plan(Seq::<u32>::empty()) =~= Seq::<StopStep>::empty());
        assert(stop_plan(pids.push(pid)) =~= stop_plan(pids) + teardown_steps(pid));
    } else {
        assert(pids.push(pid)[0] == pids[0]);
        assert(pids.push(pid).drop_first() =~= pids.drop_first().push(pid));
        lemma_stop_plan_push(pids.drop_first(), pid);
        assert(stop_plan(pids.push(pid)) =~= stop_plan(pids) + teardown_steps(pid));
    }
}

/// Escalation is unconditional: for every process in the stop order, the plan
/// holds — at fixed positions — its graceful group signal, the bounded grace
/// wait, the forceful group signal, and the reap.  The forceful signal and the
/// reap are present whether or not the process exits during the grace period.
pub proof fn lemma_stop_plan_index(pids: Seq<u32>, k: int)
    requires
        0 <= k < pids.len(),
    ensures
        stop_plan(pids).len() == 4 * pids.len(),
        stop_plan(pids)[4 * k] == (StopStep::SignalGroup { pid: pids[k], signal: Signal::Graceful }),
        stop_plan(pids)[4 * k + 1] == (StopStep::WaitGrace { millis: GRACE_MILLIS }),
        stop_plan(pids)[4 * k + 2] == (StopStep::SignalGroup { pid: pids[k], signal: Signal::Forceful }),
        stop_plan(pids)[4 * k + 3] == (StopStep::Reap { pid: pids[k] }),
    decreases pids.len(),
{
    lemma_stop_plan_len(pids);
    if k == 0 {
        lemma_stop_plan_len(pids.drop_first());
    } else {
        lemma_stop_plan_index(pids.drop_first(), k - 1);
    }
}

} // verus!
