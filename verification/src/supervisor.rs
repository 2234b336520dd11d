//! The process supervisor: owns the recorded handles of the spawned services,
//! decides the launch sequence, and produces the teardown plan — idempotent,
//! in reverse start order, and escalating unconditionally.

use vstd::prelude::*;
use vstd::string::StringExecFns;
use crate::config::{
    API_PORT, GRACE_MILLIS, Mode, ServiceConfig, StartError, WEB_PORT, build_marker_path,
    rebuild_command,
};
use crate::plan::{
    LaunchCommand, Signal, StopStep, is_launch_command_for, launch_command_for,
    lemma_stop_plan_index, lemma_stop_plan_push, stop_plan, teardown_steps,
};

verus! {

/// Externally visible lifecycle state of a supervisor.
#[derive(Clone, Copy, PartialEq, Eq, Structural, Debug)]
pub enum SupervisorState {
    /// No child recorded.
    Idle,
    /// At least one child recorded.
    Running,
    /// Terminal: every handle cleared, cleanup irreversible; a new supervisor
    /// must be created to restart.
    Stopped,
}

/// Mathematical model of a supervisor value.
#[verifier::ext_equal]
pub ghost struct SupervisorModel {
    /// Configured services, in start order.
    pub configs: Seq<ServiceConfig>,
    /// Process ids recorded so far, in start order; handles of a prefix of
    /// `configs`.
    pub recorded: Seq<u32>,
    /// A production launch sequence is in progress: the driver owes the
    /// supervisor the outcome of the next spawn.
    pub launching: bool,
    /// `stop` has completed.
    pub stopped: bool,
}

impl SupervisorModel {
    /// Well-formedness: established by the constructor and preserved by every
    /// method.
    pub open spec fn wf(self) -> bool {
        &&& self.recorded.len() <= self.configs.len()
        &&& (self.stopped ==> self.recorded.len() == 0 && !self.launching)
        &&& (self.launching ==> self.recorded.len() < self.configs.len() && !self.stopped)
    }

    /// The lifecycle state, derived from the handles and the terminal flag.
    pub open spec fn state(self) -> SupervisorState {
        if self.stopped {
            SupervisorState::Stopped
        } else if self.recorded.len() > 0 {
            SupervisorState::Running
        } else {
            SupervisorState::Idle
        }
    }

    /// The handle of service `i`: its process id while recorded as running,
    /// `None` once cleared or never spawned.
    pub open spec fn pid_at(self, i: int) -> Option<u32> {
        if 0 <= i < self.recorded.len() {
            Some(self.recorded[i])
        } else {
            None
        }
    }

    /// The order in which the recorded services are torn down: the reverse of
    /// their start order.
    pub open spec fn stop_order(self) -> Seq<u32> {
        self.recorded.reverse()
    }
}

/// The supervisor model after `stop` completes: every handle cleared, state
/// terminal, configuration kept.
pub open spec fn stopped_model(m: SupervisorModel) -> SupervisorModel {
    SupervisorModel { configs: m.configs, recorded: Seq::empty(), launching: false, stopped: true }
}

/// Supervisor of the embedded Redwood service processes.
///
/// `start` decides which services the host must spawn; the host reports each
/// spawn outcome through `record_spawn`; `stop` clears the recorded handles
/// and returns the exact teardown plan the host must perform.
pub struct RedwoodServer {
    services: Vec<ServiceConfig>,
    recorded: Vec<u32>,
    launching: bool,
    stopped: bool,
}

impl View for RedwoodServer {
    type V = SupervisorModel;

    closed spec fn view(&self) -> SupervisorModel {
        SupervisorModel {
            configs: self.services@,
            recorded: self.recorded@,
            launching: self.launching,
            stopped: self.stopped,
        }
    }
}

impl RedwoodServer {
    /// A supervisor for the standard pair of services: the API server, with
    /// the production marker in its environment, and the web server, which
    /// must be launched after it.
    pub fn new() -> (s: Self)
        ensures
            s@.wf(),
            s@.state() == SupervisorState::Idle,
            !s@.launching,
            !s@.stopped,
            s@.recorded.len() == 0,
            s@.configs.len() == 2,
            s@.configs[0].name@ == "api"@,
            s@.configs[0].port == API_PORT,
            s@.configs[0].env@.len() == 1,
            s@.configs[0].env@[0].0@ == "NODE_ENV"@,
            s@.configs[0].env@[0].1@ == "production"@,
            s@.configs[1].name@ == "web"@,
            s@.configs[1].port == WEB_PORT,
            s@.configs[1].env@.len() == 0,
    {
        let mut api_env: Vec<(String, String)> = Vec::new();
        api_env.push(("NODE_ENV".to_owned(), "production".to_owned()));
        let api = ServiceConfig { name: "api".to_owned(), port: API_PORT, env: api_env };
        let web = ServiceConfig { name: "web".to_owned(), port: WEB_PORT, env: Vec::new() };
        let mut services: Vec<ServiceConfig> = Vec::new();
        services.push(api);
        services.push(web);
        RedwoodServer { services, recorded: Vec::new(), launching: false, stopped: false }
    }

    /// Whether `start` may be called: idle, with no launch sequence pending.
    pub fn can_start(&self) -> (r: bool)
        ensures
            r == (self@.state() == SupervisorState::Idle && !self@.launching),
    {
        !self.stopped && self.recorded.len() == 0 && !self.launching
    }

    /// Whether a launch sequence is in progress, so that `record_spawn` is
    /// owed the next spawn outcome.
    pub fn awaiting_spawn(&self) -> (r: bool)
        ensures
            r == self@.launching,
    {
        self.launching
    }

    /// Decide the launch sequence.
    ///
    /// In development mode the services run out-of-band: nothing is to be
    /// spawned and the call succeeds with an empty sequence.  In production
    /// mode the working directory must be known and the build marker present;
    /// then one launch command per configured service is returned, in start
    /// order, and the supervisor awaits the spawn outcomes.
    pub fn start(&mut self, mode: Mode, cwd: Option<String>, build_exists: bool) -> (r: Result<
        Vec<LaunchCommand>,
        StartError,
    >)
        requires
            old(self)@.wf(),
            old(self)@.state() == SupervisorState::Idle,
            !old(self)@.launching,
        ensures
            final(self)@.wf(),
            final(self)@.configs == old(self)@.configs,
            r is Ok <==> (mode == Mode::Development || (cwd is Some && build_exists)),
            mode == Mode::Development ==> ({
                &&& r matches Ok(cmds)
                &&& cmds@.len() == 0
                &&& final(self)@ == old(self)@
            }),
            (mode == Mode::Production && cwd is None) ==> ({
                &&& r == Err::<Vec<LaunchCommand>, StartError>(
                    StartError::DirectoryResolutionFailed,
                )
                &&& final(self)@ == old(self)@
            }),
            (mode == Mode::Production && cwd is Some && !build_exists) ==> ({
                &&& r matches Err(e)
                &&& e matches StartError::BuildNotFound { expected_path, remediation }
                &&& expected_path@ == build_marker_path(cwd.unwrap()@)
                &&& remediation@ == rebuild_command()
                &&& final(self)@ == old(self)@
            }),
            (mode == Mode::Production && cwd is Some && build_exists) ==> ({
                &&& r matches Ok(cmds)
                &&& cmds@.len() == old(self)@.configs.len()
                &&& forall|i: int|
                    0 <= i < cmds@.len() ==> is_launch_command_for(
                        #[trigger] cmds@[i],
                        old(self)@.configs[i],
                        cwd.unwrap()@,
                    )
                &&& final(self)@.recorded == old(self)@.recorded
                &&& final(self)@.launching == (old(self)@.configs.len() > 0)
                &&& !final(self)@.stopped
            }),
    {
        match mode {
            Mode::Development => Ok(Vec::new()),
            Mode::Production => {
                let dir = match cwd {
                    Some(dir) => dir,
                    None => {
                        return Err(StartError::DirectoryResolutionFailed);
                    },
                };
                if !build_exists {
                    let mut expected = dir;
                    expected.append("/");
                    expected.append("api/dist");
                    return Err(
                        StartError::BuildNotFound {
                            expected_path: expected,
                            remediation: "yarn redwood build".to_owned(),
                        },
                    );
                }
                let mut cmds: Vec<LaunchCommand> = Vec::new();
                let mut i: usize = 0;
                while i < self.services.len()
                    invariant
                        i <= self.services@.len(),
                        cmds@.len() == i,
                        forall|j: int|
                            0 <= j < i as int ==> is_launch_command_for(
                                #[trigger] cmds@[j],
                                self.services@[j],
                                dir@,
                            ),
                    decreases self.services@.len() - i,
                {
                    cmds.push(launch_command_for(&self.services[i], &dir));
                    i += 1;
                }
                self.launching = self.services.len() > 0;
                Ok(cmds)
            },
        }
    }

    /// Record the outcome of the spawn the supervisor is waiting for.
    ///
    /// On success the process id is recorded as the handle of the next
    /// service in start order, and the result says whether the sequence is
    /// complete.  On failure the sequence ends: the services already recorded
    /// stay recorded — `stop` still tears them down — and the error names the
    /// service that could not be spawned.
    pub fn record_spawn(&mut self, outcome: Result<u32, String>) -> (r: Result<bool, StartError>)
        requires
            old(self)@.wf(),
            old(self)@.launching,
        ensures
            final(self)@.wf(),
            final(self)@.configs == old(self)@.configs,
            !final(self)@.stopped,
            r is Ok <==> outcome is Ok,
            outcome matches Ok(pid) ==> ({
                &&& final(self)@.recorded == old(self)@.recorded.push(pid)
                &&& final(self)@.launching == (old(self)@.recorded.len() + 1
                    < old(self)@.configs.len())
                &&& r == Ok::<bool, StartError>(
                    old(self)@.recorded.len() + 1 == old(self)@.configs.len(),
                )
            }),
            outcome matches Err(m) ==> ({
                &&& final(self)@.recorded == old(self)@.recorded
                &&& !final(self)@.launching
                &&& r matches Err(e)
                &&& e matches StartError::SpawnFailed { service, message }
                &&& service == old(self)@.configs[old(self)@.recorded.len() as int].name
                &&& message == m
            }),
    {
        match outcome {
            Ok(pid) => {
                self.recorded.push(pid);
                let done = self.recorded.len() == self.services.len();
                self.launching = !done;
                Ok(done)
            },
            Err(message) => {
                self.launching = false;
                let idx = self.recorded.len();
                let service = self.services[idx].name.clone();
                Err(StartError::SpawnFailed { service, message })
            },
        }
    }

    /// Clear every recorded handle — in reverse start order — and return the
    /// exact teardown plan the host must perform.  Idempotent: with no child
    /// recorded the plan is empty and the supervisor only reaches (or stays
    /// in) its terminal state.
    pub fn stop(&mut self) -> (plan: Vec<StopStep>)
        requires
            old(self)@.wf(),
        ensures
            final(self)@.wf(),
            final(self)@ == stopped_model(old(self)@),
            final(self)@.state() == SupervisorState::Stopped,
            forall|i: int| final(self)@.pid_at(i) is None,
            plan@ == stop_plan(old(self)@.stop_order()),
    {
        self.launching = false;
        self.stopped = true;
        let ghost orig = self.recorded@;
        let mut plan: Vec<StopStep> = Vec::new();
        proof {
            assert(orig.take(orig.len() as int) =~= orig);
            assert(orig.reverse().take(0) =~= Seq::<u32>::empty());
            assert(stop_plan(Seq::<u32>::empty()) =~= Seq::<StopStep>::empty());
        }
        while self.recorded.len() > 0
            invariant
                self.recorded@.len() <= orig.len(),
                self.recorded@ == orig.take(self.recorded@.len() as int),
                plan@ == stop_plan(
                    orig.reverse().take(orig.len() - self.recorded@.len()),
                ),
                self.stopped,
                !self.launching,
                self.services@ == old(self)@.configs,
            decreases self.recorded@.len(),
        {
            let ghost l: int = self.recorded@.len() as int;
            let ghost k: int = orig.len() - l;
            let pid = self.recorded.pop().unwrap();
            proof {
                assert(orig.take(l).subrange(0, l - 1) =~= orig.take(l - 1));
                assert(pid == orig[l - 1]);
                assert(orig.reverse()[k] == orig[l - 1]);
                assert(orig.reverse().take(k + 1) =~= orig.reverse().take(k).push(pid));
                lemma_stop_plan_push(orig.reverse().take(k), pid);
            }
            let ghost before = plan@;
            plan.push(StopStep::SignalGroup { pid, signal: Signal::Graceful });
            plan.push(StopStep::WaitGrace { millis: GRACE_MILLIS });
            plan.push(StopStep::SignalGroup { pid, signal: Signal::Forceful });
            plan.push(StopStep::Reap { pid });
            proof {
                assert(plan@ =~= before + teardown_steps(pid));
            }
        }
        proof {
            assert(self.recorded@ =~= Seq::<u32>::empty());
            assert(orig.reverse().take(orig.len() as int) =~= orig.reverse());
            assert(self@ =~= stopped_model(old(self)@));
        }
        plan
    }

    /// How many services are configured.
    pub fn service_count(&self) -> (n: usize)
        ensures
            n == self@.configs.len(),
    {
        self.services.len()
    }

    /// How many services are currently recorded as running.
    pub fn recorded_count(&self) -> (n: usize)
        ensures
            n == self@.recorded.len(),
    {
        self.recorded.len()
    }

    /// The recorded handle of service `i`, if any.
    pub fn pid_of(&self, i: usize) -> (p: Option<u32>)
        ensures
            p == self@.pid_at(i as int),
    {
        if i < self.recorded.len() {
            Some(self.recorded[i])
        } else {
            None
        }
    }

    /// The logical name of service `i`.
    pub fn service_name(&self, i: usize) -> (name: &String)
        requires
            i < self@.configs.len(),
        ensures
            *name == self@.configs[i as int].name,
    {
        &self.services[i].name
    }

    /// The configured port of service `i`.
    pub fn service_port(&self, i: usize) -> (port: u16)
        requires
            i < self@.configs.len(),
        ensures
            port == self@.configs[i as int].port,
    {
        self.services[i].port
    }

    /// The lifecycle state.
    pub fn state(&self) -> (st: SupervisorState)
        ensures
            st == self@.state(),
    {
        if self.stopped {
            SupervisorState::Stopped
        } else if self.recorded.len() > 0 {
            SupervisorState::Running
        } else {
            SupervisorState::Idle
        }
    }
}

/// Idempotence of teardown: a supervisor without recorded children — one that
/// never launched anything, or one already stopped — gets an empty teardown
/// plan, and stopping an already-stopped supervisor leaves its model exactly
/// as it is.
pub proof fn lemma_stop_idempotent(m: SupervisorModel)
    requires
        m.wf(),
        m.recorded.len() == 0,
    ensures
        stop_plan(m.stop_order()) == Seq::<StopStep>::empty(),
        m.stopped ==> stopped_model(m) == m,
{
    assert(m.stop_order() =~= Seq::<u32>::empty());
    assert(stop_plan(m.stop_order()) =~= Seq::<StopStep>::empty());
    if m.stopped {
        assert(stopped_model(m) =~= m);
    }
}

/// Reverse-order teardown: for services started earlier (`i`) and later
/// (`j`), the teardown plan signals the later one's process group strictly
/// before the earlier one's.
pub proof fn lemma_stop_reverse_order(m: SupervisorModel, i: int, j: int)
    requires
        m.wf(),
        0 <= i < j < m.recorded.len(),
    ensures
        ({
            let plan = stop_plan(m.stop_order());
            let pi = 4 * (m.recorded.len() - 1 - i);
            let pj = 4 * (m.recorded.len() - 1 - j);
            &&& 0 <= pj < pi < plan.len()
            &&& plan[pj] == (StopStep::SignalGroup {
                pid: m.recorded[j],
                signal: Signal::Graceful,
            })
            &&& plan[pi] == (StopStep::SignalGroup {
                pid: m.recorded[i],
                signal: Signal::Graceful,
            })
        }),
{
    let r = m.stop_order();
    lemma_stop_plan_index(r, m.recorded.len() - 1 - i);
    lemma_stop_plan_index(r, m.recorded.len() - 1 - j);
    assert(r[m.recorded.len() - 1 - i] == m.recorded[i]);
    assert(r[m.recorded.len() - 1 - j] == m.recorded[j]);
}

/// Partial-failure recovery: every recorded service — however the launch
/// sequence ended after it was recorded — has its graceful signal, its
/// forceful signal and its reap in the teardown plan.
pub proof fn lemma_recorded_always_torn_down(m: SupervisorModel, k: int)
    requires
        m.wf(),
        0 <= k < m.recorded.len(),
    ensures
        stop_plan(m.stop_order()).contains(
            StopStep::SignalGroup { pid: m.recorded[k], signal: Signal::Graceful },
        ),
        stop_plan(m.stop_order()).contains(
            StopStep::SignalGroup { pid: m.recorded[k], signal: Signal::Forceful },
        ),
        stop_plan(m.stop_order()).contains(StopStep::Reap { pid: m.recorded[k] }),
{
    let r = m.stop_order();
    let pos = m.recorded.len() - 1 - k;
    lemma_stop_plan_index(r, pos);
    assert(r[pos] == m.recorded[k]);
    assert(stop_plan(r)[4 * pos] == (StopStep::SignalGroup {
        pid: m.recorded[k],
        signal: Signal::Graceful,
    }));
    assert(stop_plan(r)[4 * pos + 2] == (StopStep::SignalGroup {
        pid: m.recorded[k],
        signal: Signal::Forceful,
    }));
    assert(stop_plan(r)[4 * pos + 3] == (StopStep::Reap { pid: m.recorded[k] }));
}

} // verus!
