use vstd::prelude::*;

verus! {

/// What one look at the supervised process found.
#[derive(Debug, Clone, Copy, PartialEq, Eq, Structural)]
pub enum Observation {
    /// No process is supervised.
    NotTracked,
    /// The supervised process is still running.
    Alive,
    /// The supervised process ended without a stop request; it is no longer supervised.
    ExitedUnexpectedly,
    /// The supervised process ended after a stop request; it is no longer supervised.
    ExitedAfterStop,
}

impl Observation {
    /// Whether an "exited" notification is owed for this observation.
    pub fn notifies_exit(&self) -> (r: bool)
        ensures
            r == (*self == Observation::ExitedUnexpectedly),
    {
        match self {
            Observation::ExitedUnexpectedly => true,
            _ => false,
        }
    }

    /// Whether the liveness monitor stops after this observation.
    pub fn ends_monitor(&self) -> (r: bool)
        ensures
            r == (*self != Observation::Alive),
    {
        match self {
            Observation::Alive => false,
            _ => true,
        }
    }
}

/// What a start request asks of the caller.
#[derive(Debug, Clone, Copy, PartialEq, Eq, Structural)]
pub enum StartStep {
    /// A process is already running: nothing to do.
    AlreadyRunning,
    /// Spawn a new process, then report the outcome with `spawned`.
    Spawn,
}

/// The supervisor's state, as plain values: whether a process is supervised,
/// and whether a stop was requested since the last start.
pub struct SupervisorView {
    pub running: bool,
    pub stop_requested: bool,
}

/// The state after a non-blocking look at the supervised process; `exited`
/// says whether it has ended.
pub open spec fn observe_next(v: SupervisorView, exited: bool) -> SupervisorView {
    SupervisorView { running: v.running && !exited, ..v }
}

/// What that look reports.
pub open spec fn observation(v: SupervisorView, exited: bool) -> Observation {
    if !v.running {
        Observation::NotTracked
    } else if !exited {
        Observation::Alive
    } else if v.stop_requested {
        Observation::ExitedAfterStop
    } else {
        Observation::ExitedUnexpectedly
    }
}

/// What a start request decides.
pub open spec fn start_step(v: SupervisorView) -> StartStep {
    if v.running {
        StartStep::AlreadyRunning
    } else {
        StartStep::Spawn
    }
}

/// The state after a start request is decided.
pub open spec fn spawn_next(v: SupervisorView) -> SupervisorView {
    if v.running {
        v
    } else {
        SupervisorView { running: false, stop_requested: false }
    }
}

/// The state after a spawn succeeded.
pub open spec fn spawned_next(v: SupervisorView) -> SupervisorView {
    SupervisorView { running: true, ..v }
}

/// The state after a stop request is taken in.
pub open spec fn stop_next(v: SupervisorView) -> SupervisorView {
    SupervisorView { stop_requested: true, ..v }
}

/// The state after the supervised process was killed and waited for.
pub open spec fn stopped_next(v: SupervisorView) -> SupervisorView {
    SupervisorView { running: false, ..v }
}

/// The supervisor of at most one backend process.
pub struct BackendManager {
    backend_dir: String,
    running: bool,
    manual_stop: bool,
}

impl View for BackendManager {
    type V = SupervisorView;

    closed spec fn view(&self) -> SupervisorView {
        SupervisorView { running: self.running, stop_requested: self.manual_stop }
    }
}

impl BackendManager {
    /// Directory that the backend runs in.
    pub closed spec fn dir(&self) -> Seq<char> {
        self.backend_dir@
    }

    /// A supervisor with no process, for a backend that runs in `backend_dir`.
    pub fn new(backend_dir: String) -> (r: BackendManager)
        ensures
            r@ == (SupervisorView { running: false, stop_requested: false }),
            r.dir() == backend_dir@,
    {
        BackendManager { backend_dir, running: false, manual_stop: false }
    }

    /// A supervisor with no process, for the backend source tree `src-py`
    /// that lies in `base`.
    pub fn for_base(base: &str) -> (r: BackendManager)
        ensures
            r@ == (SupervisorView { running: false, stop_requested: false }),
            r.dir() == base@ + "/src-py"@,
    {
        BackendManager::new(base.to_owned().concat("/src-py"))
    }

    /// Directory that the backend runs in.
    pub fn backend_dir_string(&self) -> (r: String)
        ensures
            r@ == self.dir(),
    {
        self.backend_dir.clone()
    }

    /// Takes in a non-blocking look at the supervised process: `exited` says
    /// whether it has ended. An ended process is no longer supervised, and the
    /// first look that finds it ended is the one that reports it.
    pub fn observe(&mut self, exited: bool) -> (r: Observation)
        ensures
            r == observation(old(self)@, exited),
            final(self)@ == observe_next(old(self)@, exited),
            final(self).dir() == old(self).dir(),
    {
        if !self.running {
            Observation::NotTracked
        } else if !exited {
            Observation::Alive
        } else {
            self.running = false;
            if self.manual_stop {
                Observation::ExitedAfterStop
            } else {
                Observation::ExitedUnexpectedly
            }
        }
    }

    /// Whether a process is supervised and, as last observed, running.
    pub fn is_running(&self) -> (r: bool)
        ensures
            r == self@.running,
    {
        self.running
    }

    /// Decides a start request, after `observe` has taken in whether a
    /// supervised process exited. A running process makes it a no-op;
    /// otherwise the stop request is cleared and a process is to be spawned.
    pub fn spawn(&mut self) -> (r: StartStep)
        ensures
            r == start_step(old(self)@),
            final(self)@ == spawn_next(old(self)@),
            final(self).dir() == old(self).dir(),
    {
        if self.running {
            StartStep::AlreadyRunning
        } else {
            self.manual_stop = false;
            StartStep::Spawn
        }
    }

    /// Records that the process asked for by `spawn` was started.
    pub fn spawned(&mut self)
        ensures
            final(self)@ == spawned_next(old(self)@),
            final(self).dir() == old(self).dir(),
    {
        self.running = true;
    }

    /// Marks the coming exit as deliberate; returns whether a supervised
    /// process is to be killed, after which the caller reports with `stopped`.
    pub fn stop(&mut self) -> (r: bool)
        ensures
            r == old(self)@.running,
            final(self)@ == stop_next(old(self)@),
            final(self).dir() == old(self).dir(),
    {
        self.manual_stop = true;
        self.running
    }

    /// Records that the supervised process was killed and waited for.
    pub fn stopped(&mut self)
        ensures
            final(self)@ == stopped_next(old(self)@),
            final(self).dir() == old(self).dir(),
    {
        self.running = false;
    }
}

/// Arguments that the backend interpreter is started with.
pub open spec fn backend_arg_words(reload: bool) -> Seq<Seq<char>> {
    let base = seq![
        "-m"@,
        "poetry"@,
        "run"@,
        "uvicorn"@,
        "dreamcanvas.app:app"@,
        "--host"@,
        "127.0.0.1"@,
        "--port"@,
        "18500"@,
    ];
    if reload {
        base.push("--reload"@)
    } else {
        base
    }
}

/// Arguments that the backend interpreter is started with: the server module
/// on the fixed host and port, with hot reloading where asked for.
pub fn backend_args(reload: bool) -> (r: Vec<String>)
    ensures
        r@.map_values(|s: String| s@) == backend_arg_words(reload),
{
    let mut args: Vec<String> = Vec::new();
    args.push(String::from_str("-m"));
    args.push(String::from_str("poetry"));
    args.push(String::from_str("run"));
    args.push(String::from_str("uvicorn"));
    args.push(String::from_str("dreamcanvas.app:app"));
    args.push(String::from_str("--host"));
    args.push(String::from_str("127.0.0.1"));
    args.push(String::from_str("--port"));
    args.push(String::from_str("18500"));
    if reload {
        args.push(String::from_str("--reload"));
    }
    assert(args@.map_values(|s: String| s@) =~= backend_arg_words(reload));
    args
}

/// The interpreter to run: the configured one, else the default.
pub fn python_bin(configured: Option<String>) -> (r: String)
    ensures
        configured is Some ==> r@ == configured->Some_0@,
        configured is None ==> r@ == "python"@,
{
    match configured {
        Some(bin) => bin,
        None => String::from_str("python"),
    }
}

/// Reported by a status request.
pub struct BackendStatus {
    pub running: bool,
    pub backend_dir: String,
}

/// Sent when the backend was started.
pub struct BackendStartedEvent {
    pub backend_dir: String,
}

/// Sent when the backend stopped; the reason is "manual" or "exited".
pub struct BackendStoppedEvent {
    pub reason: String,
}

impl BackendManager {
    /// Reports, after `observe`, whether the backend runs and where.
    pub fn status(&self) -> (r: BackendStatus)
        ensures
            r.running == self@.running,
            r.backend_dir@ == self.dir(),
    {
        BackendStatus { running: self.running, backend_dir: self.backend_dir.clone() }
    }

    /// The notification of a start.
    pub fn started_event(&self) -> (r: BackendStartedEvent)
        ensures
            r.backend_dir@ == self.dir(),
    {
        BackendStartedEvent { backend_dir: self.backend_dir.clone() }
    }
}

impl BackendStoppedEvent {
    /// The notification of a stop request that succeeded.
    pub fn manual() -> (r: BackendStoppedEvent)
        ensures
            r.reason@ == "manual"@,
    {
        BackendStoppedEvent { reason: String::from_str("manual") }
    }

    /// The notification of a process that ended on its own.
    pub fn exited() -> (r: BackendStoppedEvent)
        ensures
            r.reason@ == "exited"@,
    {
        BackendStoppedEvent { reason: String::from_str("exited") }
    }
}


/// How many "exited" notifications a run of looks at the supervised process
/// owes, with `exits[i]` saying whether the i-th look found it ended.
pub open spec fn exit_notices(v: SupervisorView, exits: Seq<bool>) -> nat
    decreases exits.len(),
{
    if exits.len() == 0 {
        0
    } else {
        let here: nat = if observation(v, exits[0]) == Observation::ExitedUnexpectedly {
            1
        } else {
            0
        };
        here + exit_notices(observe_next(v, exits[0]), exits.drop_first())
    }
}

/// Starting twice without a stop in between: once a start has spawned a
/// process, a second start that finds it still running changes nothing and
/// spawns nothing.
pub proof fn lemma_start_twice(v: SupervisorView, exited: bool)
    ensures
        ({
            let first = spawned_next(spawn_next(observe_next(v, exited)));
            &&& observe_next(first, false) == first
            &&& start_step(observe_next(first, false)) == StartStep::AlreadyRunning
            &&& spawn_next(observe_next(first, false)) == first
        }),
{
}

/// After a stop that succeeded, whether or not a process had to be killed,
/// a status request reports the backend as not running.
pub proof fn lemma_stop_then_status(v: SupervisorView, exited: bool)
    ensures
        ({
            let requested = stop_next(v);
            let done = if requested.running { stopped_next(requested) } else { requested };
            &&& !observe_next(done, exited).running
            &&& observation(done, exited) == Observation::NotTracked
        }),
{
}

/// A process that ends on its own is reported exactly once, by whichever
/// look (a status request or the monitor) first finds it ended.
pub proof fn lemma_unexpected_exit_reported_once(v: SupervisorView, exits: Seq<bool>)
    requires
        v.running,
        !v.stop_requested,
        exists|i: int| 0 <= i < exits.len() && exits[i],
    ensures
        exit_notices(v, exits) == 1,
    decreases exits.len(),
{
    if exits[0] {
        lemma_no_notice_when_stopped(observe_next(v, true), exits.drop_first());
    } else {
        let i = choose|i: int| 0 <= i < exits.len() && exits[i];
        assert(exits.drop_first()[i - 1]);
        lemma_unexpected_exit_reported_once(observe_next(v, false), exits.drop_first());
    }
}

/// After a stop request, or once nothing is supervised, no look owes an
/// "exited" notification, however the process ends.
pub proof fn lemma_no_notice_when_stopped(v: SupervisorView, exits: Seq<bool>)
    requires
        v.stop_requested || !v.running,
    ensures
        exit_notices(v, exits) == 0,
    decreases exits.len(),
{
    if exits.len() > 0 {
        lemma_no_notice_when_stopped(observe_next(v, exits[0]), exits.drop_first());
    }
}

} // verus!
