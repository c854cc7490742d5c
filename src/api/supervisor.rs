//! The supervisor of the behaviour-script interpreter, as a state machine:
//! each operation and each reported event gives the next step for the caller
//! to perform, so that spawning, signalling and waiting stay with the caller.
use vstd::prelude::*;
use vstd::string::StringExecFns;

use crate::api::errors::ApiError;
use crate::api::messager::{message_exchange, ApiExchange, ApiMessager};
use crate::models::api::ApiTickInputMessage;

verus! {

/// How long a process is given to exit after the graceful signal, in
/// milliseconds, before it is killed.
pub const KILL_TIMEOUT_MS: u64 = 2000;

/// The life-cycle state of the interpreter process.
#[derive(Clone, Copy, Debug, PartialEq, Eq, Structural)]
pub enum ProcessState {
    /// No process.
    Stopped,
    /// A process is being created, fed its script, and connected.
    Starting,
    /// A process is active.
    Running,
    /// The process is being terminated.
    Stopping,
}

/// The step whose outcome the supervisor waits for.
#[derive(Clone, Copy, Debug, PartialEq, Eq, Structural)]
pub enum PendingStep {
    /// No operation is in progress.
    Idle,
    CloseEndpoint,
    Terminate,
    ExitWait,
    ForceKill,
    Spawn,
    WriteScript,
    Bind,
}

/// A step for the caller to perform, or the end of the operation.
#[derive(Clone, Copy, Debug, PartialEq, Eq)]
pub enum SupervisorAction {
    /// Close the endpoint, so that no further request is accepted.
    CloseEndpoint,
    /// Send the graceful termination signal to the process.
    SendTerminate,
    /// Wait at most `timeout_ms` milliseconds for the process to exit.
    WaitForExit { timeout_ms: u64 },
    /// Kill the process.
    ForceKill,
    /// Create the interpreter process, detached, with the spawn command.
    Spawn,
    /// Write the staged script to the process's input stream.
    WriteScript,
    /// Bind the endpoint.
    BindEndpoint,
    /// The operation is over, with this result.
    Finished(Result<(), ApiError>),
}

/// What came of the step that the supervisor asked for.
#[derive(Clone, Copy, Debug, PartialEq, Eq)]
pub enum SupervisorEvent {
    EndpointClosed,
    TerminateSent { delivered: bool },
    WaitEnded { exited: bool },
    ForceKilled { ok: bool },
    Spawned { ok: bool },
    ScriptWritten { ok: bool },
    EndpointBound { result: Result<(), i32> },
}

/// The action that asks for the outcome of `p`.
pub open spec fn action_for(p: PendingStep) -> SupervisorAction {
    match p {
        PendingStep::Idle => SupervisorAction::Finished(Err(ApiError::General)),
        PendingStep::CloseEndpoint => SupervisorAction::CloseEndpoint,
        PendingStep::Terminate => SupervisorAction::SendTerminate,
        PendingStep::ExitWait => SupervisorAction::WaitForExit { timeout_ms: KILL_TIMEOUT_MS },
        PendingStep::ForceKill => SupervisorAction::ForceKill,
        PendingStep::Spawn => SupervisorAction::Spawn,
        PendingStep::WriteScript => SupervisorAction::WriteScript,
        PendingStep::Bind => SupervisorAction::BindEndpoint,
    }
}

/// Once the old process is gone: a restart goes on to spawn a new one, a
/// kill is over.
pub open spec fn after_reclaim(restart: bool) -> (ProcessState, PendingStep, SupervisorAction) {
    if restart {
        (ProcessState::Starting, PendingStep::Spawn, SupervisorAction::Spawn)
    } else {
        (ProcessState::Stopped, PendingStep::Idle, SupervisorAction::Finished(Ok(())))
    }
}

/// How kill or restart begins in `state`: a busy supervisor refuses; with no
/// process a kill is over at once and a restart spawns; with a process both
/// close the endpoint first.
pub open spec fn begin_step(state: ProcessState, pending: PendingStep, restart: bool) -> (
    ProcessState,
    PendingStep,
    SupervisorAction,
) {
    if pending != PendingStep::Idle {
        (state, pending, SupervisorAction::Finished(Err(ApiError::General)))
    } else if state == ProcessState::Running {
        (ProcessState::Stopping, PendingStep::CloseEndpoint, SupervisorAction::CloseEndpoint)
    } else if restart {
        (ProcessState::Starting, PendingStep::Spawn, SupervisorAction::Spawn)
    } else {
        (state, PendingStep::Idle, SupervisorAction::Finished(Ok(())))
    }
}

/// The event reports that the endpoint was bound, as the pending step asked.
pub open spec fn binds_endpoint(pending: PendingStep, event: SupervisorEvent) -> bool {
    pending == PendingStep::Bind && match event {
        SupervisorEvent::EndpointBound { result } => result is Ok,
        _ => false,
    }
}

/// The transition on an event. An event that answers no pending step leaves
/// everything as it is and asks for that step again; with no operation in
/// progress it is refused.
pub open spec fn next_step(
    state: ProcessState,
    pending: PendingStep,
    restart: bool,
    event: SupervisorEvent,
) -> (ProcessState, PendingStep, SupervisorAction) {
    match (pending, event) {
        (PendingStep::CloseEndpoint, SupervisorEvent::EndpointClosed) => (
            ProcessState::Stopping,
            PendingStep::Terminate,
            SupervisorAction::SendTerminate,
        ),
        (PendingStep::Terminate, SupervisorEvent::TerminateSent { delivered }) => if delivered {
            (
                ProcessState::Stopping,
                PendingStep::ExitWait,
                SupervisorAction::WaitForExit { timeout_ms: KILL_TIMEOUT_MS },
            )
        } else {
            (
                ProcessState::Running,
                PendingStep::Idle,
                SupervisorAction::Finished(Err(ApiError::ProcessError)),
            )
        },
        (PendingStep::ExitWait, SupervisorEvent::WaitEnded { exited }) => if exited {
            after_reclaim(restart)
        } else {
            (ProcessState::Stopping, PendingStep::ForceKill, SupervisorAction::ForceKill)
        },
        (PendingStep::ForceKill, SupervisorEvent::ForceKilled { ok }) => if ok {
            after_reclaim(restart)
        } else {
            (
                ProcessState::Running,
                PendingStep::Idle,
                SupervisorAction::Finished(Err(ApiError::ProcessError)),
            )
        },
        (PendingStep::Spawn, SupervisorEvent::Spawned { ok }) => if ok {
            (ProcessState::Starting, PendingStep::WriteScript, SupervisorAction::WriteScript)
        } else {
            (
                ProcessState::Stopped,
                PendingStep::Idle,
                SupervisorAction::Finished(Err(ApiError::ProcessSpawnError)),
            )
        },
        (PendingStep::WriteScript, SupervisorEvent::ScriptWritten { ok }) => if ok {
            (ProcessState::Starting, PendingStep::Bind, SupervisorAction::BindEndpoint)
        } else {
            (
                ProcessState::Running,
                PendingStep::Idle,
                SupervisorAction::Finished(Err(ApiError::IO)),
            )
        },
        (PendingStep::Bind, SupervisorEvent::EndpointBound { result }) => (
            ProcessState::Running,
            PendingStep::Idle,
            SupervisorAction::Finished(
                match result {
                    Ok(u) => Ok(u),
                    Err(e) => Err(ApiError::ZMQError(e)),
                },
            ),
        ),
        (PendingStep::Idle, _) => (
            state,
            PendingStep::Idle,
            SupervisorAction::Finished(Err(ApiError::General)),
        ),
        _ => (state, pending, action_for(pending)),
    }
}

/// Where an operation stands: the process's state, the step awaited, and
/// whether the operation is a restart.
#[derive(Clone, Copy, Debug, PartialEq, Eq, Structural)]
struct Phase {
    state: ProcessState,
    pending: PendingStep,
    restart: bool,
}

/// A pending step belongs to the state: none while stopped or running,
/// a termination step while stopping, a start-up step while starting.
pub open spec fn step_fits_state(state: ProcessState, pending: PendingStep) -> bool {
    match pending {
        PendingStep::Idle => state == ProcessState::Stopped || state == ProcessState::Running,
        PendingStep::CloseEndpoint | PendingStep::Terminate | PendingStep::ExitWait
        | PendingStep::ForceKill => state == ProcessState::Stopping,
        PendingStep::Spawn | PendingStep::WriteScript | PendingStep::Bind => state
            == ProcessState::Starting,
    }
}

/// Spawns, restarts and terminates the interpreter process, and owns the
/// endpoint through which the process's requests are answered. The endpoint
/// is bound only while a process runs and no operation is in progress.
#[derive(Debug)]
pub struct ApiController {
    phase: Phase,
    script: Vec<u8>,
    api_messager: ApiMessager,
}

impl ApiController {
    #[verifier::type_invariant]
    spec fn consistent(&self) -> bool {
        &&& step_fits_state(self.phase.state, self.phase.pending)
        &&& self.api_messager.bound() ==> self.phase.state == ProcessState::Running
            && self.phase.pending == PendingStep::Idle
    }

    /// The state of the interpreter process.
    pub closed spec fn state(&self) -> ProcessState {
        self.phase.state
    }

    /// The step whose outcome is awaited.
    pub closed spec fn pending(&self) -> PendingStep {
        self.phase.pending
    }

    /// Whether the operation in progress is a restart.
    pub closed spec fn restarting(&self) -> bool {
        self.phase.restart
    }

    /// The script staged for the next start.
    pub closed spec fn script(&self) -> Seq<u8> {
        self.script@
    }

    /// The endpoint's address.
    pub closed spec fn address(&self) -> Seq<char> {
        self.api_messager.address()
    }

    /// Whether the endpoint is bound.
    pub closed spec fn bound(&self) -> bool {
        self.api_messager.bound()
    }

    /// A process is active: staging a script is refused.
    pub open spec fn process_active(&self) -> bool {
        self.state() != ProcessState::Stopped
    }

    /// A supervisor with no process, no script and an unbound endpoint at
    /// `comm_uri`.
    pub fn new(comm_uri: &str) -> (c: ApiController)
        ensures
            c.state() == ProcessState::Stopped,
            c.pending() == PendingStep::Idle,
            c.script() == Seq::<u8>::empty(),
            c.address() == comm_uri@,
            !c.bound(),
    {
        ApiController {
            phase: Phase {
                state: ProcessState::Stopped,
                pending: PendingStep::Idle,
                restart: false,
            },
            script: Vec::new(),
            api_messager: ApiMessager::new(comm_uri),
        }
    }

    /// Stages the script for the next start; refused with `AlreadyRunning`
    /// while a process is active.
    pub fn set_script(&mut self, string: Vec<u8>) -> (r: Result<(), ApiError>)
        ensures
            old(self).process_active() ==> r == Err::<(), ApiError>(ApiError::AlreadyRunning)
                && final(self).script() == old(self).script(),
            !old(self).process_active() ==> r is Ok && final(self).script() == string@,
            final(self).state() == old(self).state(),
            final(self).pending() == old(self).pending(),
            final(self).restarting() == old(self).restarting(),
            final(self).address() == old(self).address(),
            final(self).bound() == old(self).bound(),
    {
        proof {
            use_type_invariant(&*self);
        }
        if self.phase.state != ProcessState::Stopped {
            return Err(ApiError::AlreadyRunning);
        }
        self.script = string;
        Ok(())
    }

    /// Closes the endpoint.
    fn close_endpoint(&mut self)
        ensures
            final(self).phase == old(self).phase,
            final(self).script() == old(self).script(),
            final(self).address() == old(self).address(),
            !final(self).bound(),
    {
        proof {
            use_type_invariant(&*self);
        }
        let mut m = ApiMessager::new("");
        std::mem::swap(&mut m, &mut self.api_messager);
        m.stop();
        self.api_messager = m;
    }

    fn begin(&mut self, restart: bool) -> (action: SupervisorAction)
        ensures
            (final(self).state(), final(self).pending(), action) == begin_step(
                old(self).state(),
                old(self).pending(),
                restart,
            ),
            old(self).pending() != PendingStep::Idle ==> final(self).restarting()
                == old(self).restarting() && final(self).bound() == old(self).bound(),
            old(self).pending() == PendingStep::Idle ==> final(self).restarting() == restart
                && !final(self).bound(),
            final(self).script() == old(self).script(),
            final(self).address() == old(self).address(),
    {
        proof {
            use_type_invariant(&*self);
        }
        if self.phase.pending != PendingStep::Idle {
            return SupervisorAction::Finished(Err(ApiError::General));
        }
        self.close_endpoint();
        if self.phase.state == ProcessState::Running {
            self.phase = Phase {
                state: ProcessState::Stopping,
                pending: PendingStep::CloseEndpoint,
                restart,
            };
            SupervisorAction::CloseEndpoint
        } else if restart {
            self.phase = Phase {
                state: ProcessState::Starting,
                pending: PendingStep::Spawn,
                restart,
            };
            SupervisorAction::Spawn
        } else {
            self.phase = Phase { state: self.phase.state, pending: PendingStep::Idle, restart };
            SupervisorAction::Finished(Ok(()))
        }
    }

    /// Begins terminating the process: with none, succeeds at once; with
    /// one, closes the endpoint first, then signals, waits and kills.
    pub fn kill(&mut self) -> (action: SupervisorAction)
        ensures
            (final(self).state(), final(self).pending(), action) == begin_step(
                old(self).state(),
                old(self).pending(),
                false,
            ),
            old(self).pending() == PendingStep::Idle ==> !final(self).restarting()
                && !final(self).bound(),
            final(self).script() == old(self).script(),
            final(self).address() == old(self).address(),
    {
        self.begin(false)
    }

    /// Begins a restart: the running process, if any, is stopped as `kill`
    /// does, then a new one is spawned, fed the script, and the endpoint is
    /// bound.
    pub fn restart_api(&mut self) -> (action: SupervisorAction)
        ensures
            (final(self).state(), final(self).pending(), action) == begin_step(
                old(self).state(),
                old(self).pending(),
                true,
            ),
            old(self).pending() == PendingStep::Idle ==> final(self).restarting()
                && !final(self).bound(),
            final(self).script() == old(self).script(),
            final(self).address() == old(self).address(),
    {
        self.begin(true)
    }

    /// Takes the outcome of the pending step and gives the next one.
    pub fn on_event(&mut self, event: SupervisorEvent) -> (action: SupervisorAction)
        ensures
            (final(self).state(), final(self).pending(), action) == next_step(
                old(self).state(),
                old(self).pending(),
                old(self).restarting(),
                event,
            ),
            final(self).restarting() == old(self).restarting(),
            final(self).bound() == (old(self).bound() || binds_endpoint(
                old(self).pending(),
                event,
            )),
            final(self).script() == old(self).script(),
            final(self).address() == old(self).address(),
    {
        proof {
            use_type_invariant(&*self);
        }
        let restart = self.phase.restart;
        match (self.phase.pending, event) {
            (PendingStep::CloseEndpoint, SupervisorEvent::EndpointClosed) => {
                self.phase = Phase {
                        state: ProcessState::Stopping,
                        pending: PendingStep::Terminate,
                        restart,
                    };
                SupervisorAction::SendTerminate
            },
            (PendingStep::Terminate, SupervisorEvent::TerminateSent { delivered }) => {
                if delivered {
                    self.phase = Phase {
                        state: ProcessState::Stopping,
                        pending: PendingStep::ExitWait,
                        restart,
                    };
                    SupervisorAction::WaitForExit { timeout_ms: KILL_TIMEOUT_MS }
                } else {
                    self.phase = Phase {
                        state: ProcessState::Running,
                        pending: PendingStep::Idle,
                        restart,
                    };
                    SupervisorAction::Finished(Err(ApiError::ProcessError))
                }
            },
            (PendingStep::ExitWait, SupervisorEvent::WaitEnded { exited }) => {
                if exited {
                    self.reclaimed()
                } else {
                    self.phase = Phase {
                        state: ProcessState::Stopping,
                        pending: PendingStep::ForceKill,
                        restart,
                    };
                    SupervisorAction::ForceKill
                }
            },
            (PendingStep::ForceKill, SupervisorEvent::ForceKilled { ok }) => {
                if ok {
                    self.reclaimed()
                } else {
                    self.phase = Phase {
                        state: ProcessState::Running,
                        pending: PendingStep::Idle,
                        restart,
                    };
                    SupervisorAction::Finished(Err(ApiError::ProcessError))
                }
            },
            (PendingStep::Spawn, SupervisorEvent::Spawned { ok }) => {
                if ok {
                    self.phase = Phase {
                        state: ProcessState::Starting,
                        pending: PendingStep::WriteScript,
                        restart,
                    };
                    SupervisorAction::WriteScript
                } else {
                    self.phase = Phase {
                        state: ProcessState::Stopped,
                        pending: PendingStep::Idle,
                        restart,
                    };
                    SupervisorAction::Finished(Err(ApiError::ProcessSpawnError))
                }
            },
            (PendingStep::WriteScript, SupervisorEvent::ScriptWritten { ok }) => {
                if ok {
                    self.phase = Phase {
                        state: ProcessState::Starting,
                        pending: PendingStep::Bind,
                        restart,
                    };
                    SupervisorAction::BindEndpoint
                } else {
                    self.phase = Phase {
                        state: ProcessState::Running,
                        pending: PendingStep::Idle,
                        restart,
                    };
                    SupervisorAction::Finished(Err(ApiError::IO))
                }
            },
            (PendingStep::Bind, SupervisorEvent::EndpointBound { result }) => {
                self.phase = Phase {
                        state: ProcessState::Running,
                        pending: PendingStep::Idle,
                        restart,
                    };
                let mut m = ApiMessager::new("");
                std::mem::swap(&mut m, &mut self.api_messager);
                let r = m.start(result);
                self.api_messager = m;
                SupervisorAction::Finished(r)
            },
            (PendingStep::Idle, _) => SupervisorAction::Finished(Err(ApiError::General)),
            (p, _) => ApiController::action_of(p),
        }
    }

    fn reclaimed(&mut self) -> (action: SupervisorAction)
        requires
            old(self).state() == ProcessState::Stopping,
        ensures
            (final(self).state(), final(self).pending(), action) == after_reclaim(
                old(self).restarting(),
            ),
            final(self).restarting() == old(self).restarting(),
            final(self).bound() == old(self).bound(),
            final(self).script() == old(self).script(),
            final(self).address() == old(self).address(),
    {
        proof {
            use_type_invariant(&*self);
        }
        let restart = self.phase.restart;
        if restart {
            self.phase = Phase {
                        state: ProcessState::Starting,
                        pending: PendingStep::Spawn,
                        restart,
                    };
            SupervisorAction::Spawn
        } else {
            self.phase = Phase {
                        state: ProcessState::Stopped,
                        pending: PendingStep::Idle,
                        restart,
                    };
            SupervisorAction::Finished(Ok(()))
        }
    }

    fn action_of(p: PendingStep) -> (a: SupervisorAction)
        ensures
            a == action_for(p),
    {
        match p {
            PendingStep::Idle => SupervisorAction::Finished(Err(ApiError::General)),
            PendingStep::CloseEndpoint => SupervisorAction::CloseEndpoint,
            PendingStep::Terminate => SupervisorAction::SendTerminate,
            PendingStep::ExitWait => SupervisorAction::WaitForExit { timeout_ms: KILL_TIMEOUT_MS },
            PendingStep::ForceKill => SupervisorAction::ForceKill,
            PendingStep::Spawn => SupervisorAction::Spawn,
            PendingStep::WriteScript => SupervisorAction::WriteScript,
            PendingStep::Bind => SupervisorAction::BindEndpoint,
        }
    }

    /// Whether the endpoint is bound.
    pub fn is_bound(&self) -> (b: bool)
        ensures
            b == self.bound(),
    {
        self.api_messager.is_bound()
    }

    /// The state of the interpreter process. It also shows that the
    /// supervisor is consistent: the pending step belongs to the state, and
    /// the endpoint is bound only while a process runs with no operation in
    /// progress.
    pub fn process_state(&self) -> (s: ProcessState)
        ensures
            s == self.state(),
            step_fits_state(self.state(), self.pending()),
            self.bound() ==> self.state() == ProcessState::Running && self.pending()
                == PendingStep::Idle,
    {
        proof {
            use_type_invariant(self);
        }
        self.phase.state
    }

    /// The script staged for the next start.
    pub fn script_bytes(&self) -> (s: &Vec<u8>)
        ensures
            s@ == self.script(),
    {
        &self.script
    }

    /// The endpoint's address.
    pub fn comm_file(&self) -> (s: &str)
        ensures
            s@ == self.address(),
    {
        self.api_messager.comm_file()
    }

    /// The command that starts the interpreter: the interpreter, its module,
    /// and the endpoint's address as the last argument.
    pub fn spawn_command(&self) -> (cmd: Vec<String>)
        ensures
            cmd@.len() == 4,
            cmd@[0]@ == "python2"@,
            cmd@[1]@ == "-m"@,
            cmd@[2]@ == "cocos_py2"@,
            cmd@[3]@ == self.address(),
    {
        let mut cmd: Vec<String> = Vec::new();
        cmd.push(String::from_str("python2"));
        cmd.push(String::from_str("-m"));
        cmd.push(String::from_str("cocos_py2"));
        cmd.push(String::from_str(self.api_messager.comm_file()));
        cmd
    }

    /// Answers one received message through the endpoint; fails with
    /// `SockNotReady` where it is not bound.
    pub fn run_tick(&self, message: &[u8], data: &ApiTickInputMessage) -> (r: Result<
        ApiExchange,
        ApiError,
    >)
        ensures
            !self.bound() ==> (r matches Err(e) && e == ApiError::SockNotReady),
            self.bound() ==> (r matches Ok(x) && message_exchange(message@, data.bot_pos, x)),
    {
        self.api_messager.run_tick(message, data)
    }
}

} // verus!

verus! {

/// The event confirms that the old process is gone: it exited within the
/// wait, or it was killed.
pub open spec fn is_reclaim(e: SupervisorEvent) -> bool {
    e == SupervisorEvent::WaitEnded { exited: true } || e == SupervisorEvent::ForceKilled {
        ok: true,
    }
}

/// Feeds `events` one by one from (`state`, `pending`) until an action ends
/// the operation: the state and pending step reached, and the result where
/// the operation ended.
pub open spec fn drive(
    state: ProcessState,
    pending: PendingStep,
    restart: bool,
    events: Seq<SupervisorEvent>,
) -> (ProcessState, PendingStep, Option<Result<(), ApiError>>)
    decreases events.len(),
{
    if events.len() == 0 {
        (state, pending, None)
    } else {
        let (s, p, a) = next_step(state, pending, restart, events[0]);
        match a {
            SupervisorAction::Finished(r) => (s, p, Some(r)),
            _ => drive(s, p, restart, events.drop_first()),
        }
    }
}

/// A step of the termination half of an operation.
pub open spec fn stopping_step(p: PendingStep) -> bool {
    p == PendingStep::CloseEndpoint || p == PendingStep::Terminate || p == PendingStep::ExitWait
        || p == PendingStep::ForceKill
}

/// The event reports the graceful signal delivered.
pub open spec fn is_delivered_signal(e: SupervisorEvent) -> bool {
    e == SupervisorEvent::TerminateSent { delivered: true }
}

/// Some event confirms that the old process is gone.
pub open spec fn has_reclaim(events: Seq<SupervisorEvent>) -> bool {
    exists|j: int| 0 <= j < events.len() && is_reclaim(#[trigger] events[j])
}

/// Some event reports the graceful signal delivered, and a later one
/// confirms that the old process is gone.
pub open spec fn signalled_then_reclaimed(events: Seq<SupervisorEvent>) -> bool {
    exists|i: int, j: int|
        0 <= i < j < events.len() && is_delivered_signal(#[trigger] events[i]) && is_reclaim(
            #[trigger] events[j],
        )
}

/// The operation, fed `events` from (`state`, `pending`), ends in success.
pub open spec fn drives_to_success(
    state: ProcessState,
    pending: PendingStep,
    restart: bool,
    events: Seq<SupervisorEvent>,
) -> bool {
    drive(state, pending, restart, events).2 == Some(Ok::<(), ApiError>(()))
}

proof fn lemma_drive_from_stopping(
    state: ProcessState,
    pending: PendingStep,
    events: Seq<SupervisorEvent>,
)
    requires
        stopping_step(pending),
        drives_to_success(state, pending, true, events),
    ensures
        has_reclaim(events),
        pending == PendingStep::CloseEndpoint || pending == PendingStep::Terminate
            ==> signalled_then_reclaimed(events),
    decreases events.len(),
{
    let e = events[0];
    let (s, p, a) = next_step(state, pending, true, e);
    let rest = events.drop_first();
    if is_reclaim(e) && (pending == PendingStep::ExitWait || pending == PendingStep::ForceKill) {
        assert(is_reclaim(events[0]));
    } else {
        assert(!(a is Finished));
        assert(drive(state, pending, true, events) == drive(s, p, true, rest));
        assert(stopping_step(p));
        lemma_drive_from_stopping(s, p, rest);
        let j = choose|j: int| 0 <= j < rest.len() && is_reclaim(#[trigger] rest[j]);
        assert(is_reclaim(events[j + 1]));
        if pending == PendingStep::CloseEndpoint || pending == PendingStep::Terminate {
            if pending == PendingStep::Terminate && p == PendingStep::ExitWait {
                assert(is_delivered_signal(events[0]));
                assert(0 < j + 1);
            } else {
                let (i2, j2) = choose|i: int, j: int|
                    0 <= i < j < rest.len() && is_delivered_signal(#[trigger] rest[i])
                        && is_reclaim(#[trigger] rest[j]);
                assert(is_delivered_signal(events[i2 + 1]));
                assert(is_reclaim(events[j2 + 1]));
            }
        }
    }
}

/// Restarting a running process stops it first. The first step closes the
/// endpoint; then, whatever events come back, a restart that succeeds has
/// seen the graceful signal delivered and, after it, the old process either
/// exit within the wait or be killed.
pub proof fn lemma_restart_stops_running_process(c: ApiController, events: Seq<SupervisorEvent>)
    requires
        c.state() == ProcessState::Running,
        step_fits_state(c.state(), c.pending()),
    ensures
        begin_step(c.state(), c.pending(), true) == (
            ProcessState::Stopping,
            PendingStep::CloseEndpoint,
            SupervisorAction::CloseEndpoint,
        ),
        drives_to_success(ProcessState::Stopping, PendingStep::CloseEndpoint, true, events)
            ==> signalled_then_reclaimed(events),
{
    if drives_to_success(ProcessState::Stopping, PendingStep::CloseEndpoint, true, events) {
        lemma_drive_from_stopping(ProcessState::Stopping, PendingStep::CloseEndpoint, events);
    }
}

/// With no process and no operation in progress, a kill succeeds at once
/// and leaves the state as it was, so a second kill succeeds as well.
pub proof fn lemma_kill_twice_without_process(c: ApiController)
    requires
        c.state() == ProcessState::Stopped,
        step_fits_state(c.state(), c.pending()),
    ensures
        begin_step(c.state(), c.pending(), false) == (
            ProcessState::Stopped,
            PendingStep::Idle,
            SupervisorAction::Finished(Ok(())),
        ),
        begin_step(
            begin_step(c.state(), c.pending(), false).0,
            begin_step(c.state(), c.pending(), false).1,
            false,
        ).2 == SupervisorAction::Finished(Ok(())),
{
}

} // verus!
