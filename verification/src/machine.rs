use vstd::prelude::*;

use crate::errors::MachineError;

verus! {

/// How long to wait after a forced destroy for the hypervisor to release
/// the machine's resources, in seconds.
pub const FORCED_STOP_SETTLE_SECONDS: u64 = 5;

/// Whether the virtualization layer reports the machine as running.
#[derive(Clone, Copy, Debug, PartialEq, Eq, Structural)]
pub enum VmRunState {
    Running,
    Stopped,
}

/// The logical operations the restart sequence asks of the virtualization
/// layer. Their exact command-line syntax belongs to the surrounding
/// program.
#[derive(Clone, Copy, Debug, PartialEq, Eq, Structural)]
pub enum VmCommand {
    /// Ask whether the machine is running.
    QueryState,
    /// Ask the machine to power off cleanly.
    GracefulStop,
    /// Hard power-off for a machine that did not shut down in time.
    ForcedStop,
    /// Start the machine.
    Start,
}

/// What the driver of the restart sequence must do next.
#[derive(Clone, Copy, Debug, PartialEq, Eq, Structural)]
pub enum VmAction {
    /// Run this command and report how it went.
    Run(VmCommand),
    /// Sleep this many seconds, then report completion.
    Pause(u64),
    /// The sequence ended: the start command went out and the settle
    /// period passed.
    Finish,
    /// The sequence was abandoned after a dispatch failure.
    Fail,
}

/// What the driver reports back after performing an action.
#[derive(Debug)]
pub enum VmEvent {
    /// The answer to a state query.
    Reported(VmRunState),
    /// A command was dispatched, or a pause elapsed.
    Completed,
    /// A command could not be dispatched; carries the error's text.
    DispatchFailed(String),
}

/// Where the restart sequence stands.
#[derive(Clone, Copy, Debug, PartialEq, Eq, Structural)]
pub enum VmPhase {
    /// Ask whether the machine runs.
    InitialQuery,
    /// The machine ran: ask it to shut down cleanly.
    GraceStop,
    /// Wait out the graceful-shutdown timeout.
    GraceWait,
    /// Ask again whether the machine still runs.
    Recheck,
    /// Still running after the wait: destroy it.
    ForceStop,
    /// Wait for the hypervisor to release resources.
    ForceWait,
    /// Issue the start command, whatever went before.
    StartUp,
    /// Wait out the settle period after the start.
    SettleWait,
    /// The sequence finished.
    Complete,
    /// A command could not be dispatched; the sequence is abandoned.
    Aborted,
}

/// The restart sequence for one machine: query, graceful stop, wait,
/// re-query, forced stop if still running, start, settle. The driver asks
/// `next_action` what to do, does it, and feeds the outcome to `step`; a
/// dispatch failure at any point abandons the rest of the sequence.
pub struct VmController {
    /// Where the sequence stands.
    pub phase: VmPhase,
    /// How long the machine gets to shut down cleanly, in seconds.
    pub shutdown_time_seconds: u64,
    /// How long the machine gets to settle after the start, in seconds.
    pub restart_time_seconds: u64,
    /// The dispatch failure that abandoned the sequence, if any.
    pub failure: Option<String>,
}

/// The transition table of the restart sequence. A dispatch failure
/// aborts from any phase; an event that the phase does not expect also
/// aborts, so that the table is total.
pub open spec fn phase_after(p: VmPhase, e: VmEvent) -> VmPhase {
    match e {
        VmEvent::DispatchFailed(_) => VmPhase::Aborted,
        VmEvent::Reported(s) => match p {
            VmPhase::InitialQuery => if s is Running {
                VmPhase::GraceStop
            } else {
                VmPhase::StartUp
            },
            VmPhase::Recheck => if s is Running {
                VmPhase::ForceStop
            } else {
                VmPhase::StartUp
            },
            _ => VmPhase::Aborted,
        },
        VmEvent::Completed => match p {
            VmPhase::GraceStop => VmPhase::GraceWait,
            VmPhase::GraceWait => VmPhase::Recheck,
            VmPhase::ForceStop => VmPhase::ForceWait,
            VmPhase::ForceWait => VmPhase::StartUp,
            VmPhase::StartUp => VmPhase::SettleWait,
            VmPhase::SettleWait => VmPhase::Complete,
            _ => VmPhase::Aborted,
        },
    }
}

/// The controller after one event: the phase moves by the transition
/// table, and a dispatch failure's text is kept.
pub open spec fn stepped(c: VmController, e: VmEvent) -> VmController {
    VmController {
        phase: phase_after(c.phase, e),
        failure: match e {
            VmEvent::DispatchFailed(m) => Some(m),
            _ => c.failure,
        },
        ..c
    }
}

/// What the driver must do in each phase.
pub open spec fn action_of(c: VmController) -> VmAction {
    match c.phase {
        VmPhase::InitialQuery => VmAction::Run(VmCommand::QueryState),
        VmPhase::GraceStop => VmAction::Run(VmCommand::GracefulStop),
        VmPhase::GraceWait => VmAction::Pause(c.shutdown_time_seconds),
        VmPhase::Recheck => VmAction::Run(VmCommand::QueryState),
        VmPhase::ForceStop => VmAction::Run(VmCommand::ForcedStop),
        VmPhase::ForceWait => VmAction::Pause(FORCED_STOP_SETTLE_SECONDS),
        VmPhase::StartUp => VmAction::Run(VmCommand::Start),
        VmPhase::SettleWait => VmAction::Pause(c.restart_time_seconds),
        VmPhase::Complete => VmAction::Finish,
        VmPhase::Aborted => VmAction::Fail,
    }
}

impl VmController {
    /// A fresh restart sequence with the given waits, about to ask whether
    /// the machine runs.
    pub fn new(shutdown_time_seconds: u64, restart_time_seconds: u64) -> (c: Self)
        ensures
            c.phase == VmPhase::InitialQuery,
            c.shutdown_time_seconds == shutdown_time_seconds,
            c.restart_time_seconds == restart_time_seconds,
            c.failure is None,
    {
        VmController {
            phase: VmPhase::InitialQuery,
            shutdown_time_seconds,
            restart_time_seconds,
            failure: None,
        }
    }

    /// What the driver must do next.
    pub fn next_action(&self) -> (a: VmAction)
        ensures
            a == action_of(*self),
    {
        match self.phase {
            VmPhase::InitialQuery => VmAction::Run(VmCommand::QueryState),
            VmPhase::GraceStop => VmAction::Run(VmCommand::GracefulStop),
            VmPhase::GraceWait => VmAction::Pause(self.shutdown_time_seconds),
            VmPhase::Recheck => VmAction::Run(VmCommand::QueryState),
            VmPhase::ForceStop => VmAction::Run(VmCommand::ForcedStop),
            VmPhase::ForceWait => VmAction::Pause(FORCED_STOP_SETTLE_SECONDS),
            VmPhase::StartUp => VmAction::Run(VmCommand::Start),
            VmPhase::SettleWait => VmAction::Pause(self.restart_time_seconds),
            VmPhase::Complete => VmAction::Finish,
            VmPhase::Aborted => VmAction::Fail,
        }
    }

    /// Advance the sequence by one reported outcome.
    pub fn step(&mut self, event: VmEvent)
        ensures
            *final(self) == stepped(*old(self), event),
    {
        match event {
            VmEvent::DispatchFailed(m) => {
                self.failure = Some(m);
                self.phase = VmPhase::Aborted;
            },
            VmEvent::Reported(s) => {
                self.phase = match self.phase {
                    VmPhase::InitialQuery => if s == VmRunState::Running {
                        VmPhase::GraceStop
                    } else {
                        VmPhase::StartUp
                    },
                    VmPhase::Recheck => if s == VmRunState::Running {
                        VmPhase::ForceStop
                    } else {
                        VmPhase::StartUp
                    },
                    _ => VmPhase::Aborted,
                };
            },
            VmEvent::Completed => {
                self.phase = match self.phase {
                    VmPhase::GraceStop => VmPhase::GraceWait,
                    VmPhase::GraceWait => VmPhase::Recheck,
                    VmPhase::ForceStop => VmPhase::ForceWait,
                    VmPhase::ForceWait => VmPhase::StartUp,
                    VmPhase::StartUp => VmPhase::SettleWait,
                    VmPhase::SettleWait => VmPhase::Complete,
                    _ => VmPhase::Aborted,
                };
            },
        }
    }

    /// How the sequence ended: success once complete, the dispatch failure
    /// once aborted, nothing while it still runs.
    pub fn outcome(&self) -> (r: Option<Result<(), MachineError>>)
        ensures
            self.phase is Complete ==> r == Some(Ok::<(), MachineError>(())),
            self.phase is Aborted && self.failure is Some ==> r == Some(
                Err::<(), MachineError>(MachineError::CommandError(self.failure->0)),
            ),
            self.phase is Aborted ==> (r matches Some(out) && out matches Err(e)
                && e is CommandError),
            !(self.phase is Complete) && !(self.phase is Aborted) ==> r is None,
    {
        match self.phase {
            VmPhase::Complete => Some(Ok(())),
            VmPhase::Aborted => {
                let msg: String = match &self.failure {
                    Some(m) => m.clone(),
                    None => String::new(),
                };
                Some(Err(MachineError::CommandError(msg)))
            },
            _ => None,
        }
    }
}

/// The token the state query prints on its standard output when the
/// machine runs: the word "running" followed by a newline.
pub open spec fn running_token() -> Seq<u8> {
    seq![114u8, 117u8, 110u8, 110u8, 105u8, 110u8, 103u8, 10u8]
}

/// Read the state query's captured standard output: the machine counts as
/// running exactly when the output is the running token.
pub fn parse_run_state(output: &Vec<u8>) -> (s: VmRunState)
    ensures
        (s == VmRunState::Running) <==> output@ == running_token(),
{
    let is_token: bool = output.len() == 8 && output[0] == 114 && output[1] == 117
        && output[2] == 110 && output[3] == 110 && output[4] == 105 && output[5] == 110
        && output[6] == 103 && output[7] == 10;
    proof {
        if is_token {
            assert(output@ =~= running_token());
        } else if output@ == running_token() {
            assert(output@.len() == 8);
            assert(output@[0] == 114u8 && output@[1] == 117u8 && output@[2] == 110u8
                && output@[3] == 110u8 && output@[4] == 105u8 && output@[5] == 110u8
                && output@[6] == 103u8 && output@[7] == 10u8);
        }
    }
    if is_token {
        VmRunState::Running
    } else {
        VmRunState::Stopped
    }
}

/// Law: a sequence that finds the machine stopped still issues the start
/// command, then waits out the settle period before finishing, and asks
/// for no stop command of either kind.
pub proof fn lemma_stopped_machine_still_started(c: VmController)
    requires
        c.phase == VmPhase::InitialQuery,
    ensures
        ({
            let at_start = stepped(c, VmEvent::Reported(VmRunState::Stopped));
            let at_settle = stepped(at_start, VmEvent::Completed);
            let at_end = stepped(at_settle, VmEvent::Completed);
            &&& action_of(at_start) == VmAction::Run(VmCommand::Start)
            &&& action_of(at_settle) == VmAction::Pause(c.restart_time_seconds)
            &&& action_of(at_end) == VmAction::Finish
        }),
{
}

/// Law: a machine still reported running after the graceful-shutdown wait
/// is destroyed by force, and only then started.
pub proof fn lemma_unresponsive_machine_destroyed(c: VmController)
    requires
        c.phase == VmPhase::InitialQuery,
    ensures
        ({
            let at_grace = stepped(c, VmEvent::Reported(VmRunState::Running));
            let at_grace_wait = stepped(at_grace, VmEvent::Completed);
            let at_recheck = stepped(at_grace_wait, VmEvent::Completed);
            let at_force = stepped(at_recheck, VmEvent::Reported(VmRunState::Running));
            let at_force_wait = stepped(at_force, VmEvent::Completed);
            let at_start = stepped(at_force_wait, VmEvent::Completed);
            &&& action_of(at_grace) == VmAction::Run(VmCommand::GracefulStop)
            &&& action_of(at_grace_wait) == VmAction::Pause(c.shutdown_time_seconds)
            &&& action_of(at_recheck) == VmAction::Run(VmCommand::QueryState)
            &&& action_of(at_force) == VmAction::Run(VmCommand::ForcedStop)
            &&& action_of(at_force_wait) == VmAction::Pause(FORCED_STOP_SETTLE_SECONDS)
            &&& action_of(at_start) == VmAction::Run(VmCommand::Start)
        }),
{
}

} // verus!
