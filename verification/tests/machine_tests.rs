use vm_monitor::errors::MachineError;
use vm_monitor::machine::parse_run_state;
use vm_monitor::machine::VmAction;
use vm_monitor::machine::VmCommand;
use vm_monitor::machine::VmController;
use vm_monitor::machine::VmEvent;
use vm_monitor::machine::VmRunState;
use vm_monitor::machine::FORCED_STOP_SETTLE_SECONDS;

/// Drive a controller to its end, answering every state query from
/// `reports` in order, and collect the commands it issues and the pauses
/// it asks for.
fn drive(mut c: VmController, reports: &[VmRunState]) -> (Vec<VmCommand>, Vec<u64>, Option<Result<(), MachineError>>) {
    let mut commands: Vec<VmCommand> = Vec::new();
    let mut pauses: Vec<u64> = Vec::new();
    let mut next_report: usize = 0;
    loop {
        match c.next_action() {
            VmAction::Run(cmd) => {
                commands.push(cmd);
                match cmd {
                    VmCommand::QueryState => {
                        let state = reports[next_report];
                        next_report += 1;
                        c.step(VmEvent::Reported(state));
                    }
                    _ => c.step(VmEvent::Completed),
                }
            }
            VmAction::Pause(secs) => {
                pauses.push(secs);
                c.step(VmEvent::Completed);
            }
            VmAction::Finish | VmAction::Fail => {
                return (commands, pauses, c.outcome());
            }
        }
    }
}

#[test]
fn stopped_machine_gets_exactly_one_start_and_no_stops() {
    let c = VmController::new(20, 180);
    let (commands, pauses, outcome) = drive(c, &[VmRunState::Stopped]);
    assert_eq!(commands, vec![VmCommand::QueryState, VmCommand::Start]);
    assert_eq!(pauses, vec![180]);
    assert!(matches!(outcome, Some(Ok(()))));
}

#[test]
fn graceful_shutdown_suffices_when_machine_obeys() {
    let c = VmController::new(20, 180);
    let (commands, pauses, outcome) = drive(c, &[VmRunState::Running, VmRunState::Stopped]);
    assert_eq!(
        commands,
        vec![
            VmCommand::QueryState,
            VmCommand::GracefulStop,
            VmCommand::QueryState,
            VmCommand::Start,
        ]
    );
    assert_eq!(pauses, vec![20, 180]);
    assert!(matches!(outcome, Some(Ok(()))));
}

#[test]
fn unresponsive_machine_is_destroyed_before_start() {
    let c = VmController::new(20, 180);
    let (commands, pauses, outcome) = drive(c, &[VmRunState::Running, VmRunState::Running]);
    assert_eq!(
        commands,
        vec![
            VmCommand::QueryState,
            VmCommand::GracefulStop,
            VmCommand::QueryState,
            VmCommand::ForcedStop,
            VmCommand::Start,
        ]
    );
    assert_eq!(pauses, vec![20, FORCED_STOP_SETTLE_SECONDS, 180]);
    assert!(matches!(outcome, Some(Ok(()))));
}

#[test]
fn dispatch_failure_aborts_the_sequence() {
    let mut c = VmController::new(20, 180);
    assert_eq!(c.next_action(), VmAction::Run(VmCommand::QueryState));
    c.step(VmEvent::DispatchFailed("command not found".to_string()));
    assert_eq!(c.next_action(), VmAction::Fail);
    let outcome = c.outcome();
    assert!(
        matches!(outcome, Some(Err(MachineError::CommandError(m))) if m == "command not found")
    );
}

#[test]
fn running_token_means_running() {
    let output = b"running\n".to_vec();
    assert_eq!(parse_run_state(&output), VmRunState::Running);
}

#[test]
fn other_output_means_stopped() {
    assert_eq!(parse_run_state(&b"shut off\n".to_vec()), VmRunState::Stopped);
    assert_eq!(parse_run_state(&Vec::new()), VmRunState::Stopped);
    assert_eq!(parse_run_state(&b"running".to_vec()), VmRunState::Stopped);
    assert_eq!(parse_run_state(&b"Running\n".to_vec()), VmRunState::Stopped);
}
