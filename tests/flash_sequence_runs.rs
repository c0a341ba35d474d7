use py32_hal::flash::Error;
use py32_hal::flash_sequence::{FlashAction, FlashOperation, FlashSequence};

fn drive(op: FlashOperation, fail_at: Option<(FlashAction, usize, Error)>) -> (Vec<FlashAction>, Result<(), Error>) {
    let mut seq = FlashSequence::new(op);
    let mut actions = vec![];
    let mut seen = 0;
    loop {
        let action = seq.action();
        if action == FlashAction::Done {
            break;
        }
        actions.push(action);
        let outcome = match fail_at {
            Some((a, n, e)) if a == action => {
                seen += 1;
                if seen == n { Err(e) } else { Ok(()) }
            }
            _ => Ok(()),
        };
        seq.advance(outcome);
    }
    (actions, seq.result().unwrap())
}

#[test]
fn program_runs_every_step_and_relocks() {
    let (actions, result) = drive(FlashOperation::Program, None);
    assert_eq!(
        actions,
        vec![
            FlashAction::ClearErrors,
            FlashAction::Unlock,
            FlashAction::ConfigureTiming,
            FlashAction::EnableProgramming,
            FlashAction::WaitReady,
            FlashAction::ProgramPage,
            FlashAction::WaitReady,
            FlashAction::CheckEndOfOperation,
            FlashAction::DisableProgramming,
            FlashAction::Lock,
        ]
    );
    assert_eq!(result, Ok(()));
}

#[test]
fn protected_program_skips_to_cleanup() {
    let (actions, result) = drive(FlashOperation::Program, Some((FlashAction::WaitReady, 1, Error::Protected)));
    assert_eq!(
        actions,
        vec![
            FlashAction::ClearErrors,
            FlashAction::Unlock,
            FlashAction::ConfigureTiming,
            FlashAction::EnableProgramming,
            FlashAction::WaitReady,
            FlashAction::DisableProgramming,
            FlashAction::Lock,
        ]
    );
    assert_eq!(result, Err(Error::Protected));
}

#[test]
fn erase_without_end_of_operation_fails_and_relocks() {
    let (actions, result) = drive(FlashOperation::Erase, Some((FlashAction::CheckEndOfOperation, 1, Error::Prog)));
    assert_eq!(actions.last(), Some(&FlashAction::Lock));
    assert!(!actions.contains(&FlashAction::FinishErase));
    assert_eq!(result, Err(Error::Prog));
    let (actions, result) = drive(FlashOperation::Erase, None);
    assert_eq!(actions.len(), 9);
    assert_eq!(actions[4], FlashAction::StartErase);
    assert_eq!(result, Ok(()));
}
