use system76_firmware::{FirmwareError, ScheduleState, StageAction, UnscheduleState};

fn run_schedule(outcomes: &[Result<(), FirmwareError>]) -> Vec<StageAction> {
    let (mut s, first) = ScheduleState::begin();
    let mut actions = vec![first];
    for o in outcomes {
        if s.is_done() {
            break;
        }
        let (next, a) = s.step(o.clone());
        s = next;
        actions.push(a);
    }
    actions
}

#[test]
fn schedule_runs_every_step_in_order() {
    let actions = run_schedule(&vec![Ok(()); 9]);
    assert_eq!(
        actions,
        vec![
            StageAction::CheckUefi,
            StageAction::ClearBootFlag,
            StageAction::RemoveStaged,
            StageAction::CreateTemp,
            StageAction::ExtractUpdater,
            StageAction::ExtractFirmware,
            StageAction::Commit,
            StageAction::SetBootFlag,
            StageAction::Finish(Ok(())),
        ]
    );
}

#[test]
fn failed_rename_cleans_up_and_never_sets_the_flag() {
    let err = FirmwareError::Filesystem("failed to move".to_string());
    let mut outcomes = vec![Ok(()); 6];
    outcomes.push(Err(err.clone()));
    outcomes.push(Err(FirmwareError::Filesystem("cleanup failed".to_string())));
    let actions = run_schedule(&outcomes);
    assert_eq!(actions[6], StageAction::Commit);
    assert_eq!(actions[7], StageAction::RemoveTemp);
    assert_eq!(actions[8], StageAction::Finish(Err(err)));
    assert_eq!(actions.len(), 9);
    assert!(!actions.contains(&StageAction::SetBootFlag));
}

#[test]
fn missing_uefi_stops_before_touching_anything() {
    let actions = run_schedule(&[Err(FirmwareError::BootMode)]);
    assert_eq!(actions, vec![StageAction::CheckUefi, StageAction::Finish(Err(FirmwareError::BootMode))]);
    assert_eq!(FirmwareError::BootMode.message(), "must be run using UEFI boot");
}

#[test]
fn failed_extraction_removes_the_temporary_directory() {
    let err = FirmwareError::NotFound("galp3_abc.tar.xz".to_string());
    let actions = run_schedule(&[Ok(()), Ok(()), Ok(()), Ok(()), Ok(()), Err(err.clone()), Ok(())]);
    assert_eq!(actions[5], StageAction::ExtractFirmware);
    assert_eq!(actions[6], StageAction::RemoveTemp);
    assert_eq!(actions[7], StageAction::Finish(Err(err)));
}

#[test]
fn failed_removal_of_old_artifact_stops() {
    let err = FirmwareError::Filesystem("failed to remove /boot/efi/x: busy".to_string());
    let actions = run_schedule(&[Ok(()), Ok(()), Err(err.clone())]);
    assert_eq!(actions.last(), Some(&StageAction::Finish(Err(err))));
    assert!(!actions.contains(&StageAction::CreateTemp));
}

fn run_unschedule(outcomes: &[Result<(), FirmwareError>]) -> Vec<StageAction> {
    let (mut s, first) = UnscheduleState::begin();
    let mut actions = vec![first];
    for o in outcomes {
        if s.is_done() {
            break;
        }
        let (next, a) = s.step(o.clone());
        s = next;
        actions.push(a);
    }
    actions
}

#[test]
fn unschedule_twice_succeeds_both_times() {
    let expected = vec![StageAction::ClearBootFlag, StageAction::RemoveStaged, StageAction::Finish(Ok(()))];
    assert_eq!(run_unschedule(&[Ok(()), Ok(())]), expected);
    assert_eq!(run_unschedule(&[Ok(()), Ok(())]), expected);
}

#[test]
fn unschedule_reports_flag_failure() {
    let err = FirmwareError::BootFlag("efivars read-only".to_string());
    assert_eq!(
        run_unschedule(&[Err(err.clone())]),
        vec![StageAction::ClearBootFlag, StageAction::Finish(Err(err))]
    );
}
