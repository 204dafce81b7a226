use vstd::prelude::*;
use crate::error::FirmwareError;

verus! {

/// An action that staging or cancelling asks the caller to carry out.
#[derive(Debug, PartialEq, Eq)]
pub enum StageAction {
    /// Check that the system was booted through UEFI.
    CheckUefi,
    /// Clear the one-shot "update on next boot" flag.
    ClearBootFlag,
    /// Remove the staged directory at the boot-visible path, if any.
    RemoveStaged,
    /// Create a fresh temporary directory on the boot partition.
    CreateTemp,
    /// Extract the generic updater into the temporary directory.
    ExtractUpdater,
    /// Extract the board's firmware into `firmware/` of the temporary directory.
    ExtractFirmware,
    /// Rename the temporary directory to the boot-visible path.
    Commit,
    /// Remove the temporary directory; its own failure is ignored.
    RemoveTemp,
    /// Set the one-shot "update on next boot" flag.
    SetBootFlag,
    /// Stop with this result.
    Finish(Result<(), FirmwareError>),
}

/// Where staging an update stands: the action that was handed out last is
/// the one under way.
#[derive(Clone, Debug, PartialEq, Eq)]
pub enum ScheduleState {
    CheckingUefi,
    ClearingFlag,
    RemovingOld,
    CreatingTemp,
    ExtractingUpdater,
    ExtractingFirmware,
    Committing,
    /// The temporary directory is being removed after this error.
    CleaningUp(FirmwareError),
    SettingFlag,
    Done,
}

/// Where cancelling a staged update stands.
#[derive(Clone, Copy, Debug, PartialEq, Eq)]
pub enum UnscheduleState {
    ClearingFlag,
    RemovingStaged,
    Done,
}

/// The transitions of staging. Every step runs only after the one before it
/// succeeded; a failure once the temporary directory exists removes it and
/// then reports the failure; the flag is set only after the commit.
pub open spec fn schedule_next(s: ScheduleState, outcome: Result<(), FirmwareError>) -> (ScheduleState, StageAction) {
    match s {
        ScheduleState::CleaningUp(e) => (ScheduleState::Done, StageAction::Finish(Err(e))),
        _ => match outcome {
            Ok(()) => match s {
                ScheduleState::CheckingUefi => (ScheduleState::ClearingFlag, StageAction::ClearBootFlag),
                ScheduleState::ClearingFlag => (ScheduleState::RemovingOld, StageAction::RemoveStaged),
                ScheduleState::RemovingOld => (ScheduleState::CreatingTemp, StageAction::CreateTemp),
                ScheduleState::CreatingTemp => (ScheduleState::ExtractingUpdater, StageAction::ExtractUpdater),
                ScheduleState::ExtractingUpdater => (ScheduleState::ExtractingFirmware, StageAction::ExtractFirmware),
                ScheduleState::ExtractingFirmware => (ScheduleState::Committing, StageAction::Commit),
                ScheduleState::Committing => (ScheduleState::SettingFlag, StageAction::SetBootFlag),
                _ => (ScheduleState::Done, StageAction::Finish(Ok(()))),
            },
            Err(e) => match s {
                ScheduleState::ExtractingUpdater | ScheduleState::ExtractingFirmware | ScheduleState::Committing =>
                    (ScheduleState::CleaningUp(e), StageAction::RemoveTemp),
                _ => (ScheduleState::Done, StageAction::Finish(Err(e))),
            },
        },
    }
}

/// The transitions of cancelling: clear the flag, then remove the staged
/// directory; the first failure is reported.
pub open spec fn unschedule_next(s: UnscheduleState, outcome: Result<(), FirmwareError>) -> (UnscheduleState, StageAction) {
    match outcome {
        Ok(()) => match s {
            UnscheduleState::ClearingFlag => (UnscheduleState::RemovingStaged, StageAction::RemoveStaged),
            _ => (UnscheduleState::Done, StageAction::Finish(Ok(()))),
        },
        Err(e) => (UnscheduleState::Done, StageAction::Finish(Err(e))),
    }
}

impl ScheduleState {
    /// The first state and action of staging.
    pub fn begin() -> (r: (ScheduleState, StageAction))
        ensures
            r == (ScheduleState::CheckingUefi, StageAction::CheckUefi),
    {
        (ScheduleState::CheckingUefi, StageAction::CheckUefi)
    }

    pub fn is_done(&self) -> (r: bool)
        ensures
            r == (*self is Done),
    {
        matches!(self, ScheduleState::Done)
    }

    /// Takes the outcome of the action under way and returns the next state
    /// and action.
    pub fn step(self, outcome: Result<(), FirmwareError>) -> (r: (ScheduleState, StageAction))
        requires
            !(self is Done),
        ensures
            r == schedule_next(self, outcome),
    {
        match self {
            ScheduleState::CleaningUp(e) => (ScheduleState::Done, StageAction::Finish(Err(e))),
            _ => match outcome {
                Ok(()) => match self {
                    ScheduleState::CheckingUefi => (ScheduleState::ClearingFlag, StageAction::ClearBootFlag),
                    ScheduleState::ClearingFlag => (ScheduleState::RemovingOld, StageAction::RemoveStaged),
                    ScheduleState::RemovingOld => (ScheduleState::CreatingTemp, StageAction::CreateTemp),
                    ScheduleState::CreatingTemp => (ScheduleState::ExtractingUpdater, StageAction::ExtractUpdater),
                    ScheduleState::ExtractingUpdater => (ScheduleState::ExtractingFirmware, StageAction::ExtractFirmware),
                    ScheduleState::ExtractingFirmware => (ScheduleState::Committing, StageAction::Commit),
                    ScheduleState::Committing => (ScheduleState::SettingFlag, StageAction::SetBootFlag),
                    _ => (ScheduleState::Done, StageAction::Finish(Ok(()))),
                },
                Err(e) => match self {
                    ScheduleState::ExtractingUpdater | ScheduleState::ExtractingFirmware | ScheduleState::Committing =>
                        (ScheduleState::CleaningUp(e), StageAction::RemoveTemp),
                    _ => (ScheduleState::Done, StageAction::Finish(Err(e))),
                },
            },
        }
    }
}

impl UnscheduleState {
    /// The first state and action of cancelling.
    pub fn begin() -> (r: (UnscheduleState, StageAction))
        ensures
            r == (UnscheduleState::ClearingFlag, StageAction::ClearBootFlag),
    {
        (UnscheduleState::ClearingFlag, StageAction::ClearBootFlag)
    }

    pub fn is_done(&self) -> (r: bool)
        ensures
            r == (*self is Done),
    {
        matches!(self, UnscheduleState::Done)
    }

    /// Takes the outcome of the action under way and returns the next state
    /// and action.
    pub fn step(self, outcome: Result<(), FirmwareError>) -> (r: (UnscheduleState, StageAction))
        requires
            !(self is Done),
        ensures
            r == unschedule_next(self, outcome),
    {
        match outcome {
            Ok(()) => match self {
                UnscheduleState::ClearingFlag => (UnscheduleState::RemovingStaged, StageAction::RemoveStaged),
                _ => (UnscheduleState::Done, StageAction::Finish(Ok(()))),
            },
            Err(e) => (UnscheduleState::Done, StageAction::Finish(Err(e))),
        }
    }
}

/// What staging and cancelling change on the machine: the one-shot boot
/// flag, whether a complete artifact stands at the boot-visible path, and
/// whether a temporary directory exists on the boot partition.
pub struct BootWorld {
    pub flag: bool,
    pub staged: bool,
    pub temp: bool,
}

/// The machine after `a` succeeded. A failed action changes nothing: the
/// rename that commits is atomic.
pub open spec fn apply(w: BootWorld, a: StageAction) -> BootWorld {
    match a {
        StageAction::ClearBootFlag => BootWorld { flag: false, staged: w.staged, temp: w.temp },
        StageAction::RemoveStaged => BootWorld { flag: w.flag, staged: false, temp: w.temp },
        StageAction::CreateTemp => BootWorld { flag: w.flag, staged: w.staged, temp: true },
        StageAction::Commit => BootWorld { flag: w.flag, staged: true, temp: false },
        StageAction::RemoveTemp => BootWorld { flag: w.flag, staged: w.staged, temp: false },
        StageAction::SetBootFlag => BootWorld { flag: true, staged: w.staged, temp: w.temp },
        _ => w,
    }
}

pub open spec fn after(w: BootWorld, a: StageAction, outcome: Result<(), FirmwareError>) -> BootWorld {
    if outcome is Ok { apply(w, a) } else { w }
}

/// Staging from state `s` with action `a` under way on machine `w`, given the
/// outcomes of the actions in turn: the state, the last action and the machine.
pub open spec fn schedule_run(
    s: ScheduleState,
    a: StageAction,
    w: BootWorld,
    outcomes: Seq<Result<(), FirmwareError>>,
) -> (ScheduleState, StageAction, BootWorld)
    decreases outcomes.len(),
{
    if outcomes.len() == 0 || s is Done {
        (s, a, w)
    } else {
        let next = schedule_next(s, outcomes[0]);
        schedule_run(next.0, next.1, after(w, a, outcomes[0]), outcomes.drop_first())
    }
}

/// Cancelling, in the same way as `schedule_run`.
pub open spec fn unschedule_run(
    s: UnscheduleState,
    a: StageAction,
    w: BootWorld,
    outcomes: Seq<Result<(), FirmwareError>>,
) -> (UnscheduleState, StageAction, BootWorld)
    decreases outcomes.len(),
{
    if outcomes.len() == 0 || s is Done {
        (s, a, w)
    } else {
        let next = unschedule_next(s, outcomes[0]);
        unschedule_run(next.0, next.1, after(w, a, outcomes[0]), outcomes.drop_first())
    }
}

/// What holds at each point of staging: the flag is never set without a
/// complete artifact, and after it is cleared it stays clear until the commit.
pub open spec fn schedule_inv(s: ScheduleState, a: StageAction, w: BootWorld) -> bool {
    match s {
        ScheduleState::CheckingUefi => a == StageAction::CheckUefi && (w.flag ==> w.staged),
        ScheduleState::ClearingFlag => a == StageAction::ClearBootFlag && (w.flag ==> w.staged),
        ScheduleState::RemovingOld => a == StageAction::RemoveStaged && !w.flag,
        ScheduleState::CreatingTemp => a == StageAction::CreateTemp && !w.flag && !w.staged,
        ScheduleState::ExtractingUpdater => a == StageAction::ExtractUpdater && !w.flag && !w.staged && w.temp,
        ScheduleState::ExtractingFirmware => a == StageAction::ExtractFirmware && !w.flag && !w.staged && w.temp,
        ScheduleState::Committing => a == StageAction::Commit && !w.flag && !w.staged && w.temp,
        ScheduleState::CleaningUp(_) => a == StageAction::RemoveTemp && !w.flag && !w.staged,
        ScheduleState::SettingFlag => a == StageAction::SetBootFlag && !w.flag && w.staged && !w.temp,
        ScheduleState::Done => (w.flag ==> w.staged) && match a {
            StageAction::Finish(Ok(())) => w.flag && w.staged && !w.temp,
            StageAction::Finish(Err(_)) => true,
            _ => false,
        },
    }
}

proof fn lemma_schedule_inv_step(s: ScheduleState, a: StageAction, w: BootWorld, outcome: Result<(), FirmwareError>)
    requires
        schedule_inv(s, a, w),
        !(s is Done),
    ensures
        schedule_inv(schedule_next(s, outcome).0, schedule_next(s, outcome).1, after(w, a, outcome)),
{
}

proof fn lemma_schedule_inv_run(
    s: ScheduleState,
    a: StageAction,
    w: BootWorld,
    outcomes: Seq<Result<(), FirmwareError>>,
)
    requires
        schedule_inv(s, a, w),
    ensures
        schedule_inv(
            schedule_run(s, a, w, outcomes).0,
            schedule_run(s, a, w, outcomes).1,
            schedule_run(s, a, w, outcomes).2,
        ),
    decreases outcomes.len(),
{
    if outcomes.len() > 0 && !(s is Done) {
        lemma_schedule_inv_step(s, a, w, outcomes[0]);
        let next = schedule_next(s, outcomes[0]);
        lemma_schedule_inv_run(next.0, next.1, after(w, a, outcomes[0]), outcomes.drop_first());
    }
}

/// Started on a machine where the boot flag is set only beside a complete
/// artifact, staging keeps it so whatever the outcomes of its actions; and
/// when it reports success the flag is set, the artifact is in place and no
/// temporary directory is left.
pub proof fn lemma_schedule_never_flags_partial(w: BootWorld, outcomes: Seq<Result<(), FirmwareError>>)
    requires
        w.flag ==> w.staged,
    ensures
        ({
            let r = schedule_run(ScheduleState::CheckingUefi, StageAction::CheckUefi, w, outcomes);
            &&& r.2.flag ==> r.2.staged
            &&& r.0 is Done && r.1 == StageAction::Finish(Ok(())) ==> r.2.flag && r.2.staged && !r.2.temp
        }),
{
    lemma_schedule_inv_run(ScheduleState::CheckingUefi, StageAction::CheckUefi, w, outcomes);
}

/// A failed commit leaves the flag clear and nothing at the boot-visible
/// path; the temporary directory is removed next, and staging then reports
/// the commit's own error, whatever the removal gave.
pub proof fn lemma_failed_commit(
    w: BootWorld,
    e: FirmwareError,
    cleanup: Result<(), FirmwareError>,
)
    requires
        schedule_inv(ScheduleState::Committing, StageAction::Commit, w),
    ensures
        schedule_next(ScheduleState::Committing, Err(e)) == (ScheduleState::CleaningUp(e), StageAction::RemoveTemp),
        after(w, StageAction::Commit, Err(e)) == w,
        !w.flag && !w.staged,
        schedule_next(ScheduleState::CleaningUp(e), cleanup) == (ScheduleState::Done, StageAction::Finish(Err(e))),
        !after(w, StageAction::RemoveTemp, cleanup).flag,
        !after(w, StageAction::RemoveTemp, cleanup).staged,
{
}

/// `n` outcomes, each a success.
pub open spec fn all_succeed(n: nat) -> Seq<Result<(), FirmwareError>> {
    Seq::new(n, |i: int| Ok(()))
}

proof fn lemma_schedule_succeeds_from(s: ScheduleState, a: StageAction, v: BootWorld, k: nat)
    requires
        schedule_inv(s, a, v),
        !(s is CleaningUp),
        s is Done ==> a == StageAction::Finish(Ok(())),
        k + match s {
            ScheduleState::CheckingUefi => 0int,
            ScheduleState::ClearingFlag => 1,
            ScheduleState::RemovingOld => 2,
            ScheduleState::CreatingTemp => 3,
            ScheduleState::ExtractingUpdater => 4,
            ScheduleState::ExtractingFirmware => 5,
            ScheduleState::Committing => 6,
            ScheduleState::SettingFlag => 7,
            _ => 8,
        } >= 8,
    ensures
        ({
            let r = schedule_run(s, a, v, all_succeed(k));
            &&& r.0 == ScheduleState::Done
            &&& r.1 == StageAction::Finish(Ok(()))
            &&& r.2 == (BootWorld { flag: true, staged: true, temp: false })
        }),
    decreases k,
{
    if k > 0 && !(s is Done) {
        assert(all_succeed(k).drop_first() =~= all_succeed((k - 1) as nat));
        let next = schedule_next(s, Ok(()));
        lemma_schedule_inv_step(s, a, v, Ok(()));
        lemma_schedule_succeeds_from(next.0, next.1, after(v, a, Ok(())), (k - 1) as nat);
    }
}

/// Where every action succeeds, staging runs to the end from any machine and
/// reports success, with the flag set, the new artifact committed and no
/// temporary directory left.
pub proof fn lemma_schedule_succeeds(w: BootWorld)
    requires
        w.flag ==> w.staged,
    ensures
        ({
            let r = schedule_run(ScheduleState::CheckingUefi, StageAction::CheckUefi, w, all_succeed(9));
            &&& r.0 == ScheduleState::Done
            &&& r.1 == StageAction::Finish(Ok(()))
            &&& r.2 == (BootWorld { flag: true, staged: true, temp: false })
        }),
{
    lemma_schedule_succeeds_from(ScheduleState::CheckingUefi, StageAction::CheckUefi, w, 9);
}

/// Where clearing the flag and removing the staged directory succeed (both
/// do nothing on a machine where nothing is flagged or staged), cancelling
/// reports success and leaves the flag clear and nothing staged, from any
/// machine; cancelling a second time does the same and changes nothing more.
pub proof fn lemma_unschedule_idempotent(w: BootWorld)
    ensures
        ({
            let r1 = unschedule_run(UnscheduleState::ClearingFlag, StageAction::ClearBootFlag, w, all_succeed(2));
            let r2 = unschedule_run(UnscheduleState::ClearingFlag, StageAction::ClearBootFlag, r1.2, all_succeed(2));
            &&& r1.0 == UnscheduleState::Done
            &&& r1.1 == StageAction::Finish(Ok(()))
            &&& !r1.2.flag && !r1.2.staged
            &&& r2.0 == UnscheduleState::Done
            &&& r2.1 == StageAction::Finish(Ok(()))
            &&& r2.2 == r1.2
        }),
{
    reveal_with_fuel(unschedule_run, 3);
    let ok = all_succeed(2);
    assert(ok.drop_first() =~= all_succeed(1));
    assert(all_succeed(1).drop_first() =~= all_succeed(0));
}

} // verus!
