use vstd::prelude::*;
use vstd::string::StrSliceExecFns;

verus! {

/// The file whose presence in a version's folder marks that its setup succeeded.
pub const SETUP_ONCE_SUCCESS_FLAG: &'static str = "bb_setup_once_success.txt";

/// The host-wide lock a version's setup runs under: `"{id}_{version}"`.
pub fn setup_once_lock_name(id: &str, version: &str) -> (name: String)
    ensures
        name@ == id@ + "_"@ + version@,
{
    let mut name = String::from_str(id);
    name.append("_");
    name.append(version);
    name
}

/// Where a `setup_once` call stands.
#[derive(Debug, Clone, Copy, PartialEq, Eq)]
pub enum SetupOnceStage {
    /// Nothing checked yet.
    Start,
    /// Holding the host lock, about to check the success flag again.
    Locked,
    /// The `otherwise` callback is running.
    Otherwise,
    /// The setup is running (the folder emptied first, the flag written after).
    Setup,
    /// The call returns what the last callback returned.
    Done,
}

/// What the caller learned since the last step.
#[derive(Debug, Clone, Copy, PartialEq, Eq)]
pub enum SetupOnceEvent {
    /// The success flag was looked for.
    FlagChecked { exists: bool },
    /// The `otherwise` callback returned.
    OtherwiseFinished { ok: bool },
    /// The setup returned.
    SetupFinished { ok: bool },
}

/// What the caller does next.
#[derive(Debug, Clone, Copy, PartialEq, Eq)]
pub enum SetupOnceAction {
    /// Run `otherwise` on the existing folder.
    RunOtherwise,
    /// Take the host lock, then look for the success flag again.
    LockAndRecheck,
    /// Empty the folder, run the setup, and write the flag when it succeeds.
    RunSetup,
    /// Return what the last callback returned.
    Finish,
}

/// Whether `event` is one the caller can report at `stage`.
pub open spec fn setup_once_expects(stage: SetupOnceStage, event: SetupOnceEvent) -> bool {
    match stage {
        SetupOnceStage::Start | SetupOnceStage::Locked => event is FlagChecked,
        SetupOnceStage::Otherwise => event is OtherwiseFinished,
        SetupOnceStage::Setup => event is SetupFinished,
        SetupOnceStage::Done => false,
    }
}

/// The decisions of `setup_once`: with the flag there, `otherwise` runs; without it, the
/// host lock is taken and the flag checked again, and the setup runs only if it is still
/// missing. A failed `otherwise` runs the setup again when `resetup_on_otherwise_error`
/// is set, else its error is returned.
pub open spec fn setup_once_next(
    stage: SetupOnceStage,
    event: SetupOnceEvent,
    resetup_on_otherwise_error: bool,
) -> (SetupOnceStage, SetupOnceAction) {
    match event {
        SetupOnceEvent::FlagChecked { exists } => if exists {
            (SetupOnceStage::Otherwise, SetupOnceAction::RunOtherwise)
        } else if stage == SetupOnceStage::Start {
            (SetupOnceStage::Locked, SetupOnceAction::LockAndRecheck)
        } else {
            (SetupOnceStage::Setup, SetupOnceAction::RunSetup)
        },
        SetupOnceEvent::OtherwiseFinished { ok } => if !ok && resetup_on_otherwise_error {
            (SetupOnceStage::Setup, SetupOnceAction::RunSetup)
        } else {
            (SetupOnceStage::Done, SetupOnceAction::Finish)
        },
        SetupOnceEvent::SetupFinished { ok } => (SetupOnceStage::Done, SetupOnceAction::Finish),
    }
}

/// One step of `setup_once`: from where the call stands and what was learned, where it
/// stands next and what to do.
pub fn setup_once_step(
    stage: SetupOnceStage,
    event: SetupOnceEvent,
    resetup_on_otherwise_error: bool,
) -> (next: (SetupOnceStage, SetupOnceAction))
    requires
        setup_once_expects(stage, event),
    ensures
        next == setup_once_next(stage, event, resetup_on_otherwise_error),
{
    match event {
        SetupOnceEvent::FlagChecked { exists } => {
            if exists {
                (SetupOnceStage::Otherwise, SetupOnceAction::RunOtherwise)
            } else if matches!(stage, SetupOnceStage::Start) {
                (SetupOnceStage::Locked, SetupOnceAction::LockAndRecheck)
            } else {
                (SetupOnceStage::Setup, SetupOnceAction::RunSetup)
            }
        },
        SetupOnceEvent::OtherwiseFinished { ok } => {
            if !ok && resetup_on_otherwise_error {
                (SetupOnceStage::Setup, SetupOnceAction::RunSetup)
            } else {
                (SetupOnceStage::Done, SetupOnceAction::Finish)
            }
        },
        SetupOnceEvent::SetupFinished { ok: _ } => (SetupOnceStage::Done, SetupOnceAction::Finish),
    }
}

/// The setup never runs before the success flag has been found missing while holding the
/// host lock, or after `otherwise` failed with re-setup asked for; and a missing flag at
/// the start never leads straight to the setup.
pub proof fn lemma_setup_only_when_needed(
    stage: SetupOnceStage,
    event: SetupOnceEvent,
    resetup_on_otherwise_error: bool,
)
    requires
        setup_once_expects(stage, event),
    ensures
        setup_once_next(stage, event, resetup_on_otherwise_error).1 == SetupOnceAction::RunSetup
            ==> (stage == SetupOnceStage::Locked && event == (SetupOnceEvent::FlagChecked {
            exists: false,
        })) || (stage == SetupOnceStage::Otherwise && event == (SetupOnceEvent::OtherwiseFinished {
            ok: false,
        }) && resetup_on_otherwise_error),
        stage == SetupOnceStage::Start ==> setup_once_next(
            stage,
            event,
            resetup_on_otherwise_error,
        ).1 != SetupOnceAction::RunSetup,
{
}

/// How many setups run when callers reach the locked recheck one after another, the
/// host lock letting one through at a time: `flag` is whether the success flag is
/// there when the next caller looks, and `outcomes[k]` whether the `k`-th caller's setup
/// succeeds if it runs. The flag is written exactly when a setup succeeds.
pub open spec fn setups_in_turn(flag: bool, outcomes: Seq<bool>) -> nat
    decreases outcomes.len(),
{
    if outcomes.len() == 0 {
        0
    } else {
        let step = setup_once_next(SetupOnceStage::Locked, SetupOnceEvent::FlagChecked { exists: flag }, false);
        if step.1 == SetupOnceAction::RunSetup {
            1 + setups_in_turn(outcomes[0], outcomes.drop_first())
        } else {
            setups_in_turn(flag, outcomes.drop_first())
        }
    }
}

/// Law: once the success flag is there, no later caller runs the setup.
pub proof fn lemma_no_setup_after_success(outcomes: Seq<bool>)
    ensures
        setups_in_turn(true, outcomes) == 0,
    decreases outcomes.len(),
{
    if outcomes.len() > 0 {
        lemma_no_setup_after_success(outcomes.drop_first());
    }
}

/// Law: callers contending for a missing flag run the setup exactly once between them
/// when the setup succeeds; the others go on to `otherwise`.
pub proof fn lemma_single_setup_when_contended(outcomes: Seq<bool>)
    requires
        outcomes.len() >= 1,
        forall|k: int| 0 <= k < outcomes.len() ==> outcomes[k],
    ensures
        setups_in_turn(false, outcomes) == 1,
{
    lemma_no_setup_after_success(outcomes.drop_first());
}

/// Law: a setup that fails leaves the flag missing, so the next caller runs the setup
/// again.
pub proof fn lemma_failed_setup_runs_again(outcomes: Seq<bool>)
    requires
        outcomes.len() >= 2,
        !outcomes[0],
    ensures
        setups_in_turn(false, outcomes) == 1 + setups_in_turn(false, outcomes.drop_first()),
        setups_in_turn(false, outcomes.drop_first()) >= 1,
{
}

} // verus!
