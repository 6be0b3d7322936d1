use vstd::prelude::*;

verus! {

/// Where firing a batch stands.
#[derive(Debug, Clone, Copy, PartialEq, Eq)]
pub enum BatchFireStage {
    /// The pipeline has not run yet.
    First,
    /// The scripts the batch uses are being loaded to redis after a missing-script error.
    Reloading,
    /// The pipeline runs again after the reload.
    Rerun,
    /// Finished.
    Done,
}

/// What the last round against redis answered.
#[derive(Debug, Clone, Copy, PartialEq, Eq)]
pub enum BatchFireEvent {
    /// The pipeline ran: decoded fine, or failed, a missing script among the errors.
    PipelineRan { ok: bool, missing_script: bool },
    /// The scripts were loaded, or failed to.
    ScriptsLoaded { ok: bool },
}

/// What to do next.
#[derive(Debug, Clone, Copy, PartialEq, Eq)]
pub enum BatchFireAction {
    /// Load every script the batch uses into redis.
    LoadScripts,
    /// Run the pipeline again.
    RunAgain,
    /// Hand back the decoded result (the batch used no scripts).
    Succeed,
    /// Hand back the decoded result, and note every script the batch used as loaded, so
    /// later batches call them by hash.
    SucceedMarkingLoaded,
    /// Give up, handing back nothing (the error is logged).
    Fail,
}

/// Whether `event` is one that can come at `stage`.
pub open spec fn batch_fire_expects(stage: BatchFireStage, event: BatchFireEvent) -> bool {
    match stage {
        BatchFireStage::First | BatchFireStage::Rerun => event is PipelineRan,
        BatchFireStage::Reloading => event is ScriptsLoaded,
        BatchFireStage::Done => false,
    }
}

/// The decisions of firing a batch: a pipeline that ran fine succeeds, noting the scripts
/// it used as loaded when there are any; the first run
/// failing on a missing script, when the batch uses scripts, loads them and runs once
/// more; every other failure gives up.
pub open spec fn batch_fire_next(stage: BatchFireStage, event: BatchFireEvent, n_scripts: usize) -> (
    BatchFireStage,
    BatchFireAction,
) {
    match event {
        BatchFireEvent::PipelineRan { ok, missing_script } => if ok {
            if n_scripts > 0 {
                (BatchFireStage::Done, BatchFireAction::SucceedMarkingLoaded)
            } else {
                (BatchFireStage::Done, BatchFireAction::Succeed)
            }
        } else if stage == BatchFireStage::First && missing_script && n_scripts > 0 {
            (BatchFireStage::Reloading, BatchFireAction::LoadScripts)
        } else {
            (BatchFireStage::Done, BatchFireAction::Fail)
        },
        BatchFireEvent::ScriptsLoaded { ok } => if ok {
            (BatchFireStage::Rerun, BatchFireAction::RunAgain)
        } else {
            (BatchFireStage::Done, BatchFireAction::Fail)
        },
    }
}

/// One step of firing a batch that uses `n_scripts` scripts.
pub fn batch_fire_step(stage: BatchFireStage, event: BatchFireEvent, n_scripts: usize) -> (next: (
    BatchFireStage,
    BatchFireAction,
))
    requires
        batch_fire_expects(stage, event),
    ensures
        next == batch_fire_next(stage, event, n_scripts),
        stage == BatchFireStage::First && event == (BatchFireEvent::PipelineRan {
            ok: false,
            missing_script: true,
        }) && n_scripts > 0 ==> next == (BatchFireStage::Reloading, BatchFireAction::LoadScripts),
        next.1 == BatchFireAction::LoadScripts ==> stage == BatchFireStage::First && n_scripts > 0,
{
    match event {
        BatchFireEvent::PipelineRan { ok, missing_script } => {
            if ok {
                if n_scripts > 0 {
                    (BatchFireStage::Done, BatchFireAction::SucceedMarkingLoaded)
                } else {
                    (BatchFireStage::Done, BatchFireAction::Succeed)
                }
            } else if matches!(stage, BatchFireStage::First) && missing_script && n_scripts > 0 {
                (BatchFireStage::Reloading, BatchFireAction::LoadScripts)
            } else {
                (BatchFireStage::Done, BatchFireAction::Fail)
            }
        },
        BatchFireEvent::ScriptsLoaded { ok } => {
            if ok {
                (BatchFireStage::Rerun, BatchFireAction::RunAgain)
            } else {
                (BatchFireStage::Done, BatchFireAction::Fail)
            }
        },
    }
}

/// The pipeline runs at most twice: a rerun that fails, on a missing script or not, gives up.
pub proof fn lemma_batch_reruns_once(event: BatchFireEvent, n_scripts: usize)
    requires
        batch_fire_expects(BatchFireStage::Rerun, event),
    ensures
        batch_fire_next(BatchFireStage::Rerun, event, n_scripts).0 == BatchFireStage::Done,
{
}

/// Law: the scripts a batch used are noted as loaded exactly when a run of its pipeline
/// succeeded and it used any.
pub proof fn lemma_scripts_marked_on_success(stage: BatchFireStage, event: BatchFireEvent, n_scripts: usize)
    requires
        batch_fire_expects(stage, event),
    ensures
        (batch_fire_next(stage, event, n_scripts).1 == BatchFireAction::SucceedMarkingLoaded) <==> (event
            == (BatchFireEvent::PipelineRan { ok: true, missing_script: false }) || event == (
        BatchFireEvent::PipelineRan { ok: true, missing_script: true })) && n_scripts > 0,
{
}

/// Law: a first run failing on a missing script, in a batch that uses any script at all,
/// loads the scripts and runs again; only a batch using no script gives up there, and
/// scripts are only ever loaded after such a first run.
pub proof fn lemma_missing_script_reloads(stage: BatchFireStage, event: BatchFireEvent, n_scripts: usize)
    requires
        batch_fire_expects(stage, event),
    ensures
        stage == BatchFireStage::First && event == (BatchFireEvent::PipelineRan { ok: false, missing_script: true })
            ==> batch_fire_next(stage, event, n_scripts) == if n_scripts > 0 {
            (BatchFireStage::Reloading, BatchFireAction::LoadScripts)
        } else {
            (BatchFireStage::Done, BatchFireAction::Fail)
        },
        batch_fire_next(stage, event, n_scripts).1 == BatchFireAction::LoadScripts ==> stage
            == BatchFireStage::First && n_scripts > 0 && event == (BatchFireEvent::PipelineRan {
            ok: false,
            missing_script: true,
        }),
{
}

} // verus!
