use vstd::prelude::*;
use crate::i18n::{SmartSpeakerI18nText, I18nView};
use crate::revision::{CookingRevision, CookingRevisionEntity, revision_view};
use crate::state::{WaitingInteraction, WaitingView};
use crate::speech::{MachineSpeechBoilerplate, boilerplate_text};
use crate::step::{ActionTriggerType, TriggerView, trigger_task_type, trigger_waiting};

verus! {

/// Whether a task step waits on the vision.
#[derive(Debug, Clone, Copy, PartialEq, Eq, Structural)]
pub enum SmartSpeakerTaskType {
    Vision,
    NonVision,
}

/// How a task step ended.
#[derive(Debug, PartialEq)]
pub enum SmartSpeakerTaskResultCode {
    Exit,
    RepeatPrevious,
    StepSuccess,
    StepFailed,
    TaskSuccess(WaitingInteraction),
    TaskFailed(WaitingInteraction),
    Cancelled,
}

/// How a task step ended, as plain values.
pub enum CodeView {
    Exit,
    RepeatPrevious,
    StepSuccess,
    StepFailed,
    TaskSuccess(WaitingView),
    TaskFailed(WaitingView),
    Cancelled,
}

impl View for SmartSpeakerTaskResultCode {
    type V = CodeView;

    open spec fn view(&self) -> CodeView {
        match self {
            SmartSpeakerTaskResultCode::Exit => CodeView::Exit,
            SmartSpeakerTaskResultCode::RepeatPrevious => CodeView::RepeatPrevious,
            SmartSpeakerTaskResultCode::StepSuccess => CodeView::StepSuccess,
            SmartSpeakerTaskResultCode::StepFailed => CodeView::StepFailed,
            SmartSpeakerTaskResultCode::TaskSuccess(w) => CodeView::TaskSuccess(w@),
            SmartSpeakerTaskResultCode::TaskFailed(w) => CodeView::TaskFailed(w@),
            SmartSpeakerTaskResultCode::Cancelled => CodeView::Cancelled,
        }
    }
}

impl Clone for SmartSpeakerTaskResultCode {
    fn clone(&self) -> (r: Self)
        ensures
            r@ == self@,
    {
        match self {
            SmartSpeakerTaskResultCode::Exit => SmartSpeakerTaskResultCode::Exit,
            SmartSpeakerTaskResultCode::RepeatPrevious => SmartSpeakerTaskResultCode::RepeatPrevious,
            SmartSpeakerTaskResultCode::StepSuccess => SmartSpeakerTaskResultCode::StepSuccess,
            SmartSpeakerTaskResultCode::StepFailed => SmartSpeakerTaskResultCode::StepFailed,
            SmartSpeakerTaskResultCode::TaskSuccess(w) => SmartSpeakerTaskResultCode::TaskSuccess(w.clone()),
            SmartSpeakerTaskResultCode::TaskFailed(w) => SmartSpeakerTaskResultCode::TaskFailed(w.clone()),
            SmartSpeakerTaskResultCode::Cancelled => SmartSpeakerTaskResultCode::Cancelled,
        }
    }
}

/// What a task step gives back: how it ended, what to say, and the changes to the
/// recipe measured so far.
#[derive(Debug, PartialEq)]
pub struct SmartSpeakerTaskResult {
    pub task_type: SmartSpeakerTaskType,
    pub code: SmartSpeakerTaskResultCode,
    pub tts: Option<SmartSpeakerI18nText>,
    pub revision: Option<CookingRevision>,
}

/// A task step's result as plain values.
pub struct TaskResultView {
    pub task_type: SmartSpeakerTaskType,
    pub code: CodeView,
    pub tts: Option<I18nView>,
    pub revision: Option<Seq<CookingRevisionEntity>>,
}

pub open spec fn tts_view(t: Option<SmartSpeakerI18nText>) -> Option<I18nView> {
    match t {
        Some(x) => Some(x@),
        None => None,
    }
}

impl View for SmartSpeakerTaskResult {
    type V = TaskResultView;

    open spec fn view(&self) -> TaskResultView {
        TaskResultView {
            task_type: self.task_type,
            code: self.code@,
            tts: tts_view(self.tts),
            revision: revision_view(self.revision),
        }
    }
}

/// A result with the given parts.
pub open spec fn result_view(task_type: SmartSpeakerTaskType, code: CodeView, tts: Option<I18nView>, revision: Option<Seq<CookingRevisionEntity>>) -> TaskResultView {
    TaskResultView { task_type, code, tts, revision }
}

impl SmartSpeakerTaskResult {
    /// A result with nothing to say and no revision.
    pub fn new(task_type: SmartSpeakerTaskType, code: SmartSpeakerTaskResultCode) -> (r: Self)
        ensures
            r@ == result_view(task_type, code@, None, None),
    {
        SmartSpeakerTaskResult { task_type, code, tts: None, revision: None }
    }

    /// A result with a text to say and no revision.
    pub fn with_tts(task_type: SmartSpeakerTaskType, code: SmartSpeakerTaskResultCode, tts: SmartSpeakerI18nText) -> (r: Self)
        ensures
            r@ == result_view(task_type, code@, Some(tts@), None),
    {
        SmartSpeakerTaskResult { task_type, code, tts: Some(tts), revision: None }
    }

    /// A result with a text to say and a revision.
    pub fn with_tts_and_revision(task_type: SmartSpeakerTaskType, code: SmartSpeakerTaskResultCode, tts: SmartSpeakerI18nText, revision: CookingRevision) -> (r: Self)
        ensures
            r@ == result_view(task_type, code@, Some(tts@), Some(revision@)),
    {
        SmartSpeakerTaskResult { task_type, code, tts: Some(tts), revision: Some(revision) }
    }
}

impl Clone for SmartSpeakerTaskResult {
    fn clone(&self) -> (r: Self)
        ensures
            r@ == self@,
    {
        let tts = match &self.tts {
            Some(t) => Some(t.clone()),
            None => None,
        };
        let revision = match &self.revision {
            Some(rev) => Some(rev.clone()),
            None => None,
        };
        SmartSpeakerTaskResult { task_type: self.task_type, code: self.code.clone(), tts, revision }
    }
}

/// Why a task could not go on.
#[derive(Debug, Clone, Copy, PartialEq, Eq, Structural)]
pub enum TaskError {
    /// The request to cook named no dish.
    MenuMissing,
    /// A repeat was asked for before anything succeeded.
    NothingToRepeat,
    /// A step gave a result that only a task gives.
    UnexpectedResult,
}

/// The view of a task's outcome.
pub open spec fn task_outcome_view(r: Result<SmartSpeakerTaskResult, TaskError>) -> Result<TaskResultView, TaskError> {
    match r {
        Ok(x) => Ok(x@),
        Err(e) => Err(e),
    }
}

/// The view of an optional result.
pub open spec fn result_opt_view(r: Option<SmartSpeakerTaskResult>) -> Option<TaskResultView> {
    match r {
        Some(x) => Some(x@),
        None => None,
    }
}

/// The result with another code.
pub open spec fn with_code(r: TaskResultView, code: CodeView) -> TaskResultView {
    TaskResultView { code, ..r }
}

/// What a task says when a step with this trigger got nothing it could use.
pub open spec fn failure_text(t: TriggerView) -> I18nView {
    if t is Vision {
        boilerplate_text(MachineSpeechBoilerplate::VisionFailed)
    } else {
        boilerplate_text(MachineSpeechBoilerplate::IntentFailed)
    }
}

/// The failure a task reports for a step with this trigger: the step is still
/// waited for.
pub open spec fn trigger_failure(t: TriggerView) -> TaskResultView {
    result_view(trigger_task_type(t), CodeView::TaskFailed(trigger_waiting(t)), Some(failure_text(t)), None)
}

/// The failure a task reports for a step with this trigger.
pub fn trigger_failure_result(trigger: &ActionTriggerType) -> (r: SmartSpeakerTaskResult)
    ensures
        r@ == trigger_failure(trigger@),
{
    let text = match trigger {
        ActionTriggerType::Vision(_) => MachineSpeechBoilerplate::VisionFailed.to_i18n(),
        _ => MachineSpeechBoilerplate::IntentFailed.to_i18n(),
    };
    SmartSpeakerTaskResult::with_tts(trigger.to_task_type(), SmartSpeakerTaskResultCode::TaskFailed(trigger.to_waiting_interaction()), text)
}

/// A copy of an optional result.
pub fn copy_result_opt(r: &Option<SmartSpeakerTaskResult>) -> (c: Option<SmartSpeakerTaskResult>)
    ensures
        result_opt_view(c) == result_opt_view(*r),
{
    match r {
        Some(x) => Some(x.clone()),
        None => None,
    }
}

} // verus!
