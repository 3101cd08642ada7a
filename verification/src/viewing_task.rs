use vstd::prelude::*;
use crate::action::{StepAction, StepView, step_trigger, step_result, step_fed};
use crate::cooking_step::{StepAdjustment, AdjustmentView};
use crate::cooking_task::{content_opt_view, start_content};
use crate::i18n::{SmartSpeakerI18nText, I18nView, i18n};
use crate::intent::IntentAction;
use crate::messages::{Content, ContentView, IntentContent};
use crate::recipe::steps_view;
use crate::state::{WaitingInteraction, WaitingView};
use crate::step::{GenericAction, GenericView, CountVisionObjectAction, CountView, count_vision_request, trigger_waiting};
use crate::task::{SmartSpeakerTaskResult, SmartSpeakerTaskResultCode, SmartSpeakerTaskType, CodeView, TaskResultView,
    TaskError, task_outcome_view, result_opt_view, with_code, trigger_failure, trigger_failure_result, copy_result_opt,
    result_view};

verus! {

/// A task that looks with the vision and says how many objects it sees.
#[derive(Debug)]
pub struct VisionViewingTask {
    pub step: Vec<StepAction>,
    pub current_step: usize,
    pub previous_success_result: Option<SmartSpeakerTaskResult>,
}

/// A viewing task as plain values.
pub struct ViewingTaskView {
    pub steps: Seq<StepView>,
    pub current: int,
    pub previous: Option<TaskResultView>,
}

impl View for VisionViewingTask {
    type V = ViewingTaskView;

    open spec fn view(&self) -> ViewingTaskView {
        ViewingTaskView {
            steps: steps_view(self.step@),
            current: self.current_step as int,
            previous: result_opt_view(self.previous_success_result),
        }
    }
}

/// A well-formed viewing task: it has steps, is at one of them, and its steps
/// say a fixed text or count what the vision sees.
pub open spec fn viewing_wf(v: ViewingTaskView) -> bool {
    &&& v.steps.len() > 0
    &&& 0 <= v.current < v.steps.len()
    &&& forall|i: int| 0 <= i < v.steps.len() ==> (#[trigger] v.steps[i] is Generic || v.steps[i] is CountVision)
}

/// What a viewing task says while it checks.
pub open spec fn checking_text() -> I18nView {
    i18n("Checking..."@, "確認しています。"@, "正在确认。"@, "확인 중입니다."@)
}

/// The steps of a viewing task: say that it checks, then count what the vision sees.
pub open spec fn viewing_steps() -> Seq<StepView> {
    seq![
        StepView::Generic(GenericView { tts: checking_text(), content: None, revision: None, cancelled: false, repeat_requested: false }),
        StepView::CountVision(CountView { vision_action: count_vision_request(), content: None, cancelled: false, repeat_requested: false }),
    ]
}

/// The result of a viewing task that finished.
pub open spec fn viewing_exit() -> TaskResultView {
    result_view(SmartSpeakerTaskType::NonVision, CodeView::Exit,
        Some(i18n("task finished"@, "タスクを完了しました。"@, "任务完成了。"@, "작업을 완료했습니다."@)), None)
}

/// The result of a viewing task that was cancelled.
pub open spec fn viewing_cancel() -> TaskResultView {
    result_view(SmartSpeakerTaskType::NonVision, CodeView::Cancelled,
        Some(i18n("task cancelled"@, "タスクをキャンセルしました。"@, "任务取消了。"@, "작업이 취소되었습니다."@)), None)
}

/// The result of a viewing task whose step could not run.
pub open spec fn viewing_failed() -> TaskResultView {
    result_view(SmartSpeakerTaskType::NonVision, CodeView::Exit,
        Some(i18n("task failed"@, "タスクに失敗しました。"@, "任务失败了。"@, "작업에 실패했습니다."@)), None)
}

/// What a viewing task does with a step's result `r`: on success it moves to the
/// next step and says what that step waits for, keeping the result for a repeat,
/// or ends where there is no next step; a failed step is reported as it is; a
/// repeat gives the kept result; a cancel or an exit ends the task.
pub open spec fn viewing_handled(v: ViewingTaskView, r: TaskResultView) -> (ViewingTaskView, Result<TaskResultView, TaskError>) {
    match r.code {
        CodeView::StepSuccess => if v.current < v.steps.len() - 1 {
            let next = v.current + 1;
            let u = with_code(r, CodeView::TaskSuccess(trigger_waiting(step_trigger(v.steps[next]))));
            (ViewingTaskView { current: next, previous: Some(u), ..v }, Ok(u))
        } else {
            (v, Ok(with_code(r, CodeView::TaskSuccess(WaitingView::Exit))))
        },
        CodeView::StepFailed => (v, Ok(r)),
        CodeView::RepeatPrevious => (v, match v.previous {
            Some(p) => Ok(p),
            None => Err(TaskError::NothingToRepeat),
        }),
        CodeView::Cancelled => (v, Ok(viewing_cancel())),
        CodeView::Exit => (v, Ok(viewing_exit())),
        _ => (v, Err(TaskError::UnexpectedResult)),
    }
}

/// What a viewing task does with `content`: without content it reports that the
/// current step still waits; with content it runs a copy of the current step fed
/// with it and handles the result.
pub open spec fn viewing_try_next(v: ViewingTaskView, content: Option<ContentView>) -> (ViewingTaskView, Result<TaskResultView, TaskError>) {
    let s = v.steps[v.current];
    match content {
        None => (v, Ok(trigger_failure(step_trigger(s)))),
        Some(c) => match step_result(step_fed(s, c, None), AdjustmentView::Unneeded) {
            Ok(r) => viewing_handled(v, r),
            Err(_) => (v, Ok(viewing_failed())),
        },
    }
}

impl VisionViewingTask {
    pub fn new() -> (r: Result<VisionViewingTask, TaskError>)
        ensures
            r matches Ok(t) && t@ == (ViewingTaskView { steps: viewing_steps(), current: 0, previous: None }) && viewing_wf(t@),
    {
        let mut steps: Vec<StepAction> = Vec::new();
        steps.push(StepAction::Generic(GenericAction::new(SmartSpeakerI18nText::new()
            .en("Checking...")
            .ja("確認しています。")
            .zh("正在确认。")
            .ko("확인 중입니다."))));
        steps.push(StepAction::CountVision(CountVisionObjectAction::new()));
        assert(steps_view(steps@) =~= viewing_steps());
        Ok(VisionViewingTask { step: steps, current_step: 0, previous_success_result: None })
    }

    /// Starts the task as if "next" were said.
    pub fn init(&mut self) -> (r: Result<SmartSpeakerTaskResult, TaskError>)
        requires
            viewing_wf(old(self)@),
        ensures
            (final(self)@, task_outcome_view(r)) == viewing_try_next(old(self)@, Some(start_content())),
            viewing_wf(final(self)@),
    {
        let start = Content::Intent(IntentContent::new(IntentAction::Next, Vec::new()));
        assert(start@ == start_content());
        self.try_next(Some(start))
    }

    /// Runs the current step on `content`.
    pub fn try_next(&mut self, content: Option<Content>) -> (r: Result<SmartSpeakerTaskResult, TaskError>)
        requires
            viewing_wf(old(self)@),
        ensures
            (final(self)@, task_outcome_view(r)) == viewing_try_next(old(self)@, content_opt_view(content)),
            viewing_wf(final(self)@),
    {
        match content {
            None => {
                let trigger = self.step[self.current_step].get_action_trigger_type();
                Ok(trigger_failure_result(&trigger))
            },
            Some(c) => {
                proof {
                    let s = self@.steps[self@.current];
                    assert(s is Generic || s is CountVision);
                }
                let mut action = self.step[self.current_step].clone();
                action.feed(c, None);
                match action.execute(&StepAdjustment::Unneeded) {
                    Ok(result) => self.handle_result(result),
                    Err(_) => Ok(self.failed()),
                }
            },
        }
    }

    /// Handles a step's result.
    pub fn handle_result(&mut self, result: SmartSpeakerTaskResult) -> (r: Result<SmartSpeakerTaskResult, TaskError>)
        requires
            viewing_wf(old(self)@),
        ensures
            (final(self)@, task_outcome_view(r)) == viewing_handled(old(self)@, result@),
            viewing_wf(final(self)@),
    {
        let SmartSpeakerTaskResult { task_type, code, tts, revision } = result;
        match code {
            SmartSpeakerTaskResultCode::StepSuccess => {
                if self.internal_move_next() {
                    let next_trigger = self.step[self.current_step].get_action_trigger_type();
                    let updated = SmartSpeakerTaskResult {
                        task_type,
                        code: SmartSpeakerTaskResultCode::TaskSuccess(next_trigger.to_waiting_interaction()),
                        tts,
                        revision,
                    };
                    self.previous_success_result = Some(updated.clone());
                    Ok(updated)
                } else {
                    Ok(SmartSpeakerTaskResult {
                        task_type,
                        code: SmartSpeakerTaskResultCode::TaskSuccess(WaitingInteraction::Exit),
                        tts,
                        revision,
                    })
                }
            },
            SmartSpeakerTaskResultCode::StepFailed => Ok(SmartSpeakerTaskResult { task_type, code, tts, revision }),
            SmartSpeakerTaskResultCode::RepeatPrevious => match copy_result_opt(&self.previous_success_result) {
                Some(previous) => Ok(previous),
                None => Err(TaskError::NothingToRepeat),
            },
            SmartSpeakerTaskResultCode::Cancelled => Ok(self.cancel()),
            SmartSpeakerTaskResultCode::Exit => Ok(self.exit()),
            _ => Err(TaskError::UnexpectedResult),
        }
    }

    /// The result when a step could not run: the task ends.
    pub fn failed(&self) -> (r: SmartSpeakerTaskResult)
        ensures
            r@ == viewing_failed(),
    {
        SmartSpeakerTaskResult::with_tts(
            SmartSpeakerTaskType::NonVision,
            SmartSpeakerTaskResultCode::Exit,
            SmartSpeakerI18nText::new()
                .en("task failed")
                .ja("タスクに失敗しました。")
                .zh("任务失败了。")
                .ko("작업에 실패했습니다."),
        )
    }

    /// Moves to the next step where there is one.
    pub fn internal_move_next(&mut self) -> (r: bool)
        requires
            viewing_wf(old(self)@),
        ensures
            r == (old(self)@.current < old(self)@.steps.len() - 1),
            final(self)@ == (if r { ViewingTaskView { current: old(self)@.current + 1, ..old(self)@ } } else { old(self)@ }),
            viewing_wf(final(self)@),
    {
        if self.current_step < self.step.len() - 1 {
            self.current_step = self.current_step + 1;
            true
        } else {
            false
        }
    }

    /// The result of finishing the task.
    pub fn exit(&self) -> (r: SmartSpeakerTaskResult)
        ensures
            r@ == viewing_exit(),
    {
        SmartSpeakerTaskResult::with_tts(
            SmartSpeakerTaskType::NonVision,
            SmartSpeakerTaskResultCode::Exit,
            SmartSpeakerI18nText::new()
                .en("task finished")
                .ja("タスクを完了しました。")
                .zh("任务完成了。")
                .ko("작업을 완료했습니다."),
        )
    }

    /// The result of cancelling the task.
    pub fn cancel(&self) -> (r: SmartSpeakerTaskResult)
        ensures
            r@ == viewing_cancel(),
    {
        SmartSpeakerTaskResult::with_tts(
            SmartSpeakerTaskType::NonVision,
            SmartSpeakerTaskResultCode::Cancelled,
            SmartSpeakerI18nText::new()
                .en("task cancelled")
                .ja("タスクをキャンセルしました。")
                .zh("任务取消了。")
                .ko("작업이 취소되었습니다."),
        )
    }
}

impl Clone for VisionViewingTask {
    fn clone(&self) -> (r: Self)
        ensures
            r@ == self@,
    {
        VisionViewingTask {
            step: crate::cooking_task::clone_steps(&self.step),
            current_step: self.current_step,
            previous_success_result: copy_result_opt(&self.previous_success_result),
        }
    }
}

} // verus!
