use vstd::prelude::*;
use crate::action::{StepAction, StepView, step_trigger, step_result, step_fed, step_ready, step_request};
use crate::cooking_step::{AdjustmentRequest, StepAdjustment, AdjustmentView, request_opt_view};
use crate::i18n::{SmartSpeakerI18nText, I18nView, i18n};
use crate::intent::{IntentAction, IntentCookingMenu, IntentSlot};
use crate::messages::{Content, ContentView, IntentContent, IntentContentView};
use crate::recipe::{CookingStepBuilder, recipe_steps, steps_view};
use crate::revision::{CookingRevision, CookingRevisionEntity, revision_view};
use crate::state::{WaitingInteraction, WaitingView};
use crate::step::{copy_revision_opt, trigger_waiting};
use crate::task::{SmartSpeakerTaskResult, SmartSpeakerTaskResultCode, SmartSpeakerTaskType, CodeView, TaskResultView,
    TaskError, task_outcome_view, result_opt_view, with_code, trigger_failure, trigger_failure_result, copy_result_opt,
    result_view};

verus! {

/// A cooking task: the steps of a recipe, the step it is at, the changes that
/// measuring found so far, and the last result that moved it on.
#[derive(Debug)]
pub struct CookingTask {
    pub menu: IntentCookingMenu,
    pub step: Vec<StepAction>,
    pub current_step: usize,
    pub last_revision: Option<CookingRevision>,
    pub previous_success_result: Option<SmartSpeakerTaskResult>,
    pub checkpoint: usize,
}

/// A cooking task as plain values.
pub struct CookingTaskView {
    pub menu: IntentCookingMenu,
    pub steps: Seq<StepView>,
    pub current: int,
    pub last_revision: Option<Seq<CookingRevisionEntity>>,
    pub previous: Option<TaskResultView>,
    pub checkpoint: int,
}

impl View for CookingTask {
    type V = CookingTaskView;

    open spec fn view(&self) -> CookingTaskView {
        CookingTaskView {
            menu: self.menu,
            steps: steps_view(self.step@),
            current: self.current_step as int,
            last_revision: revision_view(self.last_revision),
            previous: result_opt_view(self.previous_success_result),
            checkpoint: self.checkpoint as int,
        }
    }
}

/// A step as a task keeps it: a recipe step that has taken nothing in yet.
pub open spec fn step_unfed(s: StepView) -> bool {
    match s {
        StepView::ExplainRecipe(a) => a.content is None && a.revision is None && !a.cancelled && !a.repeat_requested,
        StepView::MeasureIngredient(a) => a.content is None && a.revision is None && !a.cancelled && !a.repeat_requested,
        _ => false,
    }
}

/// A well-formed cooking task: it has steps, it is at one of them, its
/// checkpoint is one of them, and it keeps them as built.
pub open spec fn cooking_wf(v: CookingTaskView) -> bool {
    &&& v.steps.len() > 0
    &&& 0 <= v.current < v.steps.len()
    &&& 0 <= v.checkpoint < v.steps.len()
    &&& forall|i: int| 0 <= i < v.steps.len() ==> #[trigger] step_unfed(v.steps[i])
}

/// What a cooking task says when it exits.
pub open spec fn cooking_exit_text() -> I18nView {
    i18n("cooking task exit"@, "料理タスクを終了します。"@, "退出烹饪任务。"@, "요리 작업을 종료합니다."@)
}

/// What a cooking task says when it is cancelled.
pub open spec fn cooking_cancel_text() -> I18nView {
    i18n("cooking task cancelled"@, "料理タスクをキャンセルします。"@, "取消烹饪任务。"@, "요리 작업을 취소합니다."@)
}

/// The result of exiting a cooking task.
pub open spec fn cooking_exit() -> TaskResultView {
    result_view(SmartSpeakerTaskType::NonVision, CodeView::Exit, Some(cooking_exit_text()), None)
}

/// The result of cancelling a cooking task.
pub open spec fn cooking_cancel() -> TaskResultView {
    result_view(SmartSpeakerTaskType::NonVision, CodeView::Cancelled, Some(cooking_cancel_text()), None)
}

/// What a cooking task does with a step's result `r`: on success it moves to the
/// next step, says what that step waits for (nothing after a vision step), keeps
/// the result for a repeat and the result's changes, or ends where there is no
/// next step; a failed step is reported as it is; a repeat gives the kept result;
/// a cancel or an exit ends the task.
pub open spec fn cooking_handled(v: CookingTaskView, r: TaskResultView) -> (CookingTaskView, Result<TaskResultView, TaskError>) {
    match r.code {
        CodeView::StepSuccess => if v.current < v.steps.len() - 1 {
            let next = v.current + 1;
            let code = if r.task_type == SmartSpeakerTaskType::Vision {
                CodeView::TaskSuccess(WaitingView::Skip)
            } else {
                CodeView::TaskSuccess(trigger_waiting(step_trigger(v.steps[next])))
            };
            let u = with_code(r, code);
            (CookingTaskView {
                current: next,
                previous: Some(u),
                last_revision: if r.revision is Some { r.revision } else { v.last_revision },
                ..v
            }, Ok(u))
        } else {
            (v, Ok(with_code(r, CodeView::TaskSuccess(WaitingView::Exit))))
        },
        CodeView::StepFailed => (v, Ok(r)),
        CodeView::RepeatPrevious => (v, match v.previous {
            Some(p) => Ok(p),
            None => Err(TaskError::NothingToRepeat),
        }),
        CodeView::Cancelled => (v, Ok(cooking_cancel())),
        CodeView::Exit => (v, Ok(cooking_exit())),
        _ => (v, Err(TaskError::UnexpectedResult)),
    }
}

/// What a cooking task does with `content` (and `adj` computed for the current
/// step): without content it reports that the current step still waits; with
/// content it runs a copy of the current step fed with the content and the
/// changes found so far, and handles the result (a step that fails to run is
/// reported as without content).
pub open spec fn cooking_try_next(v: CookingTaskView, content: Option<ContentView>, adj: AdjustmentView) -> (CookingTaskView, Result<TaskResultView, TaskError>) {
    let s = v.steps[v.current];
    match content {
        None => (v, Ok(trigger_failure(step_trigger(s)))),
        Some(c) => match step_result(step_fed(s, c, v.last_revision), adj) {
            Ok(r) => cooking_handled(v, r),
            Err(_) => (v, Ok(trigger_failure(step_trigger(s)))),
        },
    }
}

/// Whether the current step can run on `content`.
pub open spec fn cooking_can_take(v: CookingTaskView, content: Option<ContentView>) -> bool {
    content matches Some(c) ==> step_ready(step_fed(v.steps[v.current], c, v.last_revision))
}

/// The content that starts a task: a spoken "next".
pub open spec fn start_content() -> ContentView {
    ContentView::Intent(IntentContentView { intent: IntentAction::Next, entities: Seq::empty() })
}

/// The optional content as plain values.
pub open spec fn content_opt_view(c: Option<Content>) -> Option<ContentView> {
    match c {
        Some(x) => Some(x@),
        None => None,
    }
}

impl CookingTask {
    /// A task cooking the dish that `content` names, with steps for the vision or not.
    pub fn new(content: IntentContent, vision: bool) -> (r: Result<CookingTask, TaskError>)
        requires
            content.entities@.len() > 0 ==> content.entities@[0] is Menu,
        ensures
            match r {
                Ok(t) => content.entities@.len() > 0
                    && t@ == (CookingTaskView {
                        menu: content.entities@[0]->Menu_0,
                        steps: recipe_steps(content.entities@[0]->Menu_0, vision),
                        current: 0,
                        last_revision: None,
                        previous: None,
                        checkpoint: 0,
                    })
                    && cooking_wf(t@),
                Err(e) => content.entities@.len() == 0 && e == TaskError::MenuMissing,
            },
    {
        if content.entities.len() == 0 {
            return Err(TaskError::MenuMissing);
        }
        let menu = match content.entities[0] {
            IntentSlot::Menu(m) => m,
            IntentSlot::Place(_) => {
                proof { assert(false); }
                return Err(TaskError::MenuMissing);
            },
        };
        let steps = CookingStepBuilder::new(vision).build(menu);
        proof {
            crate::recipe::lemma_recipe_steps_unfed(menu, vision);
        }
        Ok(CookingTask {
            menu,
            step: steps,
            current_step: 0,
            last_revision: None,
            previous_success_result: None,
            checkpoint: 0,
        })
    }

    /// Starts the task as if "next" were said.
    pub fn init(&mut self) -> (r: Result<SmartSpeakerTaskResult, TaskError>)
        requires
            cooking_wf(old(self)@),
        ensures
            (final(self)@, task_outcome_view(r)) == cooking_try_next(old(self)@, Some(start_content()), AdjustmentView::Unneeded),
            cooking_wf(final(self)@),
    {
        let start = Content::Intent(IntentContent::new(IntentAction::Next, Vec::new()));
        proof {
            assert(start@ == start_content());
            assert(step_unfed(self@.steps[self@.current]));
        }
        self.try_next(Some(start), &StepAdjustment::Unneeded)
    }

    /// The index of the next step, if there is one.
    pub fn next_index(&self) -> (r: Option<usize>)
        requires
            cooking_wf(self@),
        ensures
            r == (if self@.current < self@.steps.len() - 1 { Some((self.current_step + 1) as usize) } else { None }),
    {
        if self.current_step < self.step.len() - 1 {
            Some(self.current_step + 1)
        } else {
            None
        }
    }

    /// What the current step needs computed before it can run on new content.
    pub fn adjustment_request(&self) -> (r: Option<AdjustmentRequest>)
        requires
            cooking_wf(self@),
        ensures
            request_opt_view(r) == step_request(self@.steps[self@.current], self@.last_revision),
    {
        self.step[self.current_step].adjustment_request(&self.last_revision)
    }

    /// Whether the current step can run on `content`.
    pub fn can_take(&self, content: &Content) -> (r: bool)
        requires
            cooking_wf(self@),
        ensures
            r == cooking_can_take(self@, Some(content@)),
    {
        let mut action = self.step[self.current_step].clone();
        action.feed(content.clone(), copy_revision_opt(&self.last_revision));
        action.is_ready()
    }

    /// Runs the current step on `content`, with `adj` computed for it.
    pub fn try_next(&mut self, content: Option<Content>, adj: &StepAdjustment) -> (r: Result<SmartSpeakerTaskResult, TaskError>)
        requires
            cooking_wf(old(self)@),
            cooking_can_take(old(self)@, content_opt_view(content)),
        ensures
            (final(self)@, task_outcome_view(r)) == cooking_try_next(old(self)@, content_opt_view(content), adj@),
            cooking_wf(final(self)@),
    {
        match content {
            None => Ok(self.failed()),
            Some(c) => {
                let mut action = self.step[self.current_step].clone();
                action.feed(c, copy_revision_opt(&self.last_revision));
                match action.execute(adj) {
                    Ok(result) => self.handle_result(result),
                    Err(_) => Ok(self.failed()),
                }
            },
        }
    }

    /// Handles a step's result.
    pub fn handle_result(&mut self, result: SmartSpeakerTaskResult) -> (r: Result<SmartSpeakerTaskResult, TaskError>)
        requires
            cooking_wf(old(self)@),
        ensures
            (final(self)@, task_outcome_view(r)) == cooking_handled(old(self)@, result@),
            cooking_wf(final(self)@),
    {
        let SmartSpeakerTaskResult { task_type, code, tts, revision } = result;
        match code {
            SmartSpeakerTaskResultCode::StepSuccess => {
                if self.internal_move_next() {
                    let next_trigger = self.step[self.current_step].get_action_trigger_type();
                    let new_code = if task_type == SmartSpeakerTaskType::Vision {
                        SmartSpeakerTaskResultCode::TaskSuccess(WaitingInteraction::Skip)
                    } else {
                        SmartSpeakerTaskResultCode::TaskSuccess(next_trigger.to_waiting_interaction())
                    };
                    let kept = copy_revision_opt(&revision);
                    let updated = SmartSpeakerTaskResult { task_type, code: new_code, tts, revision };
                    self.previous_success_result = Some(updated.clone());
                    if kept.is_some() {
                        self.last_revision = kept;
                    }
                    Ok(updated)
                } else {
                    Ok(SmartSpeakerTaskResult {
                        task_type,
                        code: SmartSpeakerTaskResultCode::TaskSuccess(WaitingInteraction::Exit),
                        tts,
                        revision,
                    })
                }
            },
            SmartSpeakerTaskResultCode::StepFailed => Ok(SmartSpeakerTaskResult { task_type, code, tts, revision }),
            SmartSpeakerTaskResultCode::RepeatPrevious => match copy_result_opt(&self.previous_success_result) {
                Some(previous) => Ok(previous),
                None => Err(TaskError::NothingToRepeat),
            },
            SmartSpeakerTaskResultCode::Cancelled => Ok(self.cancel()),
            SmartSpeakerTaskResultCode::Exit => Ok(self.exit()),
            _ => Err(TaskError::UnexpectedResult),
        }
    }

    /// The failure reported when the current step got nothing it could use.
    pub fn failed(&self) -> (r: SmartSpeakerTaskResult)
        requires
            cooking_wf(self@),
        ensures
            r@ == trigger_failure(step_trigger(self@.steps[self@.current])),
    {
        let trigger = self.step[self.current_step].get_action_trigger_type();
        trigger_failure_result(&trigger)
    }

    /// Moves to the next step where there is one.
    pub fn internal_move_next(&mut self) -> (r: bool)
        requires
            cooking_wf(old(self)@),
        ensures
            r == (old(self)@.current < old(self)@.steps.len() - 1),
            final(self)@ == (if r { CookingTaskView { current: old(self)@.current + 1, ..old(self)@ } } else { old(self)@ }),
            cooking_wf(final(self)@),
    {
        if self.current_step < self.step.len() - 1 {
            self.current_step = self.current_step + 1;
            true
        } else {
            false
        }
    }

    /// Goes back to the checkpoint.
    pub fn internal_rollback(&mut self) -> (r: bool)
        requires
            cooking_wf(old(self)@),
        ensures
            r,
            final(self)@ == (CookingTaskView { current: old(self)@.checkpoint, ..old(self)@ }),
            cooking_wf(final(self)@),
    {
        self.current_step = self.checkpoint;
        true
    }

    /// The result of exiting the task.
    pub fn exit(&self) -> (r: SmartSpeakerTaskResult)
        ensures
            r@ == cooking_exit(),
    {
        SmartSpeakerTaskResult::with_tts(
            SmartSpeakerTaskType::NonVision,
            SmartSpeakerTaskResultCode::Exit,
            SmartSpeakerI18nText::new()
                .en("cooking task exit")
                .ja("料理タスクを終了します。")
                .zh("退出烹饪任务。")
                .ko("요리 작업을 종료합니다."),
        )
    }

    /// The result of cancelling the task.
    pub fn cancel(&self) -> (r: SmartSpeakerTaskResult)
        ensures
            r@ == cooking_cancel(),
    {
        SmartSpeakerTaskResult::with_tts(
            SmartSpeakerTaskType::NonVision,
            SmartSpeakerTaskResultCode::Cancelled,
            SmartSpeakerI18nText::new()
                .en("cooking task cancelled")
                .ja("料理タスクをキャンセルします。")
                .zh("取消烹饪任务。")
                .ko("요리 작업을 취소합니다."),
        )
    }
}

/// A copy of a list of steps.
pub fn clone_steps(v: &Vec<StepAction>) -> (r: Vec<StepAction>)
    ensures
        steps_view(r@) == steps_view(v@),
{
    let mut r: Vec<StepAction> = Vec::new();
    let mut i: usize = 0;
    while i < v.len()
        invariant
            i <= v@.len(),
            steps_view(r@) == steps_view(v@.take(i as int)),
        decreases v@.len() - i,
    {
        let ghost before = r@;
        r.push(v[i].clone());
        assert(steps_view(r@) =~= steps_view(before).push(v@[i as int]@));
        assert(steps_view(v@.take(i as int + 1)) =~= steps_view(v@.take(i as int)).push(v@[i as int]@));
        i = i + 1;
    }
    assert(v@.take(v@.len() as int) =~= v@);
    r
}

impl Clone for CookingTask {
    fn clone(&self) -> (r: Self)
        ensures
            r@ == self@,
    {
        CookingTask {
            menu: self.menu,
            step: clone_steps(&self.step),
            current_step: self.current_step,
            last_revision: copy_revision_opt(&self.last_revision),
            previous_success_result: copy_result_opt(&self.previous_success_result),
            checkpoint: self.checkpoint,
        }
    }
}

/// Running a step keeps a cooking task well formed and its steps as they were, and
/// moves it on by at most one step.
pub proof fn lemma_try_next_progress(v: CookingTaskView, content: Option<ContentView>, adj: AdjustmentView)
    requires
        cooking_wf(v),
    ensures
        ({
            let (w, _) = cooking_try_next(v, content, adj);
            &&& cooking_wf(w)
            &&& w.steps == v.steps
            &&& w.menu == v.menu
            &&& (w.current == v.current || w.current == v.current + 1)
        }),
{
}

/// After a step that is not a vision step succeeds and the task moves on, the
/// speaker waits for what the new current step needs: the vision to look for
/// what a weighing or counting step looks for, speech for a step that explains,
/// nothing for a plain step. It is the step the task moved to that decides, not
/// the one that just succeeded.
pub proof fn lemma_success_waits_for_the_next_step(v: CookingTaskView, r: TaskResultView)
    requires
        cooking_wf(v),
        r.code == CodeView::StepSuccess,
        r.task_type == SmartSpeakerTaskType::NonVision,
        v.current < v.steps.len() - 1,
    ensures
        ({
            let (w, out) = cooking_handled(v, r);
            &&& w.steps == v.steps
            &&& w.current == v.current + 1
            &&& out is Ok
            &&& out->Ok_0.tts == r.tts
            &&& out->Ok_0.code == CodeView::TaskSuccess(match w.steps[w.current] {
                StepView::MeasureIngredient(a) => WaitingView::Vision(seq![a.vision_action]),
                StepView::CountVision(a) => WaitingView::Vision(seq![a.vision_action]),
                StepView::ExplainRecipe(_) => WaitingView::Speak,
                StepView::Generic(_) => WaitingView::Skip,
            })
        }),
{
}

/// A spoken request to cancel cancels a cooking task, whatever step it is at, and
/// leaves it as it was.
pub proof fn lemma_cancel_request_cancels(v: CookingTaskView, entities: Seq<IntentSlot>, adj: AdjustmentView)
    requires
        cooking_wf(v),
    ensures
        cooking_try_next(v, Some(ContentView::Intent(IntentContentView { intent: IntentAction::Cancel, entities })), adj)
            == (v, Ok::<TaskResultView, TaskError>(cooking_cancel())),
{
    assert(step_unfed(v.steps[v.current]));
}

/// A spoken request to repeat gives back the last result that moved the task on,
/// or fails where nothing has, and leaves the task as it was.
pub proof fn lemma_repeat_request_repeats(v: CookingTaskView, entities: Seq<IntentSlot>, adj: AdjustmentView)
    requires
        cooking_wf(v),
    ensures
        cooking_try_next(v, Some(ContentView::Intent(IntentContentView { intent: IntentAction::Repeat, entities })), adj)
            == (v, match v.previous {
                Some(p) => Ok(p),
                None => Err(TaskError::NothingToRepeat),
            }),
{
    assert(step_unfed(v.steps[v.current]));
}

/// After a step succeeds and the task moves on, a request to repeat gives back
/// exactly what that step's success gave.
pub proof fn lemma_repeat_after_success(v: CookingTaskView, content: ContentView, adj: AdjustmentView, entities: Seq<IntentSlot>, adj2: AdjustmentView)
    requires
        cooking_wf(v),
        cooking_try_next(v, Some(content), adj).0.current == v.current + 1,
    ensures
        ({
            let (w, first) = cooking_try_next(v, Some(content), adj);
            cooking_try_next(w, Some(ContentView::Intent(IntentContentView { intent: IntentAction::Repeat, entities })), adj2)
                == (w, first)
        }),
{
    let (w, first) = cooking_try_next(v, Some(content), adj);
    lemma_try_next_progress(v, Some(content), adj);
    lemma_repeat_request_repeats(w, entities, adj2);
}

} // verus!
