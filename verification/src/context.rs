use vstd::prelude::*;
use crate::action::{step_trigger, step_request};
use crate::cooking_step::{AdjustmentRequest, AdjustmentView, StepAdjustment, RequestView, request_opt_view};
use crate::cooking_task::{CookingTask, CookingTaskView, cooking_can_take, cooking_try_next, cooking_wf, content_opt_view,
    start_content};
use crate::i18n::{SmartSpeakerI18nText, I18nView};
use crate::intent::{IntentAction, IntentSlot};
use crate::messages::{Content, ContentView, IntentContent, IntentContentView, ProcessResult, VisionContent, VisionContentView};
use crate::recipe::recipe_steps;
use crate::speech::MachineSpeechBoilerplate;
use crate::state::{SmartSpeakerState, StateView, WaitingInteraction};
use crate::task::{SmartSpeakerTaskResult, SmartSpeakerTaskResultCode, CodeView, TaskResultView, TaskError, task_outcome_view,
    trigger_failure};
use crate::viewing_task::{VisionViewingTask, ViewingTaskView, viewing_failed, viewing_steps, viewing_try_next, viewing_wf};

verus! {

/// The task the speaker is helping with.
#[derive(Debug)]
pub enum SmartSpeakerTask {
    Cooking(CookingTask),
    Viewing(VisionViewingTask),
}

/// A task as plain values.
pub enum TaskView {
    Cooking(CookingTaskView),
    Viewing(ViewingTaskView),
}

impl View for SmartSpeakerTask {
    type V = TaskView;

    open spec fn view(&self) -> TaskView {
        match self {
            SmartSpeakerTask::Cooking(t) => TaskView::Cooking(t@),
            SmartSpeakerTask::Viewing(t) => TaskView::Viewing(t@),
        }
    }
}

/// A well-formed task.
pub open spec fn task_wf(t: TaskView) -> bool {
    match t {
        TaskView::Cooking(v) => cooking_wf(v),
        TaskView::Viewing(v) => viewing_wf(v),
    }
}

/// What a task does with content (and `adj`, for a cooking task).
pub open spec fn task_step(t: TaskView, content: Option<ContentView>, adj: AdjustmentView) -> (TaskView, Result<TaskResultView, TaskError>) {
    match t {
        TaskView::Cooking(v) => {
            let (w, r) = cooking_try_next(v, content, adj);
            (TaskView::Cooking(w), r)
        },
        TaskView::Viewing(v) => {
            let (w, r) = viewing_try_next(v, content);
            (TaskView::Viewing(w), r)
        },
    }
}

/// Whether a task's current step can run on content.
pub open spec fn task_can_take(t: TaskView, content: Option<ContentView>) -> bool {
    match t {
        TaskView::Cooking(v) => cooking_can_take(v, content),
        TaskView::Viewing(_) => true,
    }
}

/// Whether content can go to a task: its current step can run on it, and the task
/// does not fail on it.
pub open spec fn task_proceeds(t: TaskView, content: Option<ContentView>, adj: AdjustmentView) -> bool {
    task_can_take(t, content) && task_step(t, content, adj).1 is Ok
}

/// What a task reports when what its step waits for failed.
pub open spec fn task_failed(t: TaskView) -> TaskResultView {
    match t {
        TaskView::Cooking(v) => trigger_failure(step_trigger(v.steps[v.current])),
        TaskView::Viewing(_) => viewing_failed(),
    }
}

/// What a task's current step asks to have computed before it runs on new content:
/// a cooking step asks with the task's newest changes; a viewing task asks nothing.
pub open spec fn task_request(t: TaskView) -> Option<RequestView> {
    match t {
        TaskView::Cooking(v) => step_request(v.steps[v.current], v.last_revision),
        TaskView::Viewing(_) => None,
    }
}

impl SmartSpeakerTask {
    /// Runs the current step on `content`.
    pub fn try_next(&mut self, content: Option<Content>, adj: &StepAdjustment) -> (r: Result<SmartSpeakerTaskResult, TaskError>)
        requires
            task_wf(old(self)@),
            task_can_take(old(self)@, content_opt_view(content)),
        ensures
            (final(self)@, task_outcome_view(r)) == task_step(old(self)@, content_opt_view(content), adj@),
            task_wf(final(self)@),
    {
        match self {
            SmartSpeakerTask::Cooking(t) => t.try_next(content, adj),
            SmartSpeakerTask::Viewing(t) => t.try_next(content),
        }
    }

    /// What the task reports when what its step waits for failed.
    pub fn failed(&self) -> (r: SmartSpeakerTaskResult)
        requires
            task_wf(self@),
        ensures
            r@ == task_failed(self@),
    {
        match self {
            SmartSpeakerTask::Cooking(t) => t.failed(),
            SmartSpeakerTask::Viewing(t) => t.failed(),
        }
    }

    /// Whether `content` can go to the task.
    pub fn proceeds(&self, content: &Content, adj: &StepAdjustment) -> (r: bool)
        requires
            task_wf(self@),
        ensures
            r == task_proceeds(self@, Some(content@), adj@),
    {
        match self {
            SmartSpeakerTask::Cooking(t) => {
                if !t.can_take(content) {
                    return false;
                }
                let mut copy = t.clone();
                copy.try_next(Some(content.clone()), adj).is_ok()
            },
            SmartSpeakerTask::Viewing(t) => {
                let mut copy = t.clone();
                copy.try_next(Some(content.clone())).is_ok()
            },
        }
    }

    /// What the current step needs computed before it runs on new content.
    pub fn adjustment_request(&self) -> (r: Option<AdjustmentRequest>)
        requires
            task_wf(self@),
        ensures
            request_opt_view(r) == task_request(self@),
    {
        match self {
            SmartSpeakerTask::Cooking(t) => t.adjustment_request(),
            SmartSpeakerTask::Viewing(_) => None,
        }
    }
}

/// What the context has the speaker do.
#[derive(Debug, PartialEq)]
pub enum ContextOutput {
    /// Say a text.
    Speak(SmartSpeakerI18nText),
    /// Say a fixed phrase.
    SpeakBoilerplate(MachineSpeechBoilerplate),
    /// Report a new state to the core.
    UpdateState(SmartSpeakerState),
}

/// A context output as plain values.
pub enum OutputView {
    Speak(I18nView),
    SpeakBoilerplate(MachineSpeechBoilerplate),
    UpdateState(StateView),
}

impl View for ContextOutput {
    type V = OutputView;

    open spec fn view(&self) -> OutputView {
        match self {
            ContextOutput::Speak(t) => OutputView::Speak(t@),
            ContextOutput::SpeakBoilerplate(b) => OutputView::SpeakBoilerplate(*b),
            ContextOutput::UpdateState(s) => OutputView::UpdateState(s@),
        }
    }
}

/// The views of a list of outputs.
pub open spec fn outputs_view(v: Seq<ContextOutput>) -> Seq<OutputView> {
    v.map_values(|o: ContextOutput| o@)
}

/// What the speaker is in the middle of: its task, if any, and the state it reports
/// once it has said what it is saying.
#[derive(Debug)]
pub struct ContextActorCore {
    pub vision: bool,
    pub current_task: Option<SmartSpeakerTask>,
    pub next_state: Option<SmartSpeakerState>,
}

/// The context as plain values.
pub struct ContextView {
    pub vision: bool,
    pub task: Option<TaskView>,
    pub next_state: Option<StateView>,
}

impl View for ContextActorCore {
    type V = ContextView;

    open spec fn view(&self) -> ContextView {
        ContextView {
            vision: self.vision,
            task: match self.current_task {
                Some(t) => Some(t@),
                None => None,
            },
            next_state: match self.next_state {
                Some(s) => Some(s@),
                None => None,
            },
        }
    }
}

/// A well-formed context: its task, if any, is well formed.
pub open spec fn context_wf(c: ContextView) -> bool {
    c.task matches Some(t) ==> task_wf(t)
}

/// Reporting the pending state, if there is one.
pub open spec fn flush(c: ContextView, outs: Seq<OutputView>) -> (ContextView, Seq<OutputView>) {
    match c.next_state {
        Some(s) => (ContextView { next_state: None, ..c }, outs.push(OutputView::UpdateState(s))),
        None => (c, outs),
    }
}

/// What the context does with a task's result: an exit (or a task that waits for
/// nothing more) ends the task and the speaker goes idle; a cancel ends it too,
/// after "aborted"; a task that waits has the speaker wait for the same; then what
/// the result says is said, and the new state is reported once it has been said
/// (at once where there is nothing to say).
pub open spec fn after_result(c: ContextView, outs: Seq<OutputView>, r: TaskResultView) -> (ContextView, Seq<OutputView>) {
    let (c1, o1) = match r.code {
        CodeView::TaskSuccess(w) if w !is Exit => (ContextView { next_state: Some(StateView::WaitingForInteraction(w)), ..c }, outs),
        CodeView::TaskFailed(w) if w !is Exit => (ContextView { next_state: Some(StateView::WaitingForInteraction(w)), ..c }, outs),
        CodeView::Exit | CodeView::TaskSuccess(_) | CodeView::TaskFailed(_) =>
            (ContextView { task: None, next_state: Some(StateView::Idle), ..c }, outs),
        CodeView::Cancelled => (ContextView { task: None, next_state: Some(StateView::Idle), ..c },
            outs.push(OutputView::SpeakBoilerplate(MachineSpeechBoilerplate::Aborted))),
        _ => (c, outs),
    };
    match r.tts {
        Some(t) => (c1, o1.push(OutputView::Speak(t))),
        None => flush(c1, o1),
    }
}

/// The task that a request starts: a viewing task for "what do you see" where the
/// vision is used, a cooking task (with or without the vision) for a dish.
pub open spec fn task_for(vision: bool, content: IntentContentView) -> Option<TaskView> {
    match content.intent {
        IntentAction::WhatYouSee => if vision {
            Some(TaskView::Viewing(ViewingTaskView { steps: viewing_steps(), current: 0, previous: None }))
        } else {
            None
        },
        IntentAction::CookingTask => {
            let menu = content.entities[0]->Menu_0;
            Some(TaskView::Cooking(CookingTaskView {
                menu,
                steps: recipe_steps(menu, vision),
                current: 0,
                last_revision: None,
                previous: None,
                checkpoint: 0,
            }))
        },
        _ => None,
    }
}

/// What the context does with a request while no task runs: a task it starts is
/// started as if "next" were said; a request it does not know has the speaker say
/// so and go idle.
pub open spec fn start_task(c: ContextView, content: IntentContentView) -> (ContextView, Seq<OutputView>) {
    match task_for(c.vision, content) {
        Some(t) => {
            let (t2, r) = task_step(t, Some(start_content()), AdjustmentView::Unneeded);
            after_result(ContextView { task: Some(t2), ..c }, Seq::empty(), r->Ok_0)
        },
        None => if content.intent == IntentAction::WhatYouSee {
            (c, Seq::empty())
        } else {
            (c, seq![OutputView::SpeakBoilerplate(MachineSpeechBoilerplate::Undefined), OutputView::UpdateState(StateView::Idle)])
        },
    }
}

/// Whether recognised speech can be handled: a request to cook names a dish, and
/// content for a running task goes to it.
pub open spec fn intent_handleable(c: ContextView, result: ProcessResult, content: IntentContentView, adj: AdjustmentView) -> bool {
    result == ProcessResult::Success ==> match c.task {
        None => content.intent == IntentAction::CookingTask ==> content.entities.len() > 0 && content.entities[0] is Menu,
        Some(t) => task_proceeds(t, Some(ContentView::Intent(content)), adj),
    }
}

/// What the context does with recognised speech: it starts a task, or the running
/// task takes the speech; where recognition failed, the running task reports that
/// its step still waits, or, with no task, the speaker says it did not hear and
/// goes idle.
pub open spec fn intent_handled(c: ContextView, result: ProcessResult, content: IntentContentView, adj: AdjustmentView) -> (ContextView, Seq<OutputView>) {
    match result {
        ProcessResult::Success => match c.task {
            None => start_task(c, content),
            Some(t) => {
                let (t2, r) = task_step(t, Some(ContentView::Intent(content)), adj);
                after_result(ContextView { task: Some(t2), ..c }, Seq::empty(), r->Ok_0)
            },
        },
        ProcessResult::Failure => match c.task {
            None => (c, seq![OutputView::SpeakBoilerplate(MachineSpeechBoilerplate::IntentFailed), OutputView::UpdateState(StateView::Idle)]),
            Some(t) => after_result(c, Seq::empty(), task_failed(t)),
        },
    }
}

/// Whether something the vision found can go to the running task, if there is one.
pub open spec fn vision_handleable(c: ContextView, content: VisionContentView, adj: AdjustmentView) -> bool {
    c.task matches Some(t) ==> task_proceeds(t, Some(ContentView::Vision(content)), adj)
}

/// What the context does with something the vision found: the running task, if
/// any, takes it.
pub open spec fn vision_handled(c: ContextView, content: VisionContentView, adj: AdjustmentView) -> (ContextView, Seq<OutputView>) {
    match c.task {
        None => (c, Seq::empty()),
        Some(t) => {
            let (t2, r) = task_step(t, Some(ContentView::Vision(content)), adj);
            after_result(ContextView { task: Some(t2), ..c }, Seq::empty(), r->Ok_0)
        },
    }
}

/// What the context does when the vision failed: the speaker says it could not
/// see, and the running task, if any, reports that its step still waits.
pub open spec fn vision_failure_handled(c: ContextView) -> (ContextView, Seq<OutputView>) {
    let outs = seq![OutputView::SpeakBoilerplate(MachineSpeechBoilerplate::VisionFailed)];
    match c.task {
        None => (c, outs),
        Some(t) => after_result(c, outs, task_failed(t)),
    }
}

fn push_output(outs: &mut Vec<ContextOutput>, o: ContextOutput)
    ensures
        outputs_view(final(outs)@) == outputs_view(old(outs)@).push(o@),
{
    let ghost before = outs@;
    outs.push(o);
    assert(outputs_view(outs@) =~= outputs_view(before).push(o@));
}

impl ContextActorCore {
    pub fn new(vision: bool) -> (r: Self)
        ensures
            r@ == (ContextView { vision, task: None, next_state: None }),
    {
        ContextActorCore { vision, current_task: None, next_state: None }
    }

    /// Reports the pending state, if there is one.
    pub fn handle_next_state(&mut self, outs: &mut Vec<ContextOutput>)
        ensures
            (final(self)@, outputs_view(final(outs)@)) == flush(old(self)@, outputs_view(old(outs)@)),
            final(self).current_task == old(self).current_task,
    {
        let pending = self.next_state.take();
        match pending {
            Some(s) => push_output(outs, ContextOutput::UpdateState(s)),
            None => {},
        }
    }

    /// Handles a task's result.
    fn handle_task_result(&mut self, r: SmartSpeakerTaskResult, outs: &mut Vec<ContextOutput>)
        requires
            context_wf(old(self)@),
        ensures
            (final(self)@, outputs_view(final(outs)@)) == after_result(old(self)@, outputs_view(old(outs)@), r@),
            context_wf(final(self)@),
    {
        let SmartSpeakerTaskResult { task_type, code, tts, revision } = r;
        match code {
            SmartSpeakerTaskResultCode::Exit
            | SmartSpeakerTaskResultCode::TaskSuccess(WaitingInteraction::Exit)
            | SmartSpeakerTaskResultCode::TaskFailed(WaitingInteraction::Exit) => {
                self.current_task = None;
                self.next_state = Some(SmartSpeakerState::Idle);
            },
            SmartSpeakerTaskResultCode::TaskSuccess(w) => {
                self.next_state = Some(SmartSpeakerState::WaitingForInteraction(w));
            },
            SmartSpeakerTaskResultCode::TaskFailed(w) => {
                self.next_state = Some(SmartSpeakerState::WaitingForInteraction(w));
            },
            SmartSpeakerTaskResultCode::Cancelled => {
                self.current_task = None;
                push_output(outs, ContextOutput::SpeakBoilerplate(MachineSpeechBoilerplate::Aborted));
                self.next_state = Some(SmartSpeakerState::Idle);
            },
            _ => {},
        }
        match tts {
            Some(t) => push_output(outs, ContextOutput::Speak(t)),
            None => self.handle_next_state(outs),
        }
    }

    /// Whether recognised speech can be handled.
    pub fn can_handle_intent(&self, result: ProcessResult, content: &IntentContent, adj: &StepAdjustment) -> (r: bool)
        requires
            context_wf(self@),
        ensures
            r == intent_handleable(self@, result, content@, adj@),
    {
        if result != ProcessResult::Success {
            return true;
        }
        match &self.current_task {
            None => content.intent != IntentAction::CookingTask
                || (content.entities.len() > 0 && match content.entities[0] { IntentSlot::Menu(_) => true, _ => false }),
            Some(t) => t.proceeds(&Content::Intent(content.clone()), adj),
        }
    }

    /// Handles recognised speech, with `adj` computed for the running task's step.
    pub fn handle_intent(&mut self, result: ProcessResult, content: IntentContent, adj: &StepAdjustment) -> (outs: Vec<ContextOutput>)
        requires
            context_wf(old(self)@),
            intent_handleable(old(self)@, result, content@, adj@),
        ensures
            (final(self)@, outputs_view(outs@)) == intent_handled(old(self)@, result, content@, adj@),
            context_wf(final(self)@),
    {
        let mut outs: Vec<ContextOutput> = Vec::new();
        assert(outputs_view(outs@) =~= Seq::<OutputView>::empty());
        match result {
            ProcessResult::Success => {
                let running = self.current_task.take();
                match running {
                    None => {
                        self.start_new_task(content, &mut outs);
                    },
                    Some(mut task) => {
                        let r = task.try_next(Some(Content::Intent(content)), adj);
                        self.current_task = Some(task);
                        match r {
                            Ok(res) => self.handle_task_result(res, &mut outs),
                            Err(_) => {
                                proof { assert(false); }
                            },
                        }
                    },
                }
            },
            ProcessResult::Failure => {
                match &self.current_task {
                    None => {
                        push_output(&mut outs, ContextOutput::SpeakBoilerplate(MachineSpeechBoilerplate::IntentFailed));
                        push_output(&mut outs, ContextOutput::UpdateState(SmartSpeakerState::Idle));
                    },
                    Some(task) => {
                        let res = task.failed();
                        self.handle_task_result(res, &mut outs);
                    },
                }
            },
        }
        outs
    }

    /// Starts the task a request asks for, while no task runs.
    fn start_new_task(&mut self, content: IntentContent, outs: &mut Vec<ContextOutput>)
        requires
            old(self)@.task is None,
            outputs_view(old(outs)@) == Seq::<OutputView>::empty(),
            content@.intent == IntentAction::CookingTask ==> content@.entities.len() > 0 && content@.entities[0] is Menu,
        ensures
            (final(self)@, outputs_view(final(outs)@)) == start_task(old(self)@, content@),
            context_wf(final(self)@),
    {
        let task = match content.intent {
            IntentAction::WhatYouSee => {
                if self.vision {
                    match VisionViewingTask::new() {
                        Ok(t) => Some(SmartSpeakerTask::Viewing(t)),
                        Err(_) => None,
                    }
                } else {
                    None
                }
            },
            IntentAction::CookingTask => {
                match CookingTask::new(content, self.vision) {
                    Ok(t) => Some(SmartSpeakerTask::Cooking(t)),
                    Err(_) => {
                        proof { assert(false); }
                        None
                    },
                }
            },
            _ => {
                push_output(outs, ContextOutput::SpeakBoilerplate(MachineSpeechBoilerplate::Undefined));
                push_output(outs, ContextOutput::UpdateState(SmartSpeakerState::Idle));
                None
            },
        };
        match task {
            Some(mut t) => {
                proof { lemma_new_task_starts(self@.vision, t@); }
                let r = t.try_next(Some(Content::Intent(IntentContent::new(IntentAction::Next, Vec::new()))), &StepAdjustment::Unneeded);
                self.current_task = Some(t);
                match r {
                    Ok(res) => self.handle_task_result(res, outs),
                    Err(_) => {
                        proof { assert(false); }
                    },
                }
            },
            None => {},
        }
    }

    /// Whether something the vision found can be handled.
    pub fn can_handle_vision(&self, content: &VisionContent, adj: &StepAdjustment) -> (r: bool)
        requires
            context_wf(self@),
        ensures
            r == vision_handleable(self@, content@, adj@),
    {
        match &self.current_task {
            None => true,
            Some(t) => t.proceeds(&Content::Vision(content.clone()), adj),
        }
    }

    /// Handles something the vision found, with `adj` computed for the running
    /// task's step.
    pub fn handle_vision_content(&mut self, content: VisionContent, adj: &StepAdjustment) -> (outs: Vec<ContextOutput>)
        requires
            context_wf(old(self)@),
            vision_handleable(old(self)@, content@, adj@),
        ensures
            (final(self)@, outputs_view(outs@)) == vision_handled(old(self)@, content@, adj@),
            context_wf(final(self)@),
    {
        let mut outs: Vec<ContextOutput> = Vec::new();
        assert(outputs_view(outs@) =~= Seq::<OutputView>::empty());
        let running = self.current_task.take();
        match running {
            None => {},
            Some(mut task) => {
                let r = task.try_next(Some(Content::Vision(content)), adj);
                self.current_task = Some(task);
                match r {
                    Ok(res) => self.handle_task_result(res, &mut outs),
                    Err(_) => {
                        proof { assert(false); }
                    },
                }
            },
        }
        outs
    }

    /// Handles a failure of the vision.
    pub fn handle_vision_failure(&mut self) -> (outs: Vec<ContextOutput>)
        requires
            context_wf(old(self)@),
        ensures
            (final(self)@, outputs_view(outs@)) == vision_failure_handled(old(self)@),
            context_wf(final(self)@),
    {
        let mut outs: Vec<ContextOutput> = Vec::new();
        push_output(&mut outs, ContextOutput::SpeakBoilerplate(MachineSpeechBoilerplate::VisionFailed));
        assert(outputs_view(outs@) =~= seq![OutputView::SpeakBoilerplate(MachineSpeechBoilerplate::VisionFailed)]);
        match &self.current_task {
            None => {},
            Some(task) => {
                let res = task.failed();
                self.handle_task_result(res, &mut outs);
            },
        }
        outs
    }

    /// Handles the end of a text being said: the pending state is reported.
    pub fn handle_speech_finished(&mut self) -> (outs: Vec<ContextOutput>)
        ensures
            (final(self)@, outputs_view(outs@)) == flush(old(self)@, Seq::empty()),
    {
        let mut outs: Vec<ContextOutput> = Vec::new();
        assert(outputs_view(outs@) =~= Seq::<OutputView>::empty());
        self.handle_next_state(&mut outs);
        outs
    }

    /// What the running task's step needs computed before it runs on new content.
    pub fn adjustment_request(&self) -> (r: Option<AdjustmentRequest>)
        requires
            context_wf(self@),
        ensures
            request_opt_view(r) == match self@.task {
                Some(t) => task_request(t),
                None => None,
            },
    {
        match &self.current_task {
            Some(t) => t.adjustment_request(),
            None => None,
        }
    }
}

/// A task that a request starts is well formed, can take "next", and starts
/// without failing.
pub proof fn lemma_new_task_starts(vision: bool, t: TaskView)
    requires
        exists|c: IntentContentView| task_for(vision, c) == Some(t),
    ensures
        task_wf(t),
        task_can_take(t, Some(start_content())),
        task_step(t, Some(start_content()), AdjustmentView::Unneeded).1 is Ok,
{
    let c = choose|c: IntentContentView| task_for(vision, c) == Some(t);
    match t {
        TaskView::Cooking(v) => {
            crate::recipe::lemma_recipe_steps_unfed(v.menu, vision);
            crate::recipe::lemma_recipe_shape(v.menu, vision);
            assert(crate::cooking_task::step_unfed(v.steps[0]));
        },
        TaskView::Viewing(v) => {},
    }
}

/// Asking to cancel while cooking ends the task: the speaker says "aborted" and
/// that the cooking task was cancelled, and once that has been said it reports
/// that it is idle.
pub proof fn lemma_cancel_while_cooking(c: ContextView, entities: Seq<IntentSlot>, adj: AdjustmentView)
    requires
        context_wf(c),
        c.task matches Some(TaskView::Cooking(_)),
    ensures
        ({
            let content = IntentContentView { intent: IntentAction::Cancel, entities };
            let (c1, outs) = intent_handled(c, ProcessResult::Success, content, adj);
            &&& c1 == ContextView { task: None, next_state: Some(StateView::Idle), ..c }
            &&& outs == seq![
                OutputView::SpeakBoilerplate(MachineSpeechBoilerplate::Aborted),
                OutputView::Speak(crate::cooking_task::cooking_cancel_text()),
            ]
            &&& flush(c1, Seq::empty()) == (ContextView { task: None, next_state: None, ..c }, seq![OutputView::UpdateState(StateView::Idle)])
        }),
{
    let v = c.task->0->Cooking_0;
    crate::cooking_task::lemma_cancel_request_cancels(v, entities, adj);
}

} // verus!
