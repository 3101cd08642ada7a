use vstd::prelude::*;
use crate::cooking_step::{ExplainRecipeAction, ExplainView, VisionBasedIngredientMeasureAction, MeasureView, StepAdjustment,
    AdjustmentView, AdjustmentRequest, explain_result, explain_fed, measure_result, measure_fed, measure_ready,
    outcome_view, RequestView, request_opt_view, explain_request};
use crate::i18n::{SmartSpeakerI18nText, I18nView};
use crate::messages::{Content, ContentView};
use crate::revision::{CookingRevision, CookingRevisionEntity, revision_view};
use crate::step::{ActionTriggerType, TriggerView, StepError, GenericAction, GenericView, CountVisionObjectAction, CountView,
    generic_result, generic_fed, count_result, count_fed, nothing_seen_text, cancel_requested, repeat_requested,
    is_cancel_request, is_repeat_request};
use crate::task::{SmartSpeakerTaskResult, TaskResultView};
use crate::vision::VisionAction;

verus! {

/// One step of a task.
#[derive(Debug, PartialEq)]
pub enum StepAction {
    Generic(GenericAction),
    CountVision(CountVisionObjectAction),
    ExplainRecipe(ExplainRecipeAction),
    MeasureIngredient(VisionBasedIngredientMeasureAction),
}

/// One step of a task, as plain values.
pub enum StepView {
    Generic(GenericView),
    CountVision(CountView),
    ExplainRecipe(ExplainView),
    MeasureIngredient(MeasureView),
}

impl View for StepAction {
    type V = StepView;

    open spec fn view(&self) -> StepView {
        match self {
            StepAction::Generic(a) => StepView::Generic(a@),
            StepAction::CountVision(a) => StepView::CountVision(a@),
            StepAction::ExplainRecipe(a) => StepView::ExplainRecipe(a@),
            StepAction::MeasureIngredient(a) => StepView::MeasureIngredient(a@),
        }
    }
}

/// What a step waits for: nothing for a fixed text, a confirmation for a recipe
/// explanation, and its vision request for a vision step.
pub open spec fn step_trigger(s: StepView) -> TriggerView {
    match s {
        StepView::Generic(_) => TriggerView::Nothing,
        StepView::CountVision(a) => TriggerView::Vision(seq![a.vision_action]),
        StepView::ExplainRecipe(_) => TriggerView::Confirm,
        StepView::MeasureIngredient(a) => TriggerView::Vision(seq![a.vision_action]),
    }
}

/// What a step gives, with `adj` computed for its newest change.
pub open spec fn step_result(s: StepView, adj: AdjustmentView) -> Result<TaskResultView, StepError> {
    match s {
        StepView::Generic(a) => Ok(generic_result(a)),
        StepView::CountVision(a) => Ok(count_result(a)),
        StepView::ExplainRecipe(a) => explain_result(a, adj),
        StepView::MeasureIngredient(a) => measure_result(a),
    }
}

/// Whether a step can run (a measuring step only where it can weigh what it saw).
pub open spec fn step_ready(s: StepView) -> bool {
    match s {
        StepView::MeasureIngredient(a) => measure_ready(a),
        _ => true,
    }
}

/// A step after it took in `content` and `revision`.
pub open spec fn step_fed(s: StepView, content: ContentView, revision: Option<Seq<CookingRevisionEntity>>) -> StepView {
    match s {
        StepView::Generic(a) => StepView::Generic(generic_fed(a, content)),
        StepView::CountVision(a) => StepView::CountVision(count_fed(a, content)),
        StepView::ExplainRecipe(a) => StepView::ExplainRecipe(explain_fed(a, content, revision)),
        StepView::MeasureIngredient(a) => StepView::MeasureIngredient(measure_fed(a, content, revision)),
    }
}

/// Whether a step was asked to cancel.
pub open spec fn step_cancelled(s: StepView) -> bool {
    match s {
        StepView::Generic(a) => a.cancelled,
        StepView::CountVision(a) => a.cancelled,
        StepView::ExplainRecipe(a) => a.cancelled,
        StepView::MeasureIngredient(a) => a.cancelled,
    }
}

/// Whether a step was asked to repeat.
pub open spec fn step_repeated(s: StepView) -> bool {
    match s {
        StepView::Generic(a) => a.repeat_requested,
        StepView::CountVision(a) => a.repeat_requested,
        StepView::ExplainRecipe(a) => a.repeat_requested,
        StepView::MeasureIngredient(a) => a.repeat_requested,
    }
}

/// The step with its cancel mark set.
pub open spec fn with_cancelled(s: StepView) -> StepView {
    match s {
        StepView::Generic(a) => StepView::Generic(GenericView { cancelled: true, ..a }),
        StepView::CountVision(a) => StepView::CountVision(CountView { cancelled: true, ..a }),
        StepView::ExplainRecipe(a) => StepView::ExplainRecipe(ExplainView { cancelled: true, ..a }),
        StepView::MeasureIngredient(a) => StepView::MeasureIngredient(MeasureView { cancelled: true, ..a }),
    }
}

/// The step with its repeat mark set.
pub open spec fn with_repeated(s: StepView) -> StepView {
    match s {
        StepView::Generic(a) => StepView::Generic(GenericView { repeat_requested: true, ..a }),
        StepView::CountVision(a) => StepView::CountVision(CountView { repeat_requested: true, ..a }),
        StepView::ExplainRecipe(a) => StepView::ExplainRecipe(ExplainView { repeat_requested: true, ..a }),
        StepView::MeasureIngredient(a) => StepView::MeasureIngredient(MeasureView { repeat_requested: true, ..a }),
    }
}

/// The text a step says as it is (what a counting step says when it sees nothing).
pub open spec fn step_tts(s: StepView) -> I18nView {
    match s {
        StepView::Generic(a) => a.tts,
        StepView::CountVision(_) => nothing_seen_text(),
        StepView::ExplainRecipe(a) => a.tts,
        StepView::MeasureIngredient(a) => a.tts,
    }
}

/// What a step asks the vision for, or that it asks for nothing.
pub open spec fn step_vision_actions(s: StepView) -> Result<Seq<VisionAction>, StepError> {
    match s {
        StepView::CountVision(a) => Ok(seq![a.vision_action]),
        StepView::MeasureIngredient(a) => Ok(seq![a.vision_action]),
        _ => Err(StepError::NotVisionAction),
    }
}

/// What a step asks to have computed from the revision `rev` (its own where
/// `None`) before it runs: only a recipe-explaining step asks anything.
pub open spec fn step_request(s: StepView, rev: Option<Seq<CookingRevisionEntity>>) -> Option<RequestView> {
    match s {
        StepView::ExplainRecipe(a) => explain_request(a.detail, match rev { Some(r) => Some(r), None => a.revision }),
        _ => None,
    }
}

impl StepAction {
    /// The step's result, with `adj` computed for its newest change.
    pub fn execute(&self, adj: &StepAdjustment) -> (r: Result<SmartSpeakerTaskResult, StepError>)
        requires
            step_ready(self@),
        ensures
            outcome_view(r) == step_result(self@, adj@),
    {
        match self {
            StepAction::Generic(a) => Ok(a.execute()),
            StepAction::CountVision(a) => Ok(a.execute()),
            StepAction::ExplainRecipe(a) => a.execute(adj),
            StepAction::MeasureIngredient(a) => a.execute(),
        }
    }

    /// Takes in what was heard or seen and the changes measured so far.
    pub fn feed(&mut self, content: Content, revision: Option<CookingRevision>)
        ensures
            final(self)@ == step_fed(old(self)@, content@, revision_view(revision)),
    {
        match self {
            StepAction::Generic(a) => a.feed(content, revision),
            StepAction::CountVision(a) => a.feed(content, revision),
            StepAction::ExplainRecipe(a) => a.feed(content, revision),
            StepAction::MeasureIngredient(a) => a.feed(content, revision),
        }
    }

    /// Whether the step can run.
    pub fn is_ready(&self) -> (r: bool)
        ensures
            r == step_ready(self@),
    {
        match self {
            StepAction::MeasureIngredient(a) => {
                if a.cancelled || a.repeat_requested {
                    return true;
                }
                match &a.current_content {
                    Some(c) => match c.action {
                        VisionAction::ObjectDetection(_) => a.can_measure(&c.entities),
                        _ => true,
                    },
                    None => true,
                }
            },
            _ => true,
        }
    }

    /// What the step waits for.
    pub fn get_action_trigger_type(&self) -> (r: ActionTriggerType)
        ensures
            r@ == step_trigger(self@),
    {
        match self {
            StepAction::Generic(_) => ActionTriggerType::Nothing,
            StepAction::CountVision(a) => {
                let mut v: Vec<VisionAction> = Vec::new();
                v.push(a.vision_action);
                assert(v@ =~= seq![a.vision_action]);
                ActionTriggerType::Vision(v)
            },
            StepAction::ExplainRecipe(_) => ActionTriggerType::Confirm,
            StepAction::MeasureIngredient(a) => {
                let mut v: Vec<VisionAction> = Vec::new();
                v.push(a.vision_action);
                assert(v@ =~= seq![a.vision_action]);
                ActionTriggerType::Vision(v)
            },
        }
    }

    pub fn get_cancelled(&self) -> (r: bool)
        ensures
            r == step_cancelled(self@),
    {
        match self {
            StepAction::Generic(a) => a.cancelled,
            StepAction::CountVision(a) => a.cancelled,
            StepAction::ExplainRecipe(a) => a.cancelled,
            StepAction::MeasureIngredient(a) => a.cancelled,
        }
    }

    /// Whether the step was asked to cancel.
    pub fn has_cancelled(&self) -> (r: bool)
        ensures
            r == step_cancelled(self@),
    {
        self.get_cancelled()
    }

    /// Marks the step cancelled.
    pub fn set_cancelled(&mut self)
        ensures
            final(self)@ == with_cancelled(old(self)@),
    {
        match self {
            StepAction::Generic(a) => a.cancelled = true,
            StepAction::CountVision(a) => a.cancelled = true,
            StepAction::ExplainRecipe(a) => a.cancelled = true,
            StepAction::MeasureIngredient(a) => a.cancelled = true,
        }
    }

    /// Marks the step cancelled where `content` asks to cancel.
    pub fn check_cancelled(&mut self, content: &Content)
        ensures
            final(self)@ == (if is_cancel_request(*content) { with_cancelled(old(self)@) } else { old(self)@ }),
    {
        if cancel_requested(content) {
            self.set_cancelled();
        }
    }

    pub fn get_repeated(&self) -> (r: bool)
        ensures
            r == step_repeated(self@),
    {
        match self {
            StepAction::Generic(a) => a.repeat_requested,
            StepAction::CountVision(a) => a.repeat_requested,
            StepAction::ExplainRecipe(a) => a.repeat_requested,
            StepAction::MeasureIngredient(a) => a.repeat_requested,
        }
    }

    /// Whether the step was asked to repeat.
    pub fn has_request_repeat(&self) -> (r: bool)
        ensures
            r == step_repeated(self@),
    {
        self.get_repeated()
    }

    /// Marks the step as asked to repeat.
    pub fn set_repeated(&mut self)
        ensures
            final(self)@ == with_repeated(old(self)@),
    {
        match self {
            StepAction::Generic(a) => a.repeat_requested = true,
            StepAction::CountVision(a) => a.repeat_requested = true,
            StepAction::ExplainRecipe(a) => a.repeat_requested = true,
            StepAction::MeasureIngredient(a) => a.repeat_requested = true,
        }
    }

    /// Marks the step as asked to repeat where `content` asks to repeat.
    pub fn check_request_repeat(&mut self, content: &Content)
        ensures
            final(self)@ == (if is_repeat_request(*content) { with_repeated(old(self)@) } else { old(self)@ }),
    {
        if repeat_requested(content) {
            self.set_repeated();
        }
    }

    /// The text the step says as it is.
    pub fn expose_tts_script(&self) -> (r: SmartSpeakerI18nText)
        ensures
            r@ == step_tts(self@),
    {
        match self {
            StepAction::Generic(a) => a.tts_script.clone(),
            StepAction::CountVision(a) => a.expose_tts_script(),
            StepAction::ExplainRecipe(a) => a.tts_script.clone(),
            StepAction::MeasureIngredient(a) => a.tts_script.clone(),
        }
    }

    /// What the step asks the vision for.
    pub fn try_expose_vision_actions(&self) -> (r: Result<Vec<VisionAction>, StepError>)
        ensures
            match (r, step_vision_actions(self@)) {
                (Ok(v), Ok(w)) => v@ == w,
                (Err(e), Err(f)) => e == f,
                _ => false,
            },
    {
        match self {
            StepAction::CountVision(a) => {
                let mut v: Vec<VisionAction> = Vec::new();
                v.push(a.vision_action);
                assert(v@ =~= seq![a.vision_action]);
                Ok(v)
            },
            StepAction::MeasureIngredient(a) => {
                let mut v: Vec<VisionAction> = Vec::new();
                v.push(a.vision_action);
                assert(v@ =~= seq![a.vision_action]);
                Ok(v)
            },
            _ => Err(StepError::NotVisionAction),
        }
    }

    /// What the step needs computed before it runs with the revision `revision`
    /// (its own where `None`).
    pub fn adjustment_request(&self, revision: &Option<CookingRevision>) -> (r: Option<AdjustmentRequest>)
        ensures
            request_opt_view(r) == step_request(self@, revision_view(*revision)),
    {
        match self {
            StepAction::ExplainRecipe(a) => a.adjustment_request(revision),
            _ => None,
        }
    }
}

impl Clone for StepAction {
    fn clone(&self) -> (r: Self)
        ensures
            r@ == self@,
    {
        match self {
            StepAction::Generic(a) => StepAction::Generic(a.clone()),
            StepAction::CountVision(a) => StepAction::CountVision(a.clone()),
            StepAction::ExplainRecipe(a) => StepAction::ExplainRecipe(a.clone()),
            StepAction::MeasureIngredient(a) => StepAction::MeasureIngredient(a.clone()),
        }
    }
}

} // verus!
