use vstd::prelude::*;
use crate::config::LanguageTag;
use crate::cooking::{CookingIngredient, CookingIngredientAmount, CookingIngredientLinkComponent, CookingIngredientName,
    CookingIngredientTime, amount_number};
use crate::i18n::{SmartSpeakerI18nText, I18nView, i18n};
use crate::intent::IntentAction;
use crate::messages::{Content, ContentView, IntentContent, IntentContentView, VisionContent, VisionContentView, copy_vec};
use crate::recipe_step::{render_with, ingredients_data, amounts_data, time_data, measure_data, first_with_name,
    find_ingredient, render_ingredients, render_amounts, render_time, render_measure};
use crate::revision::{CookingRevision, CookingRevisionEntity, CookingRevisionEntityProperty, revision_view};
use crate::step::{StepError, cancel_requested, repeat_requested, intent_opt_view, vision_opt_view, copy_intent_opt,
    copy_vision_opt, copy_revision_opt};
use crate::task::{SmartSpeakerTaskResult, SmartSpeakerTaskResultCode, SmartSpeakerTaskType, CodeView, TaskResultView,
    result_view, tts_view};
use crate::vision::{DetectableObject, VisionAction, VisionObject};

verus! {

/// What a recipe step explains or measures.
#[derive(Debug, PartialEq)]
pub enum CookingActionDetail {
    Nothing,
    ExplainNonMutableIngredient,
    ExplainMutableIngredient(CookingIngredientLinkComponent),
    ExplainMutableTime(CookingIngredientTime),
    MeasureIngredientSize,
    MeasureCutIngredient,
}

/// What a recipe step explains or measures, as plain values.
pub enum DetailView {
    Nothing,
    ExplainNonMutableIngredient,
    ExplainMutableIngredient(CookingIngredient, Seq<CookingIngredient>),
    ExplainMutableTime(CookingIngredientTime),
    MeasureIngredientSize,
    MeasureCutIngredient,
}

impl View for CookingActionDetail {
    type V = DetailView;

    open spec fn view(&self) -> DetailView {
        match self {
            CookingActionDetail::Nothing => DetailView::Nothing,
            CookingActionDetail::ExplainNonMutableIngredient => DetailView::ExplainNonMutableIngredient,
            CookingActionDetail::ExplainMutableIngredient(l) => DetailView::ExplainMutableIngredient(l.main, l.components@),
            CookingActionDetail::ExplainMutableTime(t) => DetailView::ExplainMutableTime(*t),
            CookingActionDetail::MeasureIngredientSize => DetailView::MeasureIngredientSize,
            CookingActionDetail::MeasureCutIngredient => DetailView::MeasureCutIngredient,
        }
    }
}

impl Clone for CookingActionDetail {
    fn clone(&self) -> (r: Self)
        ensures
            r@ == self@,
    {
        match self {
            CookingActionDetail::Nothing => CookingActionDetail::Nothing,
            CookingActionDetail::ExplainNonMutableIngredient => CookingActionDetail::ExplainNonMutableIngredient,
            CookingActionDetail::ExplainMutableIngredient(l) => CookingActionDetail::ExplainMutableIngredient(l.clone()),
            CookingActionDetail::ExplainMutableTime(t) => CookingActionDetail::ExplainMutableTime(*t),
            CookingActionDetail::MeasureIngredientSize => CookingActionDetail::MeasureIngredientSize,
            CookingActionDetail::MeasureCutIngredient => CookingActionDetail::MeasureCutIngredient,
        }
    }
}

/// What a step whose amounts follow a measured ingredient needs computed from the
/// newest change that measuring found: the seasonings scaled to the new amount of
/// the main ingredient, or the cooking time for the new amount.
#[derive(Debug, PartialEq)]
pub enum AdjustmentRequest {
    Components(CookingIngredientLinkComponent, CookingRevisionEntity),
    Time(CookingIngredientTime, CookingRevisionEntity),
}

/// An `AdjustmentRequest` as plain values: the main ingredient and the seasonings
/// that follow it, or the cooking time; and the newest change.
pub enum RequestView {
    Components(CookingIngredient, Seq<CookingIngredient>, CookingRevisionEntity),
    Time(CookingIngredientTime, CookingRevisionEntity),
}

impl View for AdjustmentRequest {
    type V = RequestView;

    open spec fn view(&self) -> RequestView {
        match self {
            AdjustmentRequest::Components(link, e) => RequestView::Components(link.main, link.components@, *e),
            AdjustmentRequest::Time(t, e) => RequestView::Time(*t, *e),
        }
    }
}

/// The view of an optional request.
pub open spec fn request_opt_view(r: Option<AdjustmentRequest>) -> Option<RequestView> {
    match r {
        Some(x) => Some(x@),
        None => None,
    }
}

/// What was computed for an `AdjustmentRequest`, handed to the step that asked.
#[derive(Debug, PartialEq)]
pub enum StepAdjustment {
    Unneeded,
    Components(Vec<CookingIngredient>),
    Time(Option<CookingIngredientTime>),
}

/// A `StepAdjustment` as plain values.
pub enum AdjustmentView {
    Unneeded,
    Components(Seq<CookingIngredient>),
    Time(Option<CookingIngredientTime>),
}

impl View for StepAdjustment {
    type V = AdjustmentView;

    open spec fn view(&self) -> AdjustmentView {
        match self {
            StepAdjustment::Unneeded => AdjustmentView::Unneeded,
            StepAdjustment::Components(c) => AdjustmentView::Components(c@),
            StepAdjustment::Time(t) => AdjustmentView::Time(*t),
        }
    }
}

/// The scaled seasonings an adjustment carries (none where it carries none).
pub open spec fn adjusted_components(adj: AdjustmentView) -> Seq<CookingIngredient> {
    match adj {
        AdjustmentView::Components(c) => c,
        _ => Seq::empty(),
    }
}

/// The cooking time an adjustment carries, if any.
pub open spec fn adjusted_time(adj: AdjustmentView) -> Option<CookingIngredientTime> {
    match adj {
        AdjustmentView::Time(t) => t,
        _ => None,
    }
}

/// The changes without the newest one (no change where there is none).
pub open spec fn without_newest(rev: Seq<CookingRevisionEntity>) -> Seq<CookingRevisionEntity> {
    if rev.len() > 0 { rev.drop_last() } else { rev }
}

/// The view of a step's outcome.
pub open spec fn outcome_view(r: Result<SmartSpeakerTaskResult, StepError>) -> Result<TaskResultView, StepError> {
    match r {
        Ok(x) => Ok(x@),
        Err(e) => Err(e),
    }
}

/// A successful step that says the rendered text, or a failure where rendering failed.
pub open spec fn rendered_success(task_type: SmartSpeakerTaskType, text: Option<I18nView>, revision: Option<Seq<CookingRevisionEntity>>) -> Result<TaskResultView, StepError> {
    match text {
        Some(t) => Ok(result_view(task_type, CodeView::StepSuccess, Some(t), revision)),
        None => Err(StepError::RenderFailed),
    }
}

/// What a step gives once its text was rendered: a success that says the text and
/// carries `revision`, or a failure where rendering failed.
pub fn rendered_result(task_type: SmartSpeakerTaskType, rendered: Option<SmartSpeakerI18nText>, revision: Option<CookingRevision>) -> (r: Result<SmartSpeakerTaskResult, StepError>)
    ensures
        outcome_view(r) == rendered_success(task_type, tts_view(rendered), revision_view(revision)),
{
    match rendered {
        Some(t) => match revision {
            Some(rev) => Ok(SmartSpeakerTaskResult::with_tts_and_revision(task_type, SmartSpeakerTaskResultCode::StepSuccess, t, rev)),
            None => Ok(SmartSpeakerTaskResult::with_tts(task_type, SmartSpeakerTaskResultCode::StepSuccess, t)),
        },
        None => Err(StepError::RenderFailed),
    }
}

/// A step that explains part of a recipe.
#[derive(Debug, PartialEq)]
pub struct ExplainRecipeAction {
    pub ingredients: Vec<CookingIngredient>,
    pub detail: CookingActionDetail,
    pub tts_script: SmartSpeakerI18nText,
    pub current_content: Option<IntentContent>,
    pub current_revision: Option<CookingRevision>,
    pub cancelled: bool,
    pub repeat_requested: bool,
}

/// A recipe-explaining step as plain values.
pub struct ExplainView {
    pub ingredients: Seq<CookingIngredient>,
    pub detail: DetailView,
    pub tts: I18nView,
    pub content: Option<IntentContentView>,
    pub revision: Option<Seq<CookingRevisionEntity>>,
    pub cancelled: bool,
    pub repeat_requested: bool,
}

impl View for ExplainRecipeAction {
    type V = ExplainView;

    open spec fn view(&self) -> ExplainView {
        ExplainView {
            ingredients: self.ingredients@,
            detail: self.detail@,
            tts: self.tts_script@,
            content: intent_opt_view(self.current_content),
            revision: revision_view(self.current_revision),
            cancelled: self.cancelled,
            repeat_requested: self.repeat_requested,
        }
    }
}

/// What a recipe-explaining step gives, with `adj` computed for its newest change.
/// Cancelled or repeated where asked; a failure with the template where nothing
/// was heard; else the template rendered with what the step explains:
/// the ingredients listed; the seasonings' amounts, scaled by the newest change
/// where there is one (a failure where no scaled seasonings came, and the change
/// is then used up); the cooking time, recomputed by the newest change where
/// one was computed. Other steps say their template as it is.
pub open spec fn explain_result(a: ExplainView, adj: AdjustmentView) -> Result<TaskResultView, StepError> {
    let tt = SmartSpeakerTaskType::NonVision;
    if a.cancelled {
        Ok(result_view(tt, CodeView::Cancelled, None, None))
    } else if a.repeat_requested {
        Ok(result_view(tt, CodeView::RepeatPrevious, None, None))
    } else if a.content is None {
        Ok(result_view(tt, CodeView::StepFailed, Some(a.tts), a.revision))
    } else {
        match a.detail {
            DetailView::ExplainNonMutableIngredient =>
                rendered_success(tt, render_with(a.tts, |l: LanguageTag| ingredients_data(a.ingredients, l)), a.revision),
            DetailView::ExplainMutableIngredient(_, _) => match a.revision {
                None => rendered_success(tt, render_with(a.tts, |l: LanguageTag| amounts_data(a.ingredients, l)), None),
                Some(rev) => {
                    let updated = if rev.len() > 0 { adjusted_components(adj) } else { Seq::empty() };
                    if updated.len() == 0 {
                        Ok(result_view(tt, CodeView::StepFailed, Some(a.tts), Some(rev)))
                    } else {
                        rendered_success(tt, render_with(a.tts, |l: LanguageTag| amounts_data(updated, l)), Some(rev.drop_last()))
                    }
                },
            },
            DetailView::ExplainMutableTime(criteria) => match a.revision {
                None => rendered_success(tt, render_with(a.tts, |l: LanguageTag| time_data(criteria.time, l)), None),
                Some(rev) => match adjusted_time(adj) {
                    Some(t) if rev.len() > 0 =>
                        rendered_success(tt, render_with(a.tts, |l: LanguageTag| time_data(t.time, l)), Some(rev.drop_last())),
                    _ => Ok(result_view(tt, CodeView::StepSuccess, Some(a.tts), Some(without_newest(rev)))),
                },
            },
            _ => Ok(result_view(tt, CodeView::StepSuccess, Some(a.tts), a.revision)),
        }
    }
}

/// A recipe-explaining step after it took in `content` and `revision`: requests
/// to cancel or repeat mark it, spoken content is kept, and a revision replaces
/// the one it had.
pub open spec fn explain_fed(a: ExplainView, content: ContentView, revision: Option<Seq<CookingRevisionEntity>>) -> ExplainView {
    ExplainView {
        cancelled: a.cancelled || (content matches ContentView::Intent(i) && i.intent == IntentAction::Cancel),
        repeat_requested: a.repeat_requested || (content matches ContentView::Intent(i) && i.intent == IntentAction::Repeat),
        content: match content {
            ContentView::Intent(i) => Some(i),
            _ => a.content,
        },
        revision: match revision {
            Some(r) => Some(r),
            None => a.revision,
        },
        ..a
    }
}

/// What a step with this detail needs computed from the revision `rev`, if anything.
pub open spec fn adjustment_needed(detail: DetailView, rev: Option<Seq<CookingRevisionEntity>>) -> bool {
    match rev {
        Some(r) => r.len() > 0 && (detail is ExplainMutableIngredient || detail is ExplainMutableTime),
        None => false,
    }
}

/// What a step with this detail asks to have computed from the changes `rev`: its
/// seasonings or its cooking time, with the newest change; nothing where no change
/// was measured or the step explains neither.
pub open spec fn explain_request(detail: DetailView, rev: Option<Seq<CookingRevisionEntity>>) -> Option<RequestView> {
    if adjustment_needed(detail, rev) {
        match detail {
            DetailView::ExplainMutableIngredient(main, components) => Some(RequestView::Components(main, components, rev->0.last())),
            DetailView::ExplainMutableTime(t) => Some(RequestView::Time(t, rev->0.last())),
            _ => None,
        }
    } else {
        None
    }
}

impl ExplainRecipeAction {
    pub fn new(ingredients: Vec<CookingIngredient>, detail: CookingActionDetail, text: SmartSpeakerI18nText) -> (r: Self)
        ensures
            r@ == (ExplainView {
                ingredients: ingredients@,
                detail: detail@,
                tts: text@,
                content: None,
                revision: None,
                cancelled: false,
                repeat_requested: false,
            }),
    {
        ExplainRecipeAction {
            ingredients,
            detail,
            tts_script: text,
            current_content: None,
            current_revision: None,
            cancelled: false,
            repeat_requested: false,
        }
    }

    /// The step's result, with `adj` computed for its newest change.
    pub fn execute(&self, adj: &StepAdjustment) -> (r: Result<SmartSpeakerTaskResult, StepError>)
        ensures
            outcome_view(r) == explain_result(self@, adj@),
    {
        let tt = SmartSpeakerTaskType::NonVision;
        if self.cancelled {
            return Ok(SmartSpeakerTaskResult::new(tt, SmartSpeakerTaskResultCode::Cancelled));
        }
        if self.repeat_requested {
            return Ok(SmartSpeakerTaskResult::new(tt, SmartSpeakerTaskResultCode::RepeatPrevious));
        }
        if self.current_content.is_none() {
            return Ok(self.with_current_revision(SmartSpeakerTaskResultCode::StepFailed, self.tts_script.clone()));
        }
        match &self.detail {
            CookingActionDetail::ExplainNonMutableIngredient => {
                rendered_result(tt, render_ingredients(&self.tts_script, &self.ingredients), copy_revision_opt(&self.current_revision))
            },
            CookingActionDetail::ExplainMutableIngredient(_) => {
                match &self.current_revision {
                    None => rendered_result(tt, render_amounts(&self.tts_script, &self.ingredients), None),
                    Some(rev) => {
                        let n = rev.entities.len();
                        let updated: Vec<CookingIngredient> = if n > 0 {
                            match adj {
                                StepAdjustment::Components(c) => copy_vec(c),
                                _ => Vec::new(),
                            }
                        } else {
                            Vec::new()
                        };
                        if updated.len() == 0 {
                            Ok(SmartSpeakerTaskResult::with_tts_and_revision(
                                tt, SmartSpeakerTaskResultCode::StepFailed, self.tts_script.clone(), rev.clone()))
                        } else {
                            rendered_result(tt, render_amounts(&self.tts_script, &updated), Some(drop_newest(rev)))
                        }
                    },
                }
            },
            CookingActionDetail::ExplainMutableTime(criteria) => {
                match &self.current_revision {
                    None => rendered_result(tt, render_time(&self.tts_script, criteria), None),
                    Some(rev) => {
                        let n = rev.entities.len();
                        let time: Option<CookingIngredientTime> = match adj {
                            StepAdjustment::Time(t) => *t,
                            _ => None,
                        };
                        match time {
                            Some(t) if n > 0 => rendered_result(tt, render_time(&self.tts_script, &t), Some(drop_newest(rev))),
                            _ => Ok(SmartSpeakerTaskResult::with_tts_and_revision(
                                tt, SmartSpeakerTaskResultCode::StepSuccess, self.tts_script.clone(), drop_newest(rev))),
                        }
                    },
                }
            },
            _ => Ok(self.with_current_revision(SmartSpeakerTaskResultCode::StepSuccess, self.tts_script.clone())),
        }
    }

    /// A result that says `text` and carries the step's revision, if it has one.
    fn with_current_revision(&self, code: SmartSpeakerTaskResultCode, text: SmartSpeakerI18nText) -> (r: SmartSpeakerTaskResult)
        ensures
            r@ == result_view(SmartSpeakerTaskType::NonVision, code@, Some(text@), revision_view(self.current_revision)),
    {
        match &self.current_revision {
            Some(rev) => SmartSpeakerTaskResult::with_tts_and_revision(SmartSpeakerTaskType::NonVision, code, text, rev.clone()),
            None => SmartSpeakerTaskResult::with_tts(SmartSpeakerTaskType::NonVision, code, text),
        }
    }

    /// Takes in what was heard and the changes measured so far.
    pub fn feed(&mut self, content: Content, revision: Option<CookingRevision>)
        ensures
            final(self)@ == explain_fed(old(self)@, content@, revision_view(revision)),
    {
        if cancel_requested(&content) {
            self.cancelled = true;
        }
        if repeat_requested(&content) {
            self.repeat_requested = true;
        }
        match content {
            Content::Intent(intent) => {
                self.current_content = Some(intent);
            },
            _ => {},
        }
        match revision {
            Some(r) => {
                self.current_revision = Some(r);
            },
            None => {},
        }
    }

    /// What the step needs computed before it runs with the revision `revision`
    /// (its own where `None`): its link or time criteria, with the newest change.
    pub fn adjustment_request(&self, revision: &Option<CookingRevision>) -> (r: Option<AdjustmentRequest>)
        ensures
            request_opt_view(r) == explain_request(self.detail@,
                match revision { Some(x) => Some(x@), None => revision_view(self.current_revision) }),
    {
        let rev: &CookingRevision = match revision {
            Some(x) => x,
            None => match &self.current_revision {
                Some(x) => x,
                None => {
                    return None;
                },
            },
        };
        let n = rev.entities.len();
        if n == 0 {
            return None;
        }
        let newest = rev.entities[n - 1];
        match &self.detail {
            CookingActionDetail::ExplainMutableIngredient(link) => Some(AdjustmentRequest::Components(link.clone(), newest)),
            CookingActionDetail::ExplainMutableTime(t) => Some(AdjustmentRequest::Time(*t, newest)),
            _ => None,
        }
    }
}

/// The revision without its newest change.
fn drop_newest(rev: &CookingRevision) -> (r: CookingRevision)
    ensures
        r@ == without_newest(rev@),
{
    let mut entities = copy_vec(&rev.entities);
    if entities.len() > 0 {
        entities.pop();
    }
    CookingRevision::new(entities)
}

impl Clone for ExplainRecipeAction {
    fn clone(&self) -> (r: Self)
        ensures
            r@ == self@,
    {
        ExplainRecipeAction {
            ingredients: copy_vec(&self.ingredients),
            detail: self.detail.clone(),
            tts_script: self.tts_script.clone(),
            current_content: copy_intent_opt(&self.current_content),
            current_revision: copy_revision_opt(&self.current_revision),
            cancelled: self.cancelled,
            repeat_requested: self.repeat_requested,
        }
    }
}

/// What is said when the ingredient seems to be more than the recipe needs.
pub open spec fn more_text() -> I18nView {
    i18n(
        "It seems to be more than the amount required by the recipe."@,
        "レシピで必要な量よりも多いようです。"@,
        "看起来比食谱所需的量多。"@,
        "레시피에서 요구하는 양보다 더 많은 것 같네요."@,
    )
}

/// What is said when the ingredient seems to be less than the recipe needs.
pub open spec fn less_text() -> I18nView {
    i18n(
        "It seems to be less than the amount required by the recipe."@,
        "レシピで必要な量よりも少ないようです。"@,
        "看起来比食谱所需的量少。"@,
        "레시피에서 요구하는 양보다 더 적은 것 같네요."@,
    )
}

/// What is said when the ingredient seems to be about what the recipe needs.
pub open spec fn similar_text() -> I18nView {
    i18n(
        "It seems to be similar to the amount required by the recipe."@,
        "レシピで必要な量と似ているようです。"@,
        "看起来与食谱所需的量相似。"@,
        "레시피에서 요구하는 양과 비슷한 것 같네요."@,
    )
}

fn more_phrase() -> (r: SmartSpeakerI18nText)
    ensures
        r@ == more_text(),
{
    SmartSpeakerI18nText::new()
        .en("It seems to be more than the amount required by the recipe.")
        .ja("レシピで必要な量よりも多いようです。")
        .zh("看起来比食谱所需的量多。")
        .ko("레시피에서 요구하는 양보다 더 많은 것 같네요.")
}

fn less_phrase() -> (r: SmartSpeakerI18nText)
    ensures
        r@ == less_text(),
{
    SmartSpeakerI18nText::new()
        .en("It seems to be less than the amount required by the recipe.")
        .ja("レシピで必要な量よりも少ないようです。")
        .zh("看起来比食谱所需的量少。")
        .ko("레시피에서 요구하는 양보다 더 적은 것 같네요.")
}

fn similar_phrase() -> (r: SmartSpeakerI18nText)
    ensures
        r@ == similar_text(),
{
    SmartSpeakerI18nText::new()
        .en("It seems to be similar to the amount required by the recipe.")
        .ja("レシピで必要な量と似ているようです。")
        .zh("看起来与食谱所需的量相似。")
        .ko("레시피에서 요구하는 양과 비슷한 것 같네요.")
}

/// The ingredient a detected object is weighed as, if it is one.
pub open spec fn measured_name(o: DetectableObject) -> Option<CookingIngredientName> {
    match o {
        DetectableObject::Carrot => Some(CookingIngredientName::Carrot),
        DetectableObject::Potato => Some(CookingIngredientName::Potato),
        _ => None,
    }
}

fn measured_name_exec(o: DetectableObject) -> (r: Option<CookingIngredientName>)
    ensures
        r == measured_name(o),
{
    match o {
        DetectableObject::Carrot => Some(CookingIngredientName::Carrot),
        DetectableObject::Potato => Some(CookingIngredientName::Potato),
        _ => None,
    }
}

/// A step that weighs an ingredient the vision sees against the recipe.
#[derive(Debug, PartialEq)]
pub struct VisionBasedIngredientMeasureAction {
    pub ingredients: Vec<CookingIngredient>,
    pub detail: CookingActionDetail,
    pub vision_action: VisionAction,
    pub tts_script: SmartSpeakerI18nText,
    pub current_content: Option<VisionContent>,
    pub current_revision: Option<CookingRevision>,
    pub cancelled: bool,
    pub repeat_requested: bool,
}

/// A measuring step as plain values.
pub struct MeasureView {
    pub ingredients: Seq<CookingIngredient>,
    pub detail: DetailView,
    pub vision_action: VisionAction,
    pub tts: I18nView,
    pub content: Option<VisionContentView>,
    pub revision: Option<Seq<CookingRevisionEntity>>,
    pub cancelled: bool,
    pub repeat_requested: bool,
}

impl View for VisionBasedIngredientMeasureAction {
    type V = MeasureView;

    open spec fn view(&self) -> MeasureView {
        MeasureView {
            ingredients: self.ingredients@,
            detail: self.detail@,
            vision_action: self.vision_action,
            tts: self.tts_script@,
            content: vision_opt_view(self.current_content),
            revision: revision_view(self.current_revision),
            cancelled: self.cancelled,
            repeat_requested: self.repeat_requested,
        }
    }
}

/// Whether a measuring step can weigh the first of `contents`: where it weighs a
/// carrot or a potato, the recipe has that ingredient, in milligrams, and the
/// difference between the two weights is an `i32` with an absolute value.
pub open spec fn measure_defined(a: MeasureView, contents: Seq<VisionObject>) -> bool {
    contents.len() > 0 && a.detail is MeasureIngredientSize && measured_name(contents[0].object_type) is Some ==> {
        match first_with_name(a.ingredients, measured_name(contents[0].object_type)->0) {
            Some(target) => target.unit is MilliGram
                && i32::MIN < contents[0].estimated_weight_mg - amount_number(target.unit) <= i32::MAX,
            None => false,
        }
    }
}

/// The change that weighing found: how much more (`Add`) or less (`Sub`) of the
/// ingredient there is than the recipe needs.
pub open spec fn measured_change(name: CookingIngredientName, diff: int) -> CookingRevisionEntity {
    CookingRevisionEntity {
        entity_id: 0,
        property: if diff >= 0 {
            CookingRevisionEntityProperty::Add(CookingIngredient { name, unit: CookingIngredientAmount::MilliGram(diff as i32) })
        } else {
            CookingRevisionEntityProperty::Sub(CookingIngredient { name, unit: CookingIngredientAmount::MilliGram((-diff) as i32) })
        },
    }
}

/// What is said of a weighing that came out `diff` milligrams above the recipe's
/// `target`: the template rendered with "more" or "less", and then with "similar"
/// where `diff` is at most a twentieth of the target.
pub open spec fn measure_text(tpl: I18nView, diff: int, target: int) -> Option<I18nView> {
    let first = render_with(tpl, |l: LanguageTag| measure_data(if diff >= 0 { more_text() } else { less_text() }, l));
    if first is None {
        None
    } else if 20 * diff <= target {
        render_with(tpl, |l: LanguageTag| measure_data(similar_text(), l))
    } else {
        first
    }
}

/// What weighing the objects the vision saw gives: a failure where it saw nothing;
/// else, where the step weighs a carrot or a potato and sees one first, its
/// change against the recipe added after the changes found so far, with the text
/// that says it; else the changes found so far and the template as it is.
pub open spec fn measure_outcome(a: MeasureView, contents: Seq<VisionObject>) -> Result<TaskResultView, StepError> {
    let tt = SmartSpeakerTaskType::Vision;
    let prev = match a.revision { Some(r) => r, None => Seq::empty() };
    if contents.len() == 0 {
        Ok(result_view(tt, CodeView::StepFailed, Some(a.tts), None))
    } else if a.detail is MeasureIngredientSize && measured_name(contents[0].object_type) is Some {
        let name = measured_name(contents[0].object_type)->0;
        let target = amount_number(first_with_name(a.ingredients, name)->0.unit);
        let diff = contents[0].estimated_weight_mg - target;
        match measure_text(a.tts, diff, target) {
            Some(t) => Ok(result_view(tt, CodeView::StepSuccess, Some(t), Some(prev.push(measured_change(name, diff))))),
            None => Err(StepError::RenderFailed),
        }
    } else {
        Ok(result_view(tt, CodeView::StepSuccess, Some(a.tts), Some(prev)))
    }
}

/// Whether a measuring step can run: where it would weigh what the vision found,
/// it can.
pub open spec fn measure_ready(a: MeasureView) -> bool {
    !a.cancelled && !a.repeat_requested && a.content is Some && a.content->0.action is ObjectDetection
        ==> measure_defined(a, a.content->0.entities)
}

/// What a measuring step gives: cancelled or repeated where asked; a failure with
/// the template where the vision sent nothing; the template where it was asked
/// for nothing; else what weighing the objects gives.
pub open spec fn measure_result(a: MeasureView) -> Result<TaskResultView, StepError> {
    let tt = SmartSpeakerTaskType::Vision;
    if a.cancelled {
        Ok(result_view(tt, CodeView::Cancelled, None, None))
    } else if a.repeat_requested {
        Ok(result_view(tt, CodeView::RepeatPrevious, None, None))
    } else {
        match a.content {
            None => Ok(result_view(tt, CodeView::StepFailed, Some(a.tts), None)),
            Some(c) => match c.action {
                VisionAction::Nothing => Ok(result_view(tt, CodeView::StepSuccess, Some(a.tts), None)),
                VisionAction::ObjectDetection(_) => measure_outcome(a, c.entities),
            },
        }
    }
}

/// A measuring step after it took in `content` and `revision`: requests to cancel
/// or repeat mark it, vision content is kept, and a revision replaces the one it had.
pub open spec fn measure_fed(a: MeasureView, content: ContentView, revision: Option<Seq<CookingRevisionEntity>>) -> MeasureView {
    MeasureView {
        cancelled: a.cancelled || (content matches ContentView::Intent(i) && i.intent == IntentAction::Cancel),
        repeat_requested: a.repeat_requested || (content matches ContentView::Intent(i) && i.intent == IntentAction::Repeat),
        content: match content {
            ContentView::Vision(v) => Some(v),
            _ => a.content,
        },
        revision: match revision {
            Some(r) => Some(r),
            None => a.revision,
        },
        ..a
    }
}

impl VisionBasedIngredientMeasureAction {
    pub fn new(ingredients: Vec<CookingIngredient>, detail: CookingActionDetail, vision_action: VisionAction, text: SmartSpeakerI18nText) -> (r: Self)
        ensures
            r@ == (MeasureView {
                ingredients: ingredients@,
                detail: detail@,
                vision_action,
                tts: text@,
                content: None,
                revision: None,
                cancelled: false,
                repeat_requested: false,
            }),
    {
        VisionBasedIngredientMeasureAction {
            ingredients,
            detail,
            vision_action,
            tts_script: text,
            current_content: None,
            current_revision: None,
            cancelled: false,
            repeat_requested: false,
        }
    }

    /// Whether the step can weigh the first of `contents`.
    pub fn can_measure(&self, contents: &Vec<VisionObject>) -> (r: bool)
        ensures
            r == measure_defined(self@, contents@),
    {
        if contents.len() == 0 {
            return true;
        }
        match self.detail {
            CookingActionDetail::MeasureIngredientSize => {},
            _ => {
                return true;
            },
        }
        let first = contents[0];
        match measured_name_exec(first.object_type) {
            None => true,
            Some(name) => match find_ingredient(&self.ingredients, name) {
                None => false,
                Some(target) => match target.unit {
                    CookingIngredientAmount::MilliGram(t) => {
                        let diff: i64 = first.estimated_weight_mg as i64 - t as i64;
                        -2147483648i64 < diff && diff <= 2147483647i64
                    },
                    _ => false,
                },
            },
        }
    }

    /// Weighs the first object the vision saw against the recipe.
    pub fn handle_vision_contents(&self, contents: &Vec<VisionObject>) -> (r: Result<SmartSpeakerTaskResult, StepError>)
        requires
            measure_defined(self@, contents@),
        ensures
            outcome_view(r) == measure_outcome(self@, contents@),
    {
        let tt = SmartSpeakerTaskType::Vision;
        let mut revisions: Vec<CookingRevisionEntity> = match &self.current_revision {
            Some(rev) => copy_vec(&rev.entities),
            None => Vec::new(),
        };
        if contents.len() == 0 {
            return Ok(SmartSpeakerTaskResult::with_tts(tt, SmartSpeakerTaskResultCode::StepFailed, self.tts_script.clone()));
        }
        let first = contents[0];
        let name = match (&self.detail, measured_name_exec(first.object_type)) {
            (CookingActionDetail::MeasureIngredientSize, Some(name)) => name,
            _ => {
                return Ok(SmartSpeakerTaskResult::with_tts_and_revision(
                    tt, SmartSpeakerTaskResultCode::StepSuccess, self.tts_script.clone(), CookingRevision::new(revisions)));
            },
        };
        let target = match find_ingredient(&self.ingredients, name) {
            Some(t) => t,
            None => {
                proof { assert(false); }
                return Err(StepError::RenderFailed);
            },
        };
        let weight = CookingIngredientAmount::MilliGram(first.estimated_weight_mg);
        let diff_amount = match weight.sub(target.unit) {
            Ok(d) => d,
            Err(_) => {
                proof { assert(false); }
                return Err(StepError::RenderFailed);
            },
        };
        let (diff, goal): (i32, i32) = match (diff_amount, target.unit) {
            (CookingIngredientAmount::MilliGram(d), CookingIngredientAmount::MilliGram(t)) => (d, t),
            _ => {
                proof { assert(false); }
                return Err(StepError::RenderFailed);
            },
        };
        let change = if diff >= 0 {
            CookingRevisionEntityProperty::Add(CookingIngredient::new(name, diff_amount.abs()))
        } else {
            CookingRevisionEntityProperty::Sub(CookingIngredient::new(name, diff_amount.abs()))
        };
        revisions.push(CookingRevisionEntity::new(0, change));
        let phrase = if diff >= 0 { more_phrase() } else { less_phrase() };
        let mut text = render_measure(&self.tts_script, &phrase);
        if text.is_some() && 20 * (diff as i64) <= goal as i64 {
            text = render_measure(&self.tts_script, &similar_phrase());
        }
        rendered_result(tt, text, Some(CookingRevision::new(revisions)))
    }

    /// The step's result.
    pub fn execute(&self) -> (r: Result<SmartSpeakerTaskResult, StepError>)
        requires
            measure_ready(self@),
        ensures
            outcome_view(r) == measure_result(self@),
    {
        let tt = SmartSpeakerTaskType::Vision;
        if self.cancelled {
            return Ok(SmartSpeakerTaskResult::new(tt, SmartSpeakerTaskResultCode::Cancelled));
        }
        if self.repeat_requested {
            return Ok(SmartSpeakerTaskResult::new(tt, SmartSpeakerTaskResultCode::RepeatPrevious));
        }
        match &self.current_content {
            None => Ok(SmartSpeakerTaskResult::with_tts(tt, SmartSpeakerTaskResultCode::StepFailed, self.tts_script.clone())),
            Some(content) => match content.action {
                VisionAction::Nothing => Ok(SmartSpeakerTaskResult::with_tts(tt, SmartSpeakerTaskResultCode::StepSuccess, self.tts_script.clone())),
                VisionAction::ObjectDetection(_) => self.handle_vision_contents(&content.entities),
            },
        }
    }

    /// Takes in what the vision found and the changes measured so far.
    pub fn feed(&mut self, content: Content, revision: Option<CookingRevision>)
        ensures
            final(self)@ == measure_fed(old(self)@, content@, revision_view(revision)),
    {
        if cancel_requested(&content) {
            self.cancelled = true;
        }
        if repeat_requested(&content) {
            self.repeat_requested = true;
        }
        match content {
            Content::Vision(vision) => {
                self.current_content = Some(vision);
            },
            _ => {},
        }
        match revision {
            Some(r) => {
                self.current_revision = Some(r);
            },
            None => {},
        }
    }
}

impl Clone for VisionBasedIngredientMeasureAction {
    fn clone(&self) -> (r: Self)
        ensures
            r@ == self@,
    {
        VisionBasedIngredientMeasureAction {
            ingredients: copy_vec(&self.ingredients),
            detail: self.detail.clone(),
            vision_action: self.vision_action,
            tts_script: self.tts_script.clone(),
            current_content: copy_vision_opt(&self.current_content),
            current_revision: copy_revision_opt(&self.current_revision),
            cancelled: self.cancelled,
            repeat_requested: self.repeat_requested,
        }
    }
}

/// The change that weighing records accounts exactly for the difference between
/// what was seen and what the recipe needs: added where there is more, taken away
/// where there is less.
pub proof fn lemma_measured_change_accounts_for_difference(name: CookingIngredientName, diff: int)
    requires
        i32::MIN < diff <= i32::MAX,
    ensures
        match measured_change(name, diff).property {
            CookingRevisionEntityProperty::Add(i) => i.name == name && diff >= 0 && amount_number(i.unit) == diff,
            CookingRevisionEntityProperty::Sub(i) => i.name == name && diff < 0 && amount_number(i.unit) == -diff,
        },
{
}

/// Weighing records the ingredient that was weighed. Where a measuring step sees a
/// carrot or a potato first and the weighing comes out, it succeeds, and its changes
/// are the changes found so far followed by one change of that same ingredient (a
/// carrot for a carrot, a potato for a potato), in milligrams: by how much the weight
/// seen is above the recipe's amount of that ingredient, added, or by how much it is
/// below, taken away.
pub proof fn lemma_weighing_records_the_weighed_ingredient(a: MeasureView, contents: Seq<VisionObject>)
    requires
        a.detail is MeasureIngredientSize,
        contents.len() > 0,
        contents[0].object_type == DetectableObject::Carrot || contents[0].object_type == DetectableObject::Potato,
        measure_defined(a, contents),
        measure_outcome(a, contents) is Ok,
    ensures
        ({
            let r = measure_outcome(a, contents)->Ok_0;
            let prev = match a.revision { Some(x) => x, None => Seq::<CookingRevisionEntity>::empty() };
            let name = if contents[0].object_type == DetectableObject::Carrot {
                CookingIngredientName::Carrot
            } else {
                CookingIngredientName::Potato
            };
            let weight = contents[0].estimated_weight_mg as int;
            &&& r.code == CodeView::StepSuccess
            &&& r.task_type == SmartSpeakerTaskType::Vision
            &&& first_with_name(a.ingredients, name) is Some
            &&& r.revision is Some
            &&& r.revision->0.len() == prev.len() + 1
            &&& r.revision->0.take(prev.len() as int) == prev
            &&& r.revision->0.last().entity_id == 0
            &&& match first_with_name(a.ingredients, name)->0.unit {
                CookingIngredientAmount::MilliGram(target) => if weight >= target {
                    r.revision->0.last().property == CookingRevisionEntityProperty::Add(
                        CookingIngredient { name, unit: CookingIngredientAmount::MilliGram((weight - target) as i32) })
                } else {
                    r.revision->0.last().property == CookingRevisionEntityProperty::Sub(
                        CookingIngredient { name, unit: CookingIngredientAmount::MilliGram((target - weight) as i32) })
                },
                _ => false,
            }
        }),
{
    let prev = match a.revision { Some(x) => x, None => Seq::<CookingRevisionEntity>::empty() };
    let r = measure_outcome(a, contents)->Ok_0;
    assert(r.revision->0.take(prev.len() as int) =~= prev);
}

} // verus!
