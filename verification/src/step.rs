use vstd::prelude::*;
use crate::i18n::{SmartSpeakerI18nText, I18nView, i18n};
use crate::intent::IntentAction;
use crate::messages::{Content, ContentView, IntentContent, IntentContentView, VisionContent, VisionContentView, copy_vec};
use crate::revision::{CookingRevision, CookingRevisionEntity, revision_view};
use crate::state::{WaitingInteraction, WaitingView};
use crate::task::{SmartSpeakerTaskResult, SmartSpeakerTaskResultCode, SmartSpeakerTaskType, CodeView, TaskResultView, result_view};
use crate::text::{decimal, count_with, with_count, concat2, concat3};
use crate::vision::{DetectableObject, DetectionDetail, DetectionMode, VisionAction, vision_action_text};

verus! {

/// What a step waits for before it can run.
#[derive(Debug, PartialEq)]
pub enum ActionTriggerType {
    Nothing,
    Confirm,
    Vision(Vec<VisionAction>),
}

/// What a step waits for, as plain values.
pub enum TriggerView {
    Nothing,
    Confirm,
    Vision(Seq<VisionAction>),
}

impl View for ActionTriggerType {
    type V = TriggerView;

    open spec fn view(&self) -> TriggerView {
        match self {
            ActionTriggerType::Nothing => TriggerView::Nothing,
            ActionTriggerType::Confirm => TriggerView::Confirm,
            ActionTriggerType::Vision(a) => TriggerView::Vision(a@),
        }
    }
}

/// The interaction the speaker waits for before a step with this trigger.
pub open spec fn trigger_waiting(t: TriggerView) -> WaitingView {
    match t {
        TriggerView::Nothing => WaitingView::Skip,
        TriggerView::Confirm => WaitingView::Speak,
        TriggerView::Vision(a) => WaitingView::Vision(a),
    }
}

/// Whether a step with this trigger waits on the vision.
pub open spec fn trigger_task_type(t: TriggerView) -> SmartSpeakerTaskType {
    match t {
        TriggerView::Vision(_) => SmartSpeakerTaskType::Vision,
        _ => SmartSpeakerTaskType::NonVision,
    }
}

impl ActionTriggerType {
    /// The interaction the speaker waits for before the step.
    pub fn to_waiting_interaction(&self) -> (r: WaitingInteraction)
        ensures
            r@ == trigger_waiting(self@),
    {
        match self {
            ActionTriggerType::Nothing => WaitingInteraction::Skip,
            ActionTriggerType::Confirm => WaitingInteraction::Speak,
            ActionTriggerType::Vision(actions) => WaitingInteraction::Vision(copy_vec(actions)),
        }
    }

    /// Whether the step waits on the vision.
    pub fn to_task_type(&self) -> (r: SmartSpeakerTaskType)
        ensures
            r == trigger_task_type(self@),
    {
        match self {
            ActionTriggerType::Nothing => SmartSpeakerTaskType::NonVision,
            ActionTriggerType::Confirm => SmartSpeakerTaskType::NonVision,
            ActionTriggerType::Vision(_) => SmartSpeakerTaskType::Vision,
        }
    }
}

/// Why a step could not produce its result.
#[derive(Debug, Clone, Copy, PartialEq, Eq, Structural)]
pub enum StepError {
    /// A text template could not be rendered.
    RenderFailed,
    /// The step does not ask the vision for anything.
    NotVisionAction,
}

/// Whether content is a spoken request to cancel.
pub open spec fn is_cancel_request(c: Content) -> bool {
    match c {
        Content::Intent(i) => i.intent == IntentAction::Cancel,
        _ => false,
    }
}

/// Whether content is a spoken request to repeat.
pub open spec fn is_repeat_request(c: Content) -> bool {
    match c {
        Content::Intent(i) => i.intent == IntentAction::Repeat,
        _ => false,
    }
}

/// Whether content is a spoken request to cancel.
pub fn cancel_requested(content: &Content) -> (r: bool)
    ensures
        r == is_cancel_request(*content),
{
    match content {
        Content::Intent(i) => i.intent == IntentAction::Cancel,
        _ => false,
    }
}

/// Whether content is a spoken request to repeat.
pub fn repeat_requested(content: &Content) -> (r: bool)
    ensures
        r == is_repeat_request(*content),
{
    match content {
        Content::Intent(i) => i.intent == IntentAction::Repeat,
        _ => false,
    }
}

/// The view of optional spoken content.
pub open spec fn intent_opt_view(c: Option<IntentContent>) -> Option<IntentContentView> {
    match c {
        Some(x) => Some(x@),
        None => None,
    }
}

/// The view of optional vision content.
pub open spec fn vision_opt_view(c: Option<VisionContent>) -> Option<VisionContentView> {
    match c {
        Some(x) => Some(x@),
        None => None,
    }
}

/// A copy of optional spoken content.
pub fn copy_intent_opt(c: &Option<IntentContent>) -> (r: Option<IntentContent>)
    ensures
        intent_opt_view(r) == intent_opt_view(*c),
{
    match c {
        Some(x) => Some(x.clone()),
        None => None,
    }
}

/// A copy of optional vision content.
pub fn copy_vision_opt(c: &Option<VisionContent>) -> (r: Option<VisionContent>)
    ensures
        vision_opt_view(r) == vision_opt_view(*c),
{
    match c {
        Some(x) => Some(x.clone()),
        None => None,
    }
}

/// A copy of an optional revision.
pub fn copy_revision_opt(c: &Option<CookingRevision>) -> (r: Option<CookingRevision>)
    ensures
        revision_view(r) == revision_view(*c),
{
    match c {
        Some(x) => Some(x.clone()),
        None => None,
    }
}

/// A step that says a fixed text.
#[derive(Debug, PartialEq)]
pub struct GenericAction {
    pub tts_script: SmartSpeakerI18nText,
    pub current_contents: Option<IntentContent>,
    pub current_revisions: Option<CookingRevision>,
    pub cancelled: bool,
    pub repeat_requested: bool,
}

/// A fixed-text step as plain values.
pub struct GenericView {
    pub tts: I18nView,
    pub content: Option<IntentContentView>,
    pub revision: Option<Seq<CookingRevisionEntity>>,
    pub cancelled: bool,
    pub repeat_requested: bool,
}

impl View for GenericAction {
    type V = GenericView;

    open spec fn view(&self) -> GenericView {
        GenericView {
            tts: self.tts_script@,
            content: intent_opt_view(self.current_contents),
            revision: revision_view(self.current_revisions),
            cancelled: self.cancelled,
            repeat_requested: self.repeat_requested,
        }
    }
}

/// What a fixed-text step gives: cancelled or repeated where it was asked to be,
/// else its text.
pub open spec fn generic_result(a: GenericView) -> TaskResultView {
    if a.cancelled {
        result_view(SmartSpeakerTaskType::NonVision, CodeView::Cancelled, None, None)
    } else if a.repeat_requested {
        result_view(SmartSpeakerTaskType::NonVision, CodeView::RepeatPrevious, None, None)
    } else {
        result_view(SmartSpeakerTaskType::NonVision, CodeView::StepSuccess, Some(a.tts), None)
    }
}

/// A fixed-text step after it took in `content`: a request to cancel marks it
/// cancelled, and spoken content is kept.
pub open spec fn generic_fed(a: GenericView, content: ContentView) -> GenericView {
    GenericView {
        cancelled: a.cancelled || (content matches ContentView::Intent(i) && i.intent == IntentAction::Cancel),
        content: match content {
            ContentView::Intent(i) => Some(i),
            _ => a.content,
        },
        ..a
    }
}

impl GenericAction {
    pub fn new(text: SmartSpeakerI18nText) -> (r: Self)
        ensures
            r@ == (GenericView { tts: text@, content: None, revision: None, cancelled: false, repeat_requested: false }),
    {
        GenericAction { tts_script: text, current_contents: None, current_revisions: None, cancelled: false, repeat_requested: false }
    }

    /// The step's result.
    pub fn execute(&self) -> (r: SmartSpeakerTaskResult)
        ensures
            r@ == generic_result(self@),
    {
        if self.cancelled {
            return SmartSpeakerTaskResult::new(SmartSpeakerTaskType::NonVision, SmartSpeakerTaskResultCode::Cancelled);
        }
        if self.repeat_requested {
            return SmartSpeakerTaskResult::new(SmartSpeakerTaskType::NonVision, SmartSpeakerTaskResultCode::RepeatPrevious);
        }
        SmartSpeakerTaskResult::with_tts(SmartSpeakerTaskType::NonVision, SmartSpeakerTaskResultCode::StepSuccess, self.tts_script.clone())
    }

    /// Takes in what was heard: a request to cancel marks the step cancelled, and
    /// spoken content is kept.
    pub fn feed(&mut self, content: Content, revision: Option<CookingRevision>)
        ensures
            final(self)@ == generic_fed(old(self)@, content@),
    {
        if cancel_requested(&content) {
            self.cancelled = true;
        }
        match content {
            Content::Intent(intent) => {
                self.current_contents = Some(intent);
            },
            _ => {},
        }
    }
}

impl Clone for GenericAction {
    fn clone(&self) -> (r: Self)
        ensures
            r@ == self@,
    {
        GenericAction {
            tts_script: self.tts_script.clone(),
            current_contents: copy_intent_opt(&self.current_contents),
            current_revisions: copy_revision_opt(&self.current_revisions),
            cancelled: self.cancelled,
            repeat_requested: self.repeat_requested,
        }
    }
}

/// The text said when the vision saw nothing.
pub open spec fn nothing_seen_text() -> I18nView {
    i18n("I can't see anything"@, "何も見えませんでした"@, "我什么都没看到"@, "아무것도 보이지 않습니다"@)
}

fn nothing_seen() -> (r: SmartSpeakerI18nText)
    ensures
        r@ == nothing_seen_text(),
{
    SmartSpeakerI18nText::new()
        .en("I can't see anything")
        .ja("何も見えませんでした")
        .zh("我什么都没看到")
        .ko("아무것도 보이지 않습니다")
}

/// The text said for `count` objects found by a vision request.
pub open spec fn count_text(count: nat, action: VisionAction) -> I18nView {
    let d = decimal(count as int);
    let t = vision_action_text(action);
    i18n(
        "I see "@ + d + " "@ + t.en,
        d + "個の"@ + t.ja + "が見えました"@,
        "我看到了"@ + d + "个"@ + t.zh,
        d + "개의 "@ + t.ko + "가 보입니다"@,
    )
}

/// A step that counts the objects the vision found.
#[derive(Debug, PartialEq)]
pub struct CountVisionObjectAction {
    pub vision_action: VisionAction,
    pub current_content: Option<VisionContent>,
    pub cancelled: bool,
    pub repeat_requested: bool,
}

/// A counting step as plain values.
pub struct CountView {
    pub vision_action: VisionAction,
    pub content: Option<VisionContentView>,
    pub cancelled: bool,
    pub repeat_requested: bool,
}

impl View for CountVisionObjectAction {
    type V = CountView;

    open spec fn view(&self) -> CountView {
        CountView {
            vision_action: self.vision_action,
            content: vision_opt_view(self.current_content),
            cancelled: self.cancelled,
            repeat_requested: self.repeat_requested,
        }
    }
}

/// What a counting step gives: how many objects were seen, or that nothing was.
pub open spec fn count_result(a: CountView) -> TaskResultView {
    match a.content {
        None => result_view(SmartSpeakerTaskType::Vision, CodeView::StepSuccess, Some(nothing_seen_text()), None),
        Some(c) => result_view(SmartSpeakerTaskType::Vision, CodeView::StepSuccess, Some(count_text(c.entities.len(), a.vision_action)), None),
    }
}

/// A counting step after it took in `content`: vision content is kept.
pub open spec fn count_fed(a: CountView, content: ContentView) -> CountView {
    CountView {
        content: match content {
            ContentView::Vision(v) => Some(v),
            _ => a.content,
        },
        ..a
    }
}

/// The request that a counting step sends to the vision.
pub open spec fn count_vision_request() -> VisionAction {
    VisionAction::ObjectDetection(DetectionDetail {
        detection_mode: DetectionMode::Aruco,
        detectable: DetectableObject::Carrot,
        gaze_assist: false,
    })
}

impl CountVisionObjectAction {
    pub fn new() -> (r: Self)
        ensures
            r@ == (CountView { vision_action: count_vision_request(), content: None, cancelled: false, repeat_requested: false }),
    {
        CountVisionObjectAction {
            vision_action: VisionAction::ObjectDetection(DetectionDetail::new(DetectionMode::Aruco, DetectableObject::Carrot, false)),
            current_content: None,
            cancelled: false,
            repeat_requested: false,
        }
    }

    /// The step's result.
    pub fn execute(&self) -> (r: SmartSpeakerTaskResult)
        ensures
            r@ == count_result(self@),
    {
        match &self.current_content {
            None => SmartSpeakerTaskResult::with_tts(SmartSpeakerTaskType::Vision, SmartSpeakerTaskResultCode::StepSuccess, nothing_seen()),
            Some(content) => {
                let count = content.entities.len();
                let t = self.vision_action.to_i18n();
                let en = with_count("I see ", count, " ");
                let en = concat2(en.as_str(), t.en.as_str());
                let ja = count_with(count, "個の");
                let ja = concat3(ja.as_str(), t.ja.as_str(), "が見えました");
                let zh = with_count("我看到了", count, "个");
                let zh = concat2(zh.as_str(), t.zh.as_str());
                let ko = count_with(count, "개의 ");
                let ko = concat3(ko.as_str(), t.ko.as_str(), "가 보입니다");
                let text = SmartSpeakerI18nText::from_parts(en, ja, zh, ko);
                SmartSpeakerTaskResult::with_tts(SmartSpeakerTaskType::Vision, SmartSpeakerTaskResultCode::StepSuccess, text)
            },
        }
    }

    /// Takes in what the vision found.
    pub fn feed(&mut self, content: Content, revision: Option<CookingRevision>)
        ensures
            final(self)@ == count_fed(old(self)@, content@),
    {
        match content {
            Content::Vision(vision) => {
                self.current_content = Some(vision);
            },
            _ => {},
        }
    }

    /// The text the step says when nothing was seen.
    pub fn expose_tts_script(&self) -> (r: SmartSpeakerI18nText)
        ensures
            r@ == nothing_seen_text(),
    {
        nothing_seen()
    }
}

impl Clone for CountVisionObjectAction {
    fn clone(&self) -> (r: Self)
        ensures
            r@ == self@,
    {
        CountVisionObjectAction {
            vision_action: self.vision_action,
            current_content: copy_vision_opt(&self.current_content),
            cancelled: self.cancelled,
            repeat_requested: self.repeat_requested,
        }
    }
}

} // verus!
