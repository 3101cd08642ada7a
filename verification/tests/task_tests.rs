use vas_got_vision::cooking::{CookingIngredient, CookingIngredientAmount, CookingIngredientName, CookingIngredientTime};
use vas_got_vision::cooking_step::{AdjustmentRequest, StepAdjustment};
use vas_got_vision::revision::{CookingRevisionEntity, CookingRevisionEntityProperty};
use vas_got_vision::cooking_task::CookingTask;
use vas_got_vision::intent::{IntentAction, IntentCookingMenu, IntentSlot};
use vas_got_vision::messages::{Content, IntentContent, VisionContent};
use vas_got_vision::speech::MachineSpeechBoilerplate;
use vas_got_vision::state::WaitingInteraction;
use vas_got_vision::task::{SmartSpeakerTaskResultCode, SmartSpeakerTaskType, TaskError};
use vas_got_vision::viewing_task::VisionViewingTask;
use vas_got_vision::vision::{DetectableObject, DetectionDetail, DetectionMode, VisionAction, VisionObject, VisionObjectShape, VisionObjectSize};

fn said(intent: IntentAction) -> Option<Content> {
    Some(Content::Intent(IntentContent::new(intent, vec![])))
}

fn cooking(vision: bool) -> CookingTask {
    CookingTask::new(IntentContent::new(IntentAction::CookingTask, vec![IntentSlot::Menu(IntentCookingMenu::CarrotSalad)]), vision).unwrap()
}

#[test]
fn a_task_needs_a_dish() {
    assert_eq!(CookingTask::new(IntentContent::new(IntentAction::CookingTask, vec![]), false).err(), Some(TaskError::MenuMissing));
}

#[test]
fn cooking_moves_step_by_step() {
    let mut task = cooking(false);
    let first = task.init().unwrap();
    assert_eq!(first.code, SmartSpeakerTaskResultCode::TaskSuccess(WaitingInteraction::Speak));
    assert!(first.tts.unwrap().en.starts_with("Let's start Carrot salad cooking."));
    assert_eq!(task.current_step, 1);
    assert_eq!(task.next_index(), Some(2));
    let second = task.try_next(said(IntentAction::Next), &StepAdjustment::Unneeded).unwrap();
    assert!(second.tts.unwrap().en.contains("1 piece carrot"));
    assert_eq!(task.current_step, 2);
    for _ in 2..7 {
        let r = task.try_next(said(IntentAction::Confirm), &StepAdjustment::Unneeded).unwrap();
        assert!(matches!(r.code, SmartSpeakerTaskResultCode::TaskSuccess(WaitingInteraction::Speak)));
    }
    assert_eq!(task.current_step, 7);
    assert_eq!(task.next_index(), None);
    let last = task.try_next(said(IntentAction::Next), &StepAdjustment::Unneeded).unwrap();
    assert_eq!(last.code, SmartSpeakerTaskResultCode::TaskSuccess(WaitingInteraction::Exit));
    assert_eq!(last.tts.unwrap().en, "It's done. Bon appetit.");
    assert_eq!(task.current_step, 7);
}

#[test]
fn repeat_gives_the_last_success() {
    let mut task = cooking(false);
    assert_eq!(task.try_next(said(IntentAction::Repeat), &StepAdjustment::Unneeded), Err(TaskError::NothingToRepeat));
    let first = task.init().unwrap();
    let again = task.try_next(said(IntentAction::Repeat), &StepAdjustment::Unneeded).unwrap();
    assert_eq!(again, first);
    assert_eq!(task.current_step, 1);
}

#[test]
fn cancel_ends_the_task() {
    let mut task = cooking(true);
    task.init().unwrap();
    let r = task.try_next(said(IntentAction::Cancel), &StepAdjustment::Unneeded).unwrap();
    assert_eq!(r.code, SmartSpeakerTaskResultCode::Cancelled);
    assert_eq!(r.tts.unwrap().en, "cooking task cancelled");
    assert_eq!(task.current_step, 1);
}

#[test]
fn nothing_heard_keeps_waiting() {
    let mut task = cooking(false);
    let r = task.try_next(None, &StepAdjustment::Unneeded).unwrap();
    assert_eq!(r.code, SmartSpeakerTaskResultCode::TaskFailed(WaitingInteraction::Speak));
    assert_eq!(r.tts.unwrap(), MachineSpeechBoilerplate::IntentFailed.to_i18n());
    assert_eq!(task.current_step, 0);
    assert_eq!(task.exit().tts.unwrap().ja, "料理タスクを終了します。");
}

#[test]
fn weighing_in_a_cooking_task() {
    let mut task = cooking(true);
    task.init().unwrap();
    for _ in 0..4 {
        task.try_next(said(IntentAction::Next), &StepAdjustment::Unneeded).unwrap();
    }
    assert_eq!(task.current_step, 5);
    let wait = task.failed();
    assert_eq!(wait.code, SmartSpeakerTaskResultCode::TaskFailed(WaitingInteraction::Vision(vec![
        VisionAction::ObjectDetection(DetectionDetail::new(DetectionMode::Aruco, DetectableObject::Carrot, true))])));
    let content = Content::Vision(VisionContent::new(
        VisionAction::ObjectDetection(DetectionDetail::new(DetectionMode::Aruco, DetectableObject::Carrot, true)),
        vec![VisionObject::new(DetectableObject::Carrot, VisionObjectSize::new(0, 0, 0), VisionObjectShape::Rectangle, 1500)],
    ));
    assert!(task.can_take(&content));
    let r = task.try_next(Some(content), &StepAdjustment::Unneeded).unwrap();
    // after a vision step the next step needs no interaction
    assert_eq!(r.code, SmartSpeakerTaskResultCode::TaskSuccess(WaitingInteraction::Skip));
    assert_eq!(r.task_type, SmartSpeakerTaskType::Vision);
    assert_eq!(task.last_revision.as_ref().unwrap().entities.len(), 1);
    assert_eq!(task.current_step, 6);
    assert!(task.adjustment_request().is_none());
}

#[test]
fn viewing_counts_what_it_sees() {
    let mut task = VisionViewingTask::new().unwrap();
    let first = task.init().unwrap();
    assert_eq!(first.tts.unwrap().en, "Checking...");
    assert_eq!(first.code, SmartSpeakerTaskResultCode::TaskSuccess(WaitingInteraction::Vision(vec![
        VisionAction::ObjectDetection(DetectionDetail::new(DetectionMode::Aruco, DetectableObject::Carrot, false))])));
    let objects = vec![
        VisionObject::new(DetectableObject::Carrot, VisionObjectSize::new(0, 0, 0), VisionObjectShape::Square, 0),
        VisionObject::new(DetectableObject::Carrot, VisionObjectSize::new(0, 0, 0), VisionObjectShape::Circle, 0),
    ];
    let r = task.try_next(Some(Content::Vision(VisionContent::new(VisionAction::Nothing, objects)))).unwrap();
    assert_eq!(r.code, SmartSpeakerTaskResultCode::TaskSuccess(WaitingInteraction::Exit));
    assert_eq!(r.tts.unwrap().en, "I see 2 carrot with aruco");
    assert_eq!(task.cancel().tts.unwrap().en, "task cancelled");
}

#[test]
fn adjustments_follow_the_newest_change() {
    let mut task = cooking(true);
    task.init().unwrap();
    for _ in 0..4 {
        task.try_next(said(IntentAction::Next), &StepAdjustment::Unneeded).unwrap();
    }
    let carrot = |w: i32| Some(Content::Vision(VisionContent::new(
        VisionAction::ObjectDetection(DetectionDetail::new(DetectionMode::Aruco, DetectableObject::Carrot, true)),
        vec![VisionObject::new(DetectableObject::Carrot, VisionObjectSize::new(0, 0, 0), VisionObjectShape::Rectangle, w)],
    )));
    task.try_next(carrot(1500), &StepAdjustment::Unneeded).unwrap();
    for _ in 0..3 {
        task.try_next(said(IntentAction::Next), &StepAdjustment::Unneeded).unwrap();
    }
    assert_eq!(task.current_step, 9);
    // a cut piece of about the recipe's weight is a change of nothing
    let r = task.try_next(carrot(100), &StepAdjustment::Unneeded).unwrap();
    assert!(r.tts.unwrap().en.starts_with("It seems to be similar"));
    let newest = CookingRevisionEntity::new(0, CookingRevisionEntityProperty::Add(
        CookingIngredient::new(CookingIngredientName::Carrot, CookingIngredientAmount::MilliGram(0))));
    assert_eq!(task.last_revision.as_ref().unwrap().entities.len(), 2);
    assert_eq!(task.current_step, 10);
    // the boiling step asks for its time, with the newest change
    let boil = CookingIngredientTime::new(
        CookingIngredient::new(CookingIngredientName::Carrot, CookingIngredientAmount::MilliGram(150)), 80);
    assert_eq!(task.adjustment_request(), Some(AdjustmentRequest::Time(boil, newest)));
}
