use vas_got_vision::context::{ContextActorCore, ContextOutput};
use vas_got_vision::cooking_step::StepAdjustment;
use vas_got_vision::intent::{IntentAction, IntentCookingMenu, IntentSlot};
use vas_got_vision::messages::{IntentContent, ProcessResult, VisionContent};
use vas_got_vision::speech::MachineSpeechBoilerplate;
use vas_got_vision::state::{SmartSpeakerState, WaitingInteraction};
use vas_got_vision::vision::{DetectableObject, VisionAction, VisionObject, VisionObjectShape, VisionObjectSize};

fn intent(action: IntentAction) -> IntentContent {
    IntentContent::new(action, vec![])
}

#[test]
fn cooking_starts_and_waits_for_speech() {
    let mut context = ContextActorCore::new(false);
    let cook = IntentContent::new(IntentAction::CookingTask, vec![IntentSlot::Menu(IntentCookingMenu::PotatoSalad)]);
    assert!(context.can_handle_intent(ProcessResult::Success, &cook, &StepAdjustment::Unneeded));
    let outs = context.handle_intent(ProcessResult::Success, cook, &StepAdjustment::Unneeded);
    assert_eq!(outs.len(), 1);
    match &outs[0] {
        ContextOutput::Speak(t) => assert!(t.en.starts_with("Let's start Potato salad cooking.")),
        other => panic!("unexpected output {:?}", other),
    }
    assert!(context.current_task.is_some());
    assert_eq!(context.handle_speech_finished(),
        vec![ContextOutput::UpdateState(SmartSpeakerState::WaitingForInteraction(WaitingInteraction::Speak))]);
    assert_eq!(context.handle_speech_finished(), vec![]);
}

#[test]
fn cancel_while_cooking() {
    let mut context = ContextActorCore::new(false);
    context.handle_intent(ProcessResult::Success,
        IntentContent::new(IntentAction::CookingTask, vec![IntentSlot::Menu(IntentCookingMenu::CarrotSalad)]), &StepAdjustment::Unneeded);
    let outs = context.handle_intent(ProcessResult::Success, intent(IntentAction::Cancel), &StepAdjustment::Unneeded);
    assert_eq!(outs[0], ContextOutput::SpeakBoilerplate(MachineSpeechBoilerplate::Aborted));
    assert!(context.current_task.is_none());
    assert_eq!(context.handle_speech_finished(), vec![ContextOutput::UpdateState(SmartSpeakerState::Idle)]);
}

#[test]
fn requests_without_a_task() {
    let mut context = ContextActorCore::new(false);
    assert_eq!(context.handle_intent(ProcessResult::Success, intent(IntentAction::Purchase), &StepAdjustment::Unneeded), vec![
        ContextOutput::SpeakBoilerplate(MachineSpeechBoilerplate::Undefined),
        ContextOutput::UpdateState(SmartSpeakerState::Idle),
    ]);
    assert_eq!(context.handle_intent(ProcessResult::Failure, intent(IntentAction::Nothing), &StepAdjustment::Unneeded), vec![
        ContextOutput::SpeakBoilerplate(MachineSpeechBoilerplate::IntentFailed),
        ContextOutput::UpdateState(SmartSpeakerState::Idle),
    ]);
    // without the vision, "what do you see" starts nothing
    assert_eq!(context.handle_intent(ProcessResult::Success, intent(IntentAction::WhatYouSee), &StepAdjustment::Unneeded), vec![]);
    assert!(!context.can_handle_intent(ProcessResult::Success, &intent(IntentAction::CookingTask), &StepAdjustment::Unneeded));
    assert_eq!(context.handle_vision_failure(), vec![ContextOutput::SpeakBoilerplate(MachineSpeechBoilerplate::VisionFailed)]);
}

#[test]
fn viewing_with_the_vision() {
    let mut context = ContextActorCore::new(true);
    let outs = context.handle_intent(ProcessResult::Success, intent(IntentAction::WhatYouSee), &StepAdjustment::Unneeded);
    assert_eq!(outs.len(), 1);
    let waiting = context.handle_speech_finished();
    assert!(matches!(waiting[0], ContextOutput::UpdateState(SmartSpeakerState::WaitingForInteraction(WaitingInteraction::Vision(_)))));
    let seen = VisionContent::new(VisionAction::Nothing, vec![
        VisionObject::new(DetectableObject::Carrot, VisionObjectSize::new(0, 0, 0), VisionObjectShape::Circle, 0)]);
    assert!(context.can_handle_vision(&seen, &StepAdjustment::Unneeded));
    let said = context.handle_vision_content(seen, &StepAdjustment::Unneeded);
    match &said[0] {
        ContextOutput::Speak(t) => assert_eq!(t.en, "I see 1 carrot with aruco"),
        other => panic!("unexpected output {:?}", other),
    }
    // the last step done, the task ends and the speaker goes idle once it has spoken
    assert!(context.current_task.is_none());
    assert_eq!(context.handle_speech_finished(), vec![ContextOutput::UpdateState(SmartSpeakerState::Idle)]);
}
