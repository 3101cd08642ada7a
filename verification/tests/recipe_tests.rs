use vas_got_vision::action::StepAction;
use vas_got_vision::cooking::{CookingIngredient, CookingIngredientAmount, CookingIngredientLinkComponent, CookingIngredientName, CookingIngredientTime};
use vas_got_vision::cooking_step::{
    AdjustmentRequest, CookingActionDetail, ExplainRecipeAction, StepAdjustment, VisionBasedIngredientMeasureAction,
    rendered_result,
};
use vas_got_vision::i18n::SmartSpeakerI18nText;
use vas_got_vision::intent::{IntentAction, IntentCookingMenu};
use vas_got_vision::messages::{Content, IntentContent, VisionContent};
use vas_got_vision::recipe::{CookingStepBuilder, RecipeText};
use vas_got_vision::revision::{CookingRevision, CookingRevisionEntity, CookingRevisionEntityProperty};
use vas_got_vision::step::{ActionTriggerType, StepError};
use vas_got_vision::task::{SmartSpeakerTaskResultCode, SmartSpeakerTaskType};
use vas_got_vision::vision::{DetectableObject, DetectionDetail, DetectionMode, VisionAction, VisionObject, VisionObjectShape, VisionObjectSize};

fn next() -> Content {
    Content::Intent(IntentContent::new(IntentAction::Next, vec![]))
}

fn mg(name: CookingIngredientName, amount: i32) -> CookingIngredient {
    CookingIngredient::new(name, CookingIngredientAmount::MilliGram(amount))
}

#[test]
fn menus_and_their_ingredients() {
    let carrot = IntentCookingMenu::CarrotSalad.to_ingredient();
    assert_eq!(carrot.len(), 4);
    assert_eq!(carrot[0], mg(CookingIngredientName::Carrot, 1000));
    assert_eq!(carrot[3], CookingIngredient::new(CookingIngredientName::SesameOil, CookingIngredientAmount::MilliLiter(5)));
    let potato = IntentCookingMenu::PotatoSalad.to_ingredient();
    assert_eq!(potato[0], mg(CookingIngredientName::Potato, 700));
}

#[test]
fn recipes_have_their_steps() {
    let plain = CookingStepBuilder::new(false).build(IntentCookingMenu::CarrotSalad);
    assert_eq!(plain.len(), 8);
    let seeing = CookingStepBuilder::new(true).build(IntentCookingMenu::PotatoSalad);
    assert_eq!(seeing.len(), 14);
    assert_eq!(plain[0].expose_tts_script().en, "Let's start Carrot salad cooking. You don't have to call me 'Hey Ringo' from now on. Please let me know if you want to proceed to the next step by answering 'OK' or 'Next'.");
    assert_eq!(seeing[0].expose_tts_script().ja, "ポテトサラダ 料理を始めます。 これからは「ヘイ、リンゴ」と呼ばなくてもいいです。 次の作業に進みたい場合は、「OK」や「次」などの答えで教えてください。");
    assert_eq!(plain[7].expose_tts_script(), RecipeText::Done.to_i18n());
    assert_eq!(seeing[5].get_action_trigger_type(), ActionTriggerType::Vision(vec![VisionAction::ObjectDetection(
        DetectionDetail::new(DetectionMode::Aruco, DetectableObject::Potato, true))]));
    assert_eq!(seeing[4].get_action_trigger_type(), ActionTriggerType::Confirm);
    assert!(plain.iter().all(|s| s.try_expose_vision_actions() == Err(StepError::NotVisionAction)));
}

#[test]
fn ingredients_are_listed() {
    let steps = CookingStepBuilder::new(false).build(IntentCookingMenu::CarrotSalad);
    let mut step = steps[1].clone();
    step.feed(next(), None);
    let result = step.execute(&StepAdjustment::Unneeded).unwrap();
    assert_eq!(result.code, SmartSpeakerTaskResultCode::StepSuccess);
    let text = result.tts.unwrap();
    assert_eq!(text.en, "Let's start explaining ingredients. 1 piece carrot.   .salt.   .pepper.   .sesame oil is required. If you want to hear it again, please say 'tell me again'.");
    assert_eq!(text.ja, "食材の説明を始めます。人参 1個、　　　、塩、　　　、胡椒、　　　、ごま油 が必要です。もう一度聞きたい場合は、「もう一度教えて」と言ってください。");
}

#[test]
fn seasonings_and_times_are_filled_in() {
    let steps = CookingStepBuilder::new(false).build(IntentCookingMenu::CarrotSalad);
    let mut boil = steps[4].clone();
    boil.feed(next(), None);
    assert_eq!(boil.execute(&StepAdjustment::Unneeded).unwrap().tts.unwrap().en, "Boil the carrots in boiling water for about 8 minutes.");
    let mut mix = steps[5].clone();
    mix.feed(next(), None);
    assert_eq!(mix.execute(&StepAdjustment::Unneeded).unwrap().tts.unwrap().en,
        "Put the boiled carrots in a bowl and add 1 teaspoon of salt,    1 teaspoon of pepper,    and 1 teaspoon of sesame oil.");
}

fn seen(object: DetectableObject, weight: i32) -> Content {
    Content::Vision(VisionContent::new(
        VisionAction::ObjectDetection(DetectionDetail::new(DetectionMode::Aruco, object, true)),
        vec![VisionObject::new(object, VisionObjectSize::new(0, 0, 0), VisionObjectShape::Rectangle, weight)],
    ))
}

fn carrot_measure() -> VisionBasedIngredientMeasureAction {
    VisionBasedIngredientMeasureAction::new(
        vec![mg(CookingIngredientName::Carrot, 1000)],
        CookingActionDetail::MeasureIngredientSize,
        VisionAction::ObjectDetection(DetectionDetail::new(DetectionMode::Aruco, DetectableObject::Carrot, true)),
        RecipeText::MeasureResult.to_i18n(),
    )
}

#[test]
fn weighing_more_than_the_recipe() {
    let mut step = carrot_measure();
    step.feed(seen(DetectableObject::Carrot, 1200), None);
    let result = step.execute().unwrap();
    assert_eq!(result.task_type, SmartSpeakerTaskType::Vision);
    assert_eq!(result.tts.unwrap().en, "It seems to be more than the amount required by the recipe. I'll keep that in mind for the rest of the instructions.");
    assert_eq!(result.revision.unwrap().entities, vec![CookingRevisionEntity::new(0,
        CookingRevisionEntityProperty::Add(mg(CookingIngredientName::Carrot, 200)))]);
}

#[test]
fn weighing_about_the_recipe() {
    let mut step = carrot_measure();
    step.feed(seen(DetectableObject::Carrot, 1040), Some(CookingRevision::new(vec![
        CookingRevisionEntity::new(7, CookingRevisionEntityProperty::Sub(mg(CookingIngredientName::Salt, 5)))])));
    let result = step.execute().unwrap();
    assert_eq!(result.tts.unwrap().ko, "레시피에서 요구하는 양과 비슷한 것 같네요. 이후의 설명에 참고하도록 하겠습니다.");
    let entities = result.revision.unwrap().entities;
    assert_eq!(entities.len(), 2);
    assert_eq!(entities[1].property, CookingRevisionEntityProperty::Add(mg(CookingIngredientName::Carrot, 40)));
}

#[test]
fn weighing_less_than_the_recipe() {
    let mut step = carrot_measure();
    step.feed(seen(DetectableObject::Carrot, 700), None);
    let result = step.execute().unwrap();
    // any shortfall is within a twentieth of the recipe's amount
    assert_eq!(result.tts.unwrap().zh, "看起来与食谱所需的量相似。 我会记住剩下的说明。");
    assert_eq!(result.revision.unwrap().entities[0].property, CookingRevisionEntityProperty::Sub(mg(CookingIngredientName::Carrot, 300)));
}

#[test]
fn weighing_nothing_or_something_else() {
    let mut step = carrot_measure();
    step.feed(Content::Vision(VisionContent::new(
        VisionAction::ObjectDetection(DetectionDetail::new(DetectionMode::Aruco, DetectableObject::Carrot, true)), vec![])), None);
    assert_eq!(step.execute().unwrap().code, SmartSpeakerTaskResultCode::StepFailed);
    let mut other = carrot_measure();
    other.feed(seen(DetectableObject::HumanSkin, 10), None);
    let result = other.execute().unwrap();
    assert_eq!(result.code, SmartSpeakerTaskResultCode::StepSuccess);
    assert_eq!(result.tts.unwrap(), RecipeText::MeasureResult.to_i18n());
    assert!(!other.can_measure(&vec![VisionObject::new(DetectableObject::Potato, VisionObjectSize::new(0, 0, 0), VisionObjectShape::Circle, 5)]));
}

#[test]
fn cancel_and_repeat_requests() {
    let mut step = StepAction::ExplainRecipe(ExplainRecipeAction::new(vec![], CookingActionDetail::Nothing, RecipeText::Plate.to_i18n()));
    step.feed(Content::Intent(IntentContent::new(IntentAction::Repeat, vec![])), None);
    assert_eq!(step.execute(&StepAdjustment::Unneeded).unwrap().code, SmartSpeakerTaskResultCode::RepeatPrevious);
    step.check_cancelled(&Content::Intent(IntentContent::new(IntentAction::Cancel, vec![])));
    assert!(step.has_cancelled());
    assert_eq!(step.execute(&StepAdjustment::Unneeded).unwrap().code, SmartSpeakerTaskResultCode::Cancelled);
}

#[test]
fn seasonings_follow_the_measured_amount() {
    let link = CookingIngredientLinkComponent::new(mg(CookingIngredientName::Carrot, 1000), vec![mg(CookingIngredientName::Salt, 50)]);
    let template = SmartSpeakerI18nText::new().en("salt {{salt}}").ja("塩{{salt}}").zh("盐{{salt}}").ko("소금 {{salt}}");
    let mut step = ExplainRecipeAction::new(vec![mg(CookingIngredientName::Salt, 50)], CookingActionDetail::ExplainMutableIngredient(link), template);
    let change = CookingRevisionEntity::new(0, CookingRevisionEntityProperty::Add(mg(CookingIngredientName::Carrot, 1000)));
    let older = CookingRevisionEntity::new(1, CookingRevisionEntityProperty::Sub(mg(CookingIngredientName::Carrot, 10)));
    let revision = CookingRevision::new(vec![older, change]);
    match step.adjustment_request(&Some(revision.clone())) {
        Some(AdjustmentRequest::Components(l, e)) => {
            assert_eq!(e, change);
            assert_eq!(l.components, vec![mg(CookingIngredientName::Salt, 50)]);
        },
        other => panic!("unexpected request {:?}", other),
    }
    step.feed(next(), Some(revision));
    let scaled = StepAdjustment::Components(vec![mg(CookingIngredientName::Salt, 100)]);
    let result = step.execute(&scaled).unwrap();
    assert_eq!(result.tts.unwrap().en, "salt 2 teaspoon");
    assert_eq!(result.revision.unwrap().entities, vec![older]);
    // without scaled seasonings the step fails and keeps the change
    let failed = step.execute(&StepAdjustment::Unneeded).unwrap();
    assert_eq!(failed.code, SmartSpeakerTaskResultCode::StepFailed);
    assert_eq!(failed.revision.unwrap().entities.len(), 2);
}

#[test]
fn times_follow_the_measured_amount() {
    let criteria = CookingIngredientTime::new(mg(CookingIngredientName::Potato, 100), 80);
    let template = SmartSpeakerI18nText::new().en("boil {{time}}").ja("{{time}}").zh("{{time}}").ko("{{time}}");
    let mut step = ExplainRecipeAction::new(vec![], CookingActionDetail::ExplainMutableTime(criteria), template);
    step.feed(next(), Some(CookingRevision::new(vec![
        CookingRevisionEntity::new(0, CookingRevisionEntityProperty::Add(mg(CookingIngredientName::Potato, 50)))])));
    let longer = StepAdjustment::Time(Some(CookingIngredientTime::new(mg(CookingIngredientName::Potato, 100), 115)));
    let result = step.execute(&longer).unwrap();
    assert_eq!(result.tts.unwrap().en, "boil 11 minutes 30 seconds");
    assert_eq!(result.revision.unwrap().entities, vec![]);
    let unchanged = step.execute(&StepAdjustment::Time(None)).unwrap();
    assert_eq!(unchanged.tts.unwrap().en, "boil {{time}}");
}

#[test]
fn broken_templates_are_refused() {
    let template = SmartSpeakerI18nText::new().en("{{#if}}").ja("a").zh("b").ko("c");
    let mut step = ExplainRecipeAction::new(vec![], CookingActionDetail::ExplainNonMutableIngredient, template);
    step.feed(next(), None);
    assert_eq!(step.execute(&StepAdjustment::Unneeded), Err(StepError::RenderFailed));
}

#[test]
fn nothing_heard_fails_the_step() {
    let step = ExplainRecipeAction::new(vec![], CookingActionDetail::Nothing, RecipeText::ThankYou.to_i18n());
    let result = step.execute(&StepAdjustment::Unneeded).unwrap();
    assert_eq!(result.code, SmartSpeakerTaskResultCode::StepFailed);
    assert_eq!(result.tts.unwrap().en, "Thank you.");
}

#[test]
fn rendered_texts_become_results() {
    let text = SmartSpeakerI18nText::new().en("a").ja("b").zh("c").ko("d");
    let plain = rendered_result(SmartSpeakerTaskType::NonVision, Some(text.clone()), None).unwrap();
    assert_eq!(plain.code, SmartSpeakerTaskResultCode::StepSuccess);
    assert_eq!(plain.task_type, SmartSpeakerTaskType::NonVision);
    assert_eq!(plain.tts, Some(text.clone()));
    assert!(plain.revision.is_none());
    let revision = CookingRevision::new(vec![CookingRevisionEntity::new(0,
        CookingRevisionEntityProperty::Sub(mg(CookingIngredientName::Carrot, 250)))]);
    let kept = rendered_result(SmartSpeakerTaskType::Vision, Some(text.clone()), Some(revision.clone())).unwrap();
    assert_eq!(kept.task_type, SmartSpeakerTaskType::Vision);
    assert_eq!(kept.revision, Some(revision.clone()));
    assert_eq!(rendered_result(SmartSpeakerTaskType::Vision, None, Some(revision)).err(), Some(StepError::RenderFailed));
}
