use vas_got_vision::agent::{select_action, mic_step, ActionType, AgentAction, CommonMessage, Config, IntentType, MicEvent};
use vas_got_vision::config::LanguageTag;
use vas_got_vision::i18n::SmartSpeakerI18nText;
use vas_got_vision::intent::{IntentAction, IntentCookingMenu, IntentSlot};
use vas_got_vision::marker::{IngredientMarker, PupilTopic, TopicError};
use vas_got_vision::messages::{ProcessResult, SmartSpeakerActors, SmartSpeakerMessage, StringMessage, TextToSpeechMessage, TextToSpeechMessageType};
use vas_got_vision::recognition::{intent_from_inference, SpeechInference, StreamFilter};
use vas_got_vision::speech::{needs_slow_rate, speech_job, startup_speech, MachineSpeechBoilerplate, SpeechError};

#[test]
fn recognised_speech() {
    let inference = SpeechInference {
        intent: Some("料理作業".to_string()),
        slots: vec![("menu_name".to_string(), "にんじんサラダ".to_string()), ("count".to_string(), "2".to_string())],
    };
    let (result, content) = intent_from_inference(&Some(inference));
    assert_eq!(result, ProcessResult::Success);
    assert_eq!(content.intent, IntentAction::CookingTask);
    assert_eq!(content.entities, vec![IntentSlot::Menu(IntentCookingMenu::CarrotSalad)]);
    let (unknown, empty) = intent_from_inference(&Some(SpeechInference { intent: Some("dance".to_string()), slots: vec![] }));
    assert_eq!(unknown, ProcessResult::Failure);
    assert_eq!(empty.intent, IntentAction::Nothing);
    assert_eq!(intent_from_inference(&None).0, ProcessResult::Failure);
}

#[test]
fn audio_is_looked_at_once() {
    let mut filter = StreamFilter::new();
    assert!(!filter.is_new(&vec![]));
    assert!(filter.is_new(&vec![1, 2, 3]));
    assert!(!filter.is_new(&vec![1, 2, 3]));
    assert!(filter.is_new(&vec![1, 2]));
    assert_eq!(filter.previous, vec![1, 2]);
}

#[test]
fn what_the_speaker_says() {
    let request = SmartSpeakerMessage::RequestTextToSpeech(TextToSpeechMessage {
        send_from: SmartSpeakerActors::ContextActor,
        send_to: SmartSpeakerActors::MachineSpeechActor,
        message: TextToSpeechMessageType::Boilerplate(4),
    });
    let job = speech_job(&request).unwrap();
    assert_eq!(job.text.en, "Aborted.");
    assert_eq!(job.notify, Some(SmartSpeakerActors::ContextActor));
    let plain = speech_job(&SmartSpeakerMessage::StringMessage(StringMessage {
        send_from: SmartSpeakerActors::CoreActor, send_to: SmartSpeakerActors::MachineSpeechActor, message: "hello".to_string() })).unwrap();
    assert_eq!(plain.text.ko, "hello");
    assert_eq!(plain.notify, None);
    assert_eq!(startup_speech().text.ja, "起動しました。");
    assert_eq!(MachineSpeechBoilerplate::try_from(7), Err(SpeechError::InvalidIndex));
    assert_eq!(MachineSpeechBoilerplate::try_from(MachineSpeechBoilerplate::WakeUp.index()), Ok(MachineSpeechBoilerplate::WakeUp));
}

#[test]
fn long_texts_are_said_slower() {
    let text = SmartSpeakerI18nText::new().en(&"a".repeat(101)).ja(&"あ".repeat(60)).zh(&"中".repeat(51)).ko("짧다");
    assert!(needs_slow_rate(&text, LanguageTag::English));
    assert!(!needs_slow_rate(&text, LanguageTag::Japanese));
    assert!(needs_slow_rate(&text, LanguageTag::Chinese));
    assert!(!needs_slow_rate(&text, LanguageTag::Korean));
}

#[test]
fn agent_settings() {
    let config = Config::from_markers(&vec![3, 7]);
    assert_eq!(config.pv_model_name, "model.rhn");
    assert_eq!(config.actions.len(), 2);
    assert_eq!(config.actions[1].name, "marker_7");
    assert_eq!(config.actions[0].to_string(), "Action Name: marker_3, Action Type: Beep, Action Command: ");
    assert_eq!(ActionType::PhilipsHue.to_string(), "Philips Hue");
    let empty = Config::new();
    assert_eq!(empty.actions.len(), 0);
    assert!(!empty.with_vision);
    let action = AgentAction { id: 1, name: "lamp".to_string(), action_type: ActionType::PhilipsHue, command: "on".to_string() };
    assert_eq!(action.to_string(), "Action Name: lamp, Action Type: Philips Hue, Action Command: on");
}

#[test]
fn agent_orders() {
    assert_eq!(IntentType::from_str("TurnOnSomething"), Ok(IntentType::TurnOnSomething));
    assert_eq!(IntentType::from_str("turnoffsomething"), Ok(IntentType::TurnOffSomething));
    assert_eq!(IntentType::from_str("jump"), Err(()));
    let heard = mic_step(false, &MicEvent::Voice(true));
    assert!(heard.listening && heard.feed_intent);
    assert_eq!(heard.message, Some(CommonMessage::HumanDetected));
    let order = mic_step(true, &MicEvent::IntentFinished(Some("turnOnSomething".to_string())));
    assert!(!order.listening);
    assert_eq!(order.message, Some(CommonMessage::OrderDetected(IntentType::TurnOnSomething)));
    assert_eq!(mic_step(true, &MicEvent::IntentPending).listening, true);
    assert_eq!(mic_step(false, &MicEvent::IntentPending).message, None);
    assert_eq!(select_action(2, 3), Some(2));
    assert_eq!(select_action(5, 3), None);
}

#[test]
fn markers_and_topics() {
    assert_eq!(IngredientMarker::from(0u32), IngredientMarker::Carrot);
    assert_eq!(IngredientMarker::from(8u32).to_string(), "green pepper");
    assert_eq!(IngredientMarker::from(42u32), IngredientMarker::Unknown);
    assert_eq!(PupilTopic::from_str("frame").unwrap(), PupilTopic::WorldFrame);
    assert_eq!(PupilTopic::from_str("gaze.2d.0.").unwrap().get_topic(), "gaze.2d.0.");
    assert_eq!(PupilTopic::from_str("pupil"), Err(TopicError::InvalidTopic));
}
