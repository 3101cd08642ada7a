use vas_got_vision::config::VisionType;
use vas_got_vision::messages::{
    AudioStreamMessage, ReportTerminated, ShutdownMessage, SmartSpeakerActors, SmartSpeakerMessage, StateUpdateMessage,
    StringMessage, TextToSpeechMessage, TextToSpeechMessageType, CameraFrameMessage,
};
use vas_got_vision::routing::{initial_actor_list, CoreAction, CoreActorMessageHandler, CoreActorState, CoreLogEvent};
use vas_got_vision::state::{SmartSpeakerState, WaitingInteraction};
use vas_got_vision::vision::VisionAction;

#[test]
fn core_message_handler_shutdown_test() {
    let senders = vec![SmartSpeakerActors::CoreActor];
    let handler = CoreActorMessageHandler { debug: false };
    let message = SmartSpeakerMessage::RequestShutdown(ShutdownMessage {});
    let decision = handler.handle_message(&senders, &message);
    assert_eq!(decision.state, CoreActorState::ShutdownRequested {});
    assert_eq!(decision.actions, vec![CoreAction::Forward(SmartSpeakerActors::CoreActor)]);
}

#[test]
fn core_message_handler_terminate_test() {
    let senders = vec![SmartSpeakerActors::CoreActor];
    let handler = CoreActorMessageHandler { debug: false };
    let message = SmartSpeakerMessage::ReportTerminated(ReportTerminated {
        send_from: SmartSpeakerActors::CoreActor, send_to: SmartSpeakerActors::CoreActor });
    let decision = handler.handle_message(&senders, &message);
    assert_eq!(decision.state, CoreActorState::ActorTerminated { actor: SmartSpeakerActors::CoreActor });
}

#[test]
fn core_message_handler_audio_stream_test() {
    let senders = vec![SmartSpeakerActors::CoreActor];
    let handler = CoreActorMessageHandler { debug: false };
    let message = SmartSpeakerMessage::RequestAudioStream(AudioStreamMessage {
        send_from: SmartSpeakerActors::CoreActor,
        send_to: SmartSpeakerActors::CoreActor,
        stream: vec![],
    });
    let decision = handler.handle_message(&senders, &message);
    assert_eq!(decision.state, CoreActorState::WaitForNextMessage {});
    assert_eq!(decision.actions, vec![CoreAction::ForwardOrLog(SmartSpeakerActors::CoreActor)]);
}

fn state_update(from: SmartSpeakerActors, state: SmartSpeakerState) -> SmartSpeakerMessage {
    SmartSpeakerMessage::RequestStateUpdate(StateUpdateMessage { send_from: from, send_to: SmartSpeakerActors::CoreActor, state })
}

#[test]
fn shutdown_reaches_every_actor_in_order() {
    let senders = vec![SmartSpeakerActors::LoggerActor, SmartSpeakerActors::AudioActor, SmartSpeakerActors::ContextActor];
    let decision = CoreActorMessageHandler { debug: true }
        .handle_message(&senders, &SmartSpeakerMessage::RequestShutdown(ShutdownMessage {}));
    assert_eq!(decision.actions, vec![
        CoreAction::Forward(SmartSpeakerActors::LoggerActor),
        CoreAction::Forward(SmartSpeakerActors::AudioActor),
        CoreAction::Forward(SmartSpeakerActors::ContextActor),
    ]);
    assert_eq!(decision.state, CoreActorState::ShutdownRequested {});
}

#[test]
fn audio_from_unknown_actor_to_missing_actor_is_logged() {
    let decision = CoreActorMessageHandler { debug: false }.handle_message(&vec![SmartSpeakerActors::LoggerActor],
        &SmartSpeakerMessage::RequestAudioStream(AudioStreamMessage {
            send_from: SmartSpeakerActors::WakeWordActor, send_to: SmartSpeakerActors::AudioActor, stream: vec![1, 2] }));
    assert_eq!(decision.actions, vec![
        CoreAction::Log(CoreLogEvent::AudioStreamSourceMissing { from: SmartSpeakerActors::WakeWordActor, to: SmartSpeakerActors::AudioActor }),
        CoreAction::Log(CoreLogEvent::AudioStreamUndeliverable { from: SmartSpeakerActors::WakeWordActor, to: SmartSpeakerActors::AudioActor }),
    ]);
}

#[test]
fn speech_start_asks_for_the_recogniser_once() {
    let handler = CoreActorMessageHandler { debug: false };
    let message = state_update(SmartSpeakerActors::VoiceActivityDetectActor, SmartSpeakerState::Attention);
    let without = handler.handle_message(&vec![SmartSpeakerActors::LoggerActor], &message);
    assert_eq!(without.state, CoreActorState::NewActorRequested { actor: SmartSpeakerActors::SpeechToIntentActor, custom_args: None });
    let with = handler.handle_message(&vec![SmartSpeakerActors::LoggerActor, SmartSpeakerActors::SpeechToIntentActor], &message);
    assert_eq!(with.state, CoreActorState::WaitForNextMessage {});
    assert_eq!(with.actions, vec![CoreAction::Log(CoreLogEvent::StateUpdate {
        from: SmartSpeakerActors::VoiceActivityDetectActor, state: SmartSpeakerState::Attention })]);
}

#[test]
fn context_states_ask_for_listeners() {
    let handler = CoreActorMessageHandler { debug: false };
    let idle = handler.handle_message(&vec![], &state_update(SmartSpeakerActors::ContextActor, SmartSpeakerState::Idle));
    assert_eq!(idle.state, CoreActorState::NewActorRequested { actor: SmartSpeakerActors::WakeWordActor, custom_args: None });
    let speak = handler.handle_message(&vec![],
        &state_update(SmartSpeakerActors::ContextActor, SmartSpeakerState::WaitingForInteraction(WaitingInteraction::Speak)));
    assert_eq!(speak.state, CoreActorState::NewActorRequested { actor: SmartSpeakerActors::VoiceActivityDetectActor, custom_args: None });
    let vision = handler.handle_message(&vec![SmartSpeakerActors::VisionActor],
        &state_update(SmartSpeakerActors::ContextActor,
            SmartSpeakerState::WaitingForInteraction(WaitingInteraction::Vision(vec![VisionAction::Nothing]))));
    assert_eq!(vision.state, CoreActorState::WaitForNextMessage {});
    assert_eq!(vision.actions[1], CoreAction::Forward(SmartSpeakerActors::VisionActor));
}

#[test]
fn wake_word_has_the_speaker_answer() {
    let decision = CoreActorMessageHandler { debug: true }.handle_message(&vec![SmartSpeakerActors::MachineSpeechActor],
        &state_update(SmartSpeakerActors::WakeWordActor, SmartSpeakerState::Attention));
    assert_eq!(decision.actions, vec![
        CoreAction::Log(CoreLogEvent::StateUpdate { from: SmartSpeakerActors::WakeWordActor, state: SmartSpeakerState::Attention }),
        CoreAction::ShowDebug,
        CoreAction::Send(SmartSpeakerActors::MachineSpeechActor, SmartSpeakerMessage::RequestTextToSpeech(TextToSpeechMessage {
            send_from: SmartSpeakerActors::WakeWordActor,
            send_to: SmartSpeakerActors::MachineSpeechActor,
            message: TextToSpeechMessageType::Boilerplate(1),
        })),
    ]);
}

#[test]
fn said_texts_go_to_the_context() {
    let handler = CoreActorMessageHandler { debug: false };
    let said = |to| SmartSpeakerMessage::TextToSpeechFinished(StringMessage {
        send_from: SmartSpeakerActors::MachineSpeechActor, send_to: to, message: String::new() });
    let to_context = handler.handle_message(&vec![SmartSpeakerActors::ContextActor], &said(SmartSpeakerActors::ContextActor));
    assert_eq!(to_context.actions[1], CoreAction::Forward(SmartSpeakerActors::ContextActor));
    let to_core = handler.handle_message(&vec![SmartSpeakerActors::ContextActor], &said(SmartSpeakerActors::CoreActor));
    assert_eq!(to_core.actions.len(), 1);
    let to_wake = handler.handle_message(&vec![], &said(SmartSpeakerActors::WakeWordActor));
    assert_eq!(to_wake.state, CoreActorState::NewActorRequested { actor: SmartSpeakerActors::SpeechToIntentActor, custom_args: None });
}

#[test]
fn frames_are_shown_only_in_debug() {
    let frame = SmartSpeakerMessage::RequestCameraFrame(CameraFrameMessage {
        send_from: SmartSpeakerActors::CameraActor, send_to: SmartSpeakerActors::VisionActor, frame_data_bytes: vec![0; 4], height: 2 });
    let shown = CoreActorMessageHandler { debug: true }.handle_message(&vec![SmartSpeakerActors::VisionActor], &frame);
    assert_eq!(shown.actions, vec![CoreAction::ShowDebug, CoreAction::Forward(SmartSpeakerActors::VisionActor)]);
    let hidden = CoreActorMessageHandler { debug: false }.handle_message(&vec![], &frame);
    assert!(hidden.actions.is_empty());
}

#[test]
fn initial_actors() {
    assert_eq!(initial_actor_list(VisionType::Nothing, false).len(), 5);
    assert_eq!(initial_actor_list(VisionType::Pupil, true), vec![
        SmartSpeakerActors::LoggerActor, SmartSpeakerActors::AudioActor, SmartSpeakerActors::WakeWordActor,
        SmartSpeakerActors::ContextActor, SmartSpeakerActors::MachineSpeechActor, SmartSpeakerActors::CameraActor,
        SmartSpeakerActors::VisionActor, SmartSpeakerActors::GazeActor,
    ]);
}
