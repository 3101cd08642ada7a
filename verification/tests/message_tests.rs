use std::sync::mpsc;
use vas_got_vision::messages::{
    audio_stream_message, state_update_message, terminate_message, write_log_message, text_to_speech_boilerplate_message,
    AudioStreamMessage, ReportTerminated, SmartSpeakerActors, SmartSpeakerMessage, StateUpdateMessage, LogMessage,
    SmartSpeakerLogMessageType, TextToSpeechMessage, TextToSpeechMessageType,
};
use vas_got_vision::state::SmartSpeakerState;

#[test]
fn audio_stream_message_test() {
    let (sender, receiver) = mpsc::channel::<SmartSpeakerMessage>();
    sender.send(audio_stream_message(
        SmartSpeakerActors::WakeWordActor,
        SmartSpeakerActors::CoreActor,
        vec![],
    )).unwrap();
    let message = receiver.recv().unwrap();
    match message {
        SmartSpeakerMessage::RequestAudioStream(AudioStreamMessage { send_from, send_to, stream }) => {
            assert_eq!(send_from, SmartSpeakerActors::WakeWordActor);
            assert_eq!(send_to, SmartSpeakerActors::CoreActor);
            assert_eq!(stream, Vec::<i16>::new());
        },
        _ => {
            panic!("unexpected message");
        }
    }
}

#[test]
fn attention_message_test() {
    let (sender, receiver) = mpsc::channel::<SmartSpeakerMessage>();
    sender.send(state_update_message(
        SmartSpeakerActors::WakeWordActor,
        SmartSpeakerActors::CoreActor,
        SmartSpeakerState::Attention,
    )).unwrap();
    let message = receiver.recv().unwrap();
    match message {
        SmartSpeakerMessage::RequestStateUpdate(
            StateUpdateMessage { send_from, send_to, state: _ }) => {
            assert_eq!(send_from, SmartSpeakerActors::WakeWordActor);
            assert_eq!(send_to, SmartSpeakerActors::CoreActor);
        },
        _ => {
            panic!("unexpected message");
        }
    }
}

#[test]
fn terminate_message_test() {
    let (sender, receiver) = mpsc::channel::<SmartSpeakerMessage>();
    sender.send(terminate_message(
        SmartSpeakerActors::WakeWordActor,
    )).unwrap();
    let message = receiver.recv().unwrap();
    match message {
        SmartSpeakerMessage::ReportTerminated(ReportTerminated { send_from, send_to }) => {
            assert_eq!(send_from, SmartSpeakerActors::WakeWordActor);
            assert_eq!(send_to, SmartSpeakerActors::CoreActor);
        },
        _ => {
            panic!("unexpected message");
        }
    }
}

#[test]
fn log_and_speech_messages() {
    let log = write_log_message(SmartSpeakerActors::ContextActor, SmartSpeakerLogMessageType::Info("started".to_string()));
    assert_eq!(log, SmartSpeakerMessage::WriteLog(LogMessage {
        send_from: SmartSpeakerActors::ContextActor,
        send_to: SmartSpeakerActors::LoggerActor,
        message: SmartSpeakerLogMessageType::Info("started".to_string()),
    }));
    let speak = text_to_speech_boilerplate_message(SmartSpeakerActors::ContextActor, SmartSpeakerActors::MachineSpeechActor, 3);
    assert_eq!(speak, SmartSpeakerMessage::RequestTextToSpeech(TextToSpeechMessage {
        send_from: SmartSpeakerActors::ContextActor,
        send_to: SmartSpeakerActors::MachineSpeechActor,
        message: TextToSpeechMessageType::Boilerplate(3),
    }));
    assert_eq!(SmartSpeakerActors::VoiceActivityDetectActor.name(), "VoiceActivityDetectActor");
}
