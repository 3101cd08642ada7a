use vstd::prelude::*;
use crate::i18n::SmartSpeakerI18nText;
use crate::intent::{IntentAction, IntentSlot};
use crate::state::SmartSpeakerState;
use crate::vision::{VisionAction, VisionObject};

verus! {

/// The actors of the speaker.
#[derive(Debug, Clone, Copy, PartialEq, Eq, Hash, Structural)]
pub enum SmartSpeakerActors {
    AudioActor,
    CameraActor,
    ContextActor,
    CoreActor,
    GazeActor,
    LoggerActor,
    MachineSpeechActor,
    QueryActor,
    SpeechToIntentActor,
    StreamActor,
    VisionActor,
    VoiceActivityDetectActor,
    WakeWordActor,
}

pub open spec fn actor_name(a: SmartSpeakerActors) -> Seq<char> {
    match a {
        SmartSpeakerActors::AudioActor => "AudioActor"@,
        SmartSpeakerActors::CameraActor => "CameraActor"@,
        SmartSpeakerActors::ContextActor => "ContextActor"@,
        SmartSpeakerActors::CoreActor => "CoreActor"@,
        SmartSpeakerActors::GazeActor => "GazeActor"@,
        SmartSpeakerActors::LoggerActor => "LoggerActor"@,
        SmartSpeakerActors::MachineSpeechActor => "MachineSpeechActor"@,
        SmartSpeakerActors::QueryActor => "QueryActor"@,
        SmartSpeakerActors::SpeechToIntentActor => "SpeechToIntentActor"@,
        SmartSpeakerActors::StreamActor => "StreamActor"@,
        SmartSpeakerActors::VisionActor => "VisionActor"@,
        SmartSpeakerActors::VoiceActivityDetectActor => "VoiceActivityDetectActor"@,
        SmartSpeakerActors::WakeWordActor => "WakeWordActor"@,
    }
}

impl SmartSpeakerActors {
    /// The actor's name as it is shown.
    pub fn name(&self) -> (s: &'static str)
        ensures
            s@ == actor_name(*self),
    {
        match self {
            SmartSpeakerActors::AudioActor => "AudioActor",
            SmartSpeakerActors::CameraActor => "CameraActor",
            SmartSpeakerActors::ContextActor => "ContextActor",
            SmartSpeakerActors::CoreActor => "CoreActor",
            SmartSpeakerActors::GazeActor => "GazeActor",
            SmartSpeakerActors::LoggerActor => "LoggerActor",
            SmartSpeakerActors::MachineSpeechActor => "MachineSpeechActor",
            SmartSpeakerActors::QueryActor => "QueryActor",
            SmartSpeakerActors::SpeechToIntentActor => "SpeechToIntentActor",
            SmartSpeakerActors::StreamActor => "StreamActor",
            SmartSpeakerActors::VisionActor => "VisionActor",
            SmartSpeakerActors::VoiceActivityDetectActor => "VoiceActivityDetectActor",
            SmartSpeakerActors::WakeWordActor => "WakeWordActor",
        }
    }
}

#[derive(Debug, Clone, PartialEq)]
pub struct StringMessage {
    pub send_from: SmartSpeakerActors,
    pub send_to: SmartSpeakerActors,
    pub message: String,
}

#[derive(Debug, Clone, PartialEq)]
pub struct ActorGenerateMessage {
    pub send_from: SmartSpeakerActors,
    pub request: SmartSpeakerActors,
}

#[derive(Debug, Clone, PartialEq)]
pub struct AudioStreamMessage {
    pub send_from: SmartSpeakerActors,
    pub send_to: SmartSpeakerActors,
    pub stream: Vec<i16>,
}

#[derive(Debug, Clone, PartialEq)]
pub struct CameraFrameMessage {
    pub send_from: SmartSpeakerActors,
    pub send_to: SmartSpeakerActors,
    pub frame_data_bytes: Vec<u8>,
    pub height: i32,
}

/// A gaze position in normalised frame coordinates; each coordinate holds the bits
/// of a 32-bit floating-point number.
#[derive(Debug, Clone, Copy, PartialEq, Eq, Structural)]
pub struct GazePoint {
    pub x: u32,
    pub y: u32,
}

#[derive(Debug, Clone, PartialEq)]
pub struct GazeInfoMessage {
    pub send_from: SmartSpeakerActors,
    pub send_to: SmartSpeakerActors,
    pub gaze_info: GazePoint,
}

#[derive(Debug, Clone, PartialEq)]
pub struct ReportTerminated {
    pub send_from: SmartSpeakerActors,
    pub send_to: SmartSpeakerActors,
}

#[derive(Debug, Clone, PartialEq)]
pub struct QueryMessage {
    pub send_from: SmartSpeakerActors,
    pub send_to: SmartSpeakerActors,
    pub message: String,
}

#[derive(Debug, Clone, PartialEq)]
pub struct ShutdownMessage {}

#[derive(Debug, Clone, PartialEq)]
pub struct StateUpdateMessage {
    pub send_from: SmartSpeakerActors,
    pub send_to: SmartSpeakerActors,
    pub state: SmartSpeakerState,
}

#[derive(Debug, Clone, PartialEq)]
pub enum TextToSpeechMessageType {
    Normal(SmartSpeakerI18nText),
    Boilerplate(usize),
}

#[derive(Debug, Clone, PartialEq)]
pub struct TextToSpeechMessage {
    pub send_from: SmartSpeakerActors,
    pub send_to: SmartSpeakerActors,
    pub message: TextToSpeechMessageType,
}

#[derive(Debug, Clone, PartialEq)]
pub enum SmartSpeakerLogMessageType {
    Debug(String),
    Info(String),
    Warn(String),
    Error(String),
}

#[derive(Debug, Clone, PartialEq)]
pub struct LogMessage {
    pub send_from: SmartSpeakerActors,
    pub send_to: SmartSpeakerActors,
    pub message: SmartSpeakerLogMessageType,
}

#[derive(Debug, Clone, PartialEq)]
pub struct VisionActionMessage {
    pub send_from: SmartSpeakerActors,
    pub send_to: SmartSpeakerActors,
    pub actions: Vec<VisionAction>,
}

/// Whether recognising speech or vision succeeded.
#[derive(Debug, Clone, Copy, PartialEq, Eq, Structural)]
pub enum ProcessResult {
    Success,
    Failure,
}

/// What was recognised in speech.
#[derive(Debug, PartialEq)]
pub struct IntentContent {
    pub intent: IntentAction,
    pub entities: Vec<IntentSlot>,
}

/// What the vision found.
#[derive(Debug, PartialEq)]
pub struct VisionContent {
    pub action: VisionAction,
    pub entities: Vec<VisionObject>,
}

/// Input that a task step can take.
#[derive(Debug, PartialEq)]
pub enum Content {
    Intent(IntentContent),
    Vision(VisionContent),
}

/// What was recognised in speech, as plain values.
pub struct IntentContentView {
    pub intent: IntentAction,
    pub entities: Seq<IntentSlot>,
}

/// What the vision found, as plain values.
pub struct VisionContentView {
    pub action: VisionAction,
    pub entities: Seq<VisionObject>,
}

/// Content as plain values.
pub enum ContentView {
    Intent(IntentContentView),
    Vision(VisionContentView),
}

impl View for IntentContent {
    type V = IntentContentView;

    open spec fn view(&self) -> IntentContentView {
        IntentContentView { intent: self.intent, entities: self.entities@ }
    }
}

impl View for VisionContent {
    type V = VisionContentView;

    open spec fn view(&self) -> VisionContentView {
        VisionContentView { action: self.action, entities: self.entities@ }
    }
}

impl View for Content {
    type V = ContentView;

    open spec fn view(&self) -> ContentView {
        match self {
            Content::Intent(c) => ContentView::Intent(c@),
            Content::Vision(c) => ContentView::Vision(c@),
        }
    }
}

/// The kinds of content.
#[derive(Debug, Clone, Copy, PartialEq, Eq, Structural)]
pub enum ContentType {
    Nothing,
    Intent,
    Vision,
}

/// A copy of a vector of copyable values.
pub fn copy_vec<T: Copy>(v: &Vec<T>) -> (r: Vec<T>)
    ensures
        r@ == v@,
{
    let mut r: Vec<T> = Vec::new();
    let mut i: usize = 0;
    while i < v.len()
        invariant
            i <= v@.len(),
            r@ == v@.subrange(0, i as int),
        decreases v@.len() - i,
    {
        r.push(v[i]);
        i = i + 1;
    }
    assert(r@ =~= v@);
    r
}

impl IntentContent {
    pub fn new(intent: IntentAction, entities: Vec<IntentSlot>) -> (r: Self)
        ensures
            r.intent == intent,
            r.entities@ == entities@,
    {
        IntentContent { intent, entities }
    }
}

impl Clone for IntentContent {
    fn clone(&self) -> (r: Self)
        ensures
            r@ == self@,
    {
        IntentContent { intent: self.intent, entities: copy_vec(&self.entities) }
    }
}

impl VisionContent {
    pub fn new(action: VisionAction, entities: Vec<VisionObject>) -> (r: Self)
        ensures
            r.action == action,
            r.entities@ == entities@,
    {
        VisionContent { action, entities }
    }
}

impl Clone for VisionContent {
    fn clone(&self) -> (r: Self)
        ensures
            r@ == self@,
    {
        VisionContent { action: self.action, entities: copy_vec(&self.entities) }
    }
}

impl Clone for Content {
    fn clone(&self) -> (r: Self)
        ensures
            r@ == self@,
    {
        match self {
            Content::Intent(c) => Content::Intent(c.clone()),
            Content::Vision(c) => Content::Vision(c.clone()),
        }
    }
}

#[derive(Debug, Clone, PartialEq)]
pub struct IntentFinalizedMessage {
    pub send_from: SmartSpeakerActors,
    pub send_to: SmartSpeakerActors,
    pub result: ProcessResult,
    pub content: IntentContent,
}

#[derive(Debug, Clone, PartialEq)]
pub struct VisionFinalizedMessage {
    pub send_from: SmartSpeakerActors,
    pub send_to: SmartSpeakerActors,
    pub result: ProcessResult,
    pub contents: Vec<VisionContent>,
}

/// The messages that the actors exchange.
#[derive(Debug, Clone, PartialEq)]
pub enum SmartSpeakerMessage {
    StringMessage(StringMessage),
    RequestActorGenerate(ActorGenerateMessage),
    RequestAudioStream(AudioStreamMessage),
    RequestCameraFrame(CameraFrameMessage),
    RequestGazeInfo(GazeInfoMessage),
    ReportTerminated(ReportTerminated),
    RequestQuery(QueryMessage),
    RequestShutdown(ShutdownMessage),
    RequestStateUpdate(StateUpdateMessage),
    RequestTextToSpeech(TextToSpeechMessage),
    RequestVisionAction(VisionActionMessage),
    IntentFinalized(IntentFinalizedMessage),
    VisionFinalized(VisionFinalizedMessage),
    TextToSpeechFinished(StringMessage),
    WriteLog(LogMessage),
}

/// A request for (or a delivery of) audio samples.
pub fn audio_stream_message(send_from: SmartSpeakerActors, send_to: SmartSpeakerActors, stream: Vec<i16>) -> (m: SmartSpeakerMessage)
    ensures
        m == SmartSpeakerMessage::RequestAudioStream(AudioStreamMessage { send_from, send_to, stream }),
{
    SmartSpeakerMessage::RequestAudioStream(AudioStreamMessage { send_from, send_to, stream })
}

/// A request for (or a delivery of) a camera frame.
pub fn camera_frame_message(send_from: SmartSpeakerActors, send_to: SmartSpeakerActors, frame_data_bytes: Vec<u8>, height: i32) -> (m: SmartSpeakerMessage)
    ensures
        m == SmartSpeakerMessage::RequestCameraFrame(CameraFrameMessage { send_from, send_to, frame_data_bytes, height }),
{
    SmartSpeakerMessage::RequestCameraFrame(CameraFrameMessage { send_from, send_to, frame_data_bytes, height })
}

/// A request that an actor be started.
pub fn generate_actor_message(send_from: SmartSpeakerActors, request: SmartSpeakerActors) -> (m: SmartSpeakerMessage)
    ensures
        m == SmartSpeakerMessage::RequestActorGenerate(ActorGenerateMessage { send_from, request }),
{
    SmartSpeakerMessage::RequestActorGenerate(ActorGenerateMessage { send_from, request })
}

/// A request for (or a delivery of) the gaze position.
pub fn gaze_info_message(send_from: SmartSpeakerActors, send_to: SmartSpeakerActors, gaze_info: GazePoint) -> (m: SmartSpeakerMessage)
    ensures
        m == SmartSpeakerMessage::RequestGazeInfo(GazeInfoMessage { send_from, send_to, gaze_info }),
{
    SmartSpeakerMessage::RequestGazeInfo(GazeInfoMessage { send_from, send_to, gaze_info })
}

/// A report of a new state.
pub fn state_update_message(send_from: SmartSpeakerActors, send_to: SmartSpeakerActors, state: SmartSpeakerState) -> (m: SmartSpeakerMessage)
    ensures
        m == SmartSpeakerMessage::RequestStateUpdate(StateUpdateMessage { send_from, send_to, state }),
{
    SmartSpeakerMessage::RequestStateUpdate(StateUpdateMessage { send_from, send_to, state })
}

/// A report of recognised speech.
pub fn intent_finalized_message(send_from: SmartSpeakerActors, send_to: SmartSpeakerActors, result: ProcessResult, content: IntentContent) -> (m: SmartSpeakerMessage)
    ensures
        m == SmartSpeakerMessage::IntentFinalized(IntentFinalizedMessage { send_from, send_to, result, content }),
{
    SmartSpeakerMessage::IntentFinalized(IntentFinalizedMessage { send_from, send_to, result, content })
}

/// A report of what the vision found.
pub fn vision_finalized_message(send_from: SmartSpeakerActors, send_to: SmartSpeakerActors, result: ProcessResult, contents: Vec<VisionContent>) -> (m: SmartSpeakerMessage)
    ensures
        m == SmartSpeakerMessage::VisionFinalized(VisionFinalizedMessage { send_from, send_to, result, contents }),
{
    SmartSpeakerMessage::VisionFinalized(VisionFinalizedMessage { send_from, send_to, result, contents })
}

/// A request to say a text.
pub fn text_to_speech_message(send_from: SmartSpeakerActors, send_to: SmartSpeakerActors, i18n: SmartSpeakerI18nText) -> (m: SmartSpeakerMessage)
    ensures
        m == SmartSpeakerMessage::RequestTextToSpeech(TextToSpeechMessage { send_from, send_to, message: TextToSpeechMessageType::Normal(i18n) }),
{
    SmartSpeakerMessage::RequestTextToSpeech(TextToSpeechMessage { send_from, send_to, message: TextToSpeechMessageType::Normal(i18n) })
}

/// A request to say one of the fixed phrases.
pub fn text_to_speech_boilerplate_message(send_from: SmartSpeakerActors, send_to: SmartSpeakerActors, index: usize) -> (m: SmartSpeakerMessage)
    ensures
        m == SmartSpeakerMessage::RequestTextToSpeech(TextToSpeechMessage { send_from, send_to, message: TextToSpeechMessageType::Boilerplate(index) }),
{
    SmartSpeakerMessage::RequestTextToSpeech(TextToSpeechMessage { send_from, send_to, message: TextToSpeechMessageType::Boilerplate(index) })
}

/// A report that a text was said.
pub fn text_to_speech_finished_message(send_from: SmartSpeakerActors, send_to: SmartSpeakerActors, message: String) -> (m: SmartSpeakerMessage)
    ensures
        m == SmartSpeakerMessage::TextToSpeechFinished(StringMessage { send_from, send_to, message }),
{
    SmartSpeakerMessage::TextToSpeechFinished(StringMessage { send_from, send_to, message })
}

/// A report, to the core, that an actor stopped.
pub fn terminate_message(send_from: SmartSpeakerActors) -> (m: SmartSpeakerMessage)
    ensures
        m == SmartSpeakerMessage::ReportTerminated(ReportTerminated { send_from, send_to: SmartSpeakerActors::CoreActor }),
{
    SmartSpeakerMessage::ReportTerminated(ReportTerminated { send_from, send_to: SmartSpeakerActors::CoreActor })
}

/// A line for the log.
pub fn write_log_message(send_from: SmartSpeakerActors, message: SmartSpeakerLogMessageType) -> (m: SmartSpeakerMessage)
    ensures
        m == SmartSpeakerMessage::WriteLog(LogMessage { send_from, send_to: SmartSpeakerActors::LoggerActor, message }),
{
    SmartSpeakerMessage::WriteLog(LogMessage { send_from, send_to: SmartSpeakerActors::LoggerActor, message })
}

} // verus!
