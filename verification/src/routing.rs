use vstd::prelude::*;
use crate::config::VisionType;
use crate::messages::{SmartSpeakerActors, SmartSpeakerMessage, TextToSpeechMessage, TextToSpeechMessageType,
    text_to_speech_boilerplate_message};
use crate::speech::{MachineSpeechBoilerplate, boilerplate_index};
use crate::state::{SmartSpeakerState, StateView, WaitingInteraction, WaitingView};

verus! {

/// What the core does next after a message.
#[derive(Debug, PartialEq)]
pub enum CoreActorState {
    ActorTerminated { actor: SmartSpeakerActors },
    NewActorRequested { actor: SmartSpeakerActors, custom_args: Option<String> },
    WaitForNextMessage {},
    ShutdownRequested {},
}

/// An event the core writes to the log.
#[derive(Debug, PartialEq)]
pub enum CoreLogEvent {
    /// An actor reported that it stopped.
    Terminated { from: SmartSpeakerActors, to: SmartSpeakerActors },
    /// Audio came from an actor the core does not know.
    AudioStreamSourceMissing { from: SmartSpeakerActors, to: SmartSpeakerActors },
    /// Audio could not be delivered.
    AudioStreamUndeliverable { from: SmartSpeakerActors, to: SmartSpeakerActors },
    /// An actor reported a new state.
    StateUpdate { from: SmartSpeakerActors, state: SmartSpeakerState },
    /// A text was said.
    TextToSpeechFinished { from: SmartSpeakerActors, to: SmartSpeakerActors },
}

/// Something the core has done on its channels.
#[derive(Debug, PartialEq)]
pub enum CoreAction {
    /// Send the message being handled to the actor; a failed send is fatal.
    Forward(SmartSpeakerActors),
    /// Send the message being handled to the actor; a failed send is logged as
    /// undeliverable audio.
    ForwardOrLog(SmartSpeakerActors),
    /// Send a new message to the actor; a failed send is fatal.
    Send(SmartSpeakerActors, SmartSpeakerMessage),
    /// Write the event to the log through the logger actor.
    Log(CoreLogEvent),
    /// Show the message's frame, gaze or state in the debug view.
    ShowDebug,
}

/// A log event as plain values.
pub enum LogView {
    Terminated(SmartSpeakerActors, SmartSpeakerActors),
    AudioStreamSourceMissing(SmartSpeakerActors, SmartSpeakerActors),
    AudioStreamUndeliverable(SmartSpeakerActors, SmartSpeakerActors),
    StateUpdate(SmartSpeakerActors, StateView),
    TextToSpeechFinished(SmartSpeakerActors, SmartSpeakerActors),
}

/// A core action as plain values.
pub enum ActionView {
    Forward(SmartSpeakerActors),
    ForwardOrLog(SmartSpeakerActors),
    Send(SmartSpeakerActors, SmartSpeakerMessage),
    Log(LogView),
    ShowDebug,
}

impl View for CoreLogEvent {
    type V = LogView;

    open spec fn view(&self) -> LogView {
        match self {
            CoreLogEvent::Terminated { from, to } => LogView::Terminated(*from, *to),
            CoreLogEvent::AudioStreamSourceMissing { from, to } => LogView::AudioStreamSourceMissing(*from, *to),
            CoreLogEvent::AudioStreamUndeliverable { from, to } => LogView::AudioStreamUndeliverable(*from, *to),
            CoreLogEvent::StateUpdate { from, state } => LogView::StateUpdate(*from, state@),
            CoreLogEvent::TextToSpeechFinished { from, to } => LogView::TextToSpeechFinished(*from, *to),
        }
    }
}

impl View for CoreAction {
    type V = ActionView;

    open spec fn view(&self) -> ActionView {
        match self {
            CoreAction::Forward(a) => ActionView::Forward(*a),
            CoreAction::ForwardOrLog(a) => ActionView::ForwardOrLog(*a),
            CoreAction::Send(a, m) => ActionView::Send(*a, *m),
            CoreAction::Log(e) => ActionView::Log(e@),
            CoreAction::ShowDebug => ActionView::ShowDebug,
        }
    }
}

/// What the core decided on a message: its actions, in order, and what it does next.
#[derive(Debug, PartialEq)]
pub struct CoreDecision {
    pub actions: Vec<CoreAction>,
    pub state: CoreActorState,
}

/// The views of a list of actions.
pub open spec fn actions_view(v: Seq<CoreAction>) -> Seq<ActionView> {
    v.map_values(|a: CoreAction| a@)
}

/// Forwarding to `a` where it runs.
pub open spec fn forward_if(present: Seq<SmartSpeakerActors>, a: SmartSpeakerActors) -> Seq<ActionView> {
    if present.contains(a) { seq![ActionView::Forward(a)] } else { Seq::empty() }
}

/// Asking for `a` where it does not run.
pub open spec fn request_if_absent(present: Seq<SmartSpeakerActors>, a: SmartSpeakerActors) -> CoreActorState {
    if present.contains(a) {
        CoreActorState::WaitForNextMessage {}
    } else {
        CoreActorState::NewActorRequested { actor: a, custom_args: None }
    }
}

/// The message that has the wake-up phrase said.
pub open spec fn wake_up_message() -> SmartSpeakerMessage {
    SmartSpeakerMessage::RequestTextToSpeech(TextToSpeechMessage {
        send_from: SmartSpeakerActors::WakeWordActor,
        send_to: SmartSpeakerActors::MachineSpeechActor,
        message: TextToSpeechMessageType::Boilerplate(boilerplate_index(MachineSpeechBoilerplate::WakeUp)),
    })
}

/// What the core does next after `m`, with the actors in `present` running: it
/// shuts down on a shutdown request, drops an actor that stopped, and asks for the
/// actor the speaker needs next where it does not run (the speech recogniser once
/// speech started or the wake word was said, the wake word detector when the
/// speaker is idle, the voice activity detector when it waits for speech).
pub open spec fn core_state(m: SmartSpeakerMessage, present: Seq<SmartSpeakerActors>) -> CoreActorState {
    match m {
        SmartSpeakerMessage::RequestShutdown(_) => CoreActorState::ShutdownRequested {},
        SmartSpeakerMessage::ReportTerminated(r) => CoreActorState::ActorTerminated { actor: r.send_from },
        SmartSpeakerMessage::RequestStateUpdate(u) => match u.send_from {
            SmartSpeakerActors::VoiceActivityDetectActor => request_if_absent(present, SmartSpeakerActors::SpeechToIntentActor),
            SmartSpeakerActors::ContextActor => match u.state@ {
                StateView::Idle => request_if_absent(present, SmartSpeakerActors::WakeWordActor),
                StateView::WaitingForInteraction(WaitingView::Speak) => request_if_absent(present, SmartSpeakerActors::VoiceActivityDetectActor),
                _ => CoreActorState::WaitForNextMessage {},
            },
            _ => CoreActorState::WaitForNextMessage {},
        },
        SmartSpeakerMessage::TextToSpeechFinished(s) =>
            if s.send_to == SmartSpeakerActors::WakeWordActor && !present.contains(SmartSpeakerActors::WakeWordActor) {
                request_if_absent(present, SmartSpeakerActors::SpeechToIntentActor)
            } else {
                CoreActorState::WaitForNextMessage {}
            },
        _ => CoreActorState::WaitForNextMessage {},
    }
}

/// What the core does on its channels for `m`, with the actors in `present`
/// running and the debug view shown or not: a shutdown request goes to every
/// actor; frames, gaze, queries, texts, logs and speech go on to the actor they
/// are for (speech to the speaker, recognised speech and seen objects to the
/// context, said texts to the context unless they were the wake word's or the
/// core's own); the wake word has the wake-up phrase said; a wait for the vision
/// goes to the vision actor; stops, state updates and said texts are logged.
pub open spec fn core_actions(m: SmartSpeakerMessage, present: Seq<SmartSpeakerActors>, debug: bool) -> Seq<ActionView> {
    match m {
        SmartSpeakerMessage::RequestShutdown(_) => present.map_values(|a: SmartSpeakerActors| ActionView::Forward(a)),
        SmartSpeakerMessage::ReportTerminated(r) => seq![ActionView::Log(LogView::Terminated(r.send_from, r.send_to))],
        SmartSpeakerMessage::RequestAudioStream(s) =>
            (if present.contains(s.send_from) { Seq::empty() } else { seq![ActionView::Log(LogView::AudioStreamSourceMissing(s.send_from, s.send_to))] })
            + (if present.contains(s.send_to) {
                seq![ActionView::ForwardOrLog(s.send_to)]
            } else {
                seq![ActionView::Log(LogView::AudioStreamUndeliverable(s.send_from, s.send_to))]
            }),
        SmartSpeakerMessage::RequestCameraFrame(c) =>
            (if debug && c.send_from == SmartSpeakerActors::CameraActor { seq![ActionView::ShowDebug] } else { Seq::empty() })
            + forward_if(present, c.send_to),
        SmartSpeakerMessage::RequestGazeInfo(g) =>
            (if debug && g.send_from == SmartSpeakerActors::GazeActor { seq![ActionView::ShowDebug] } else { Seq::empty() })
            + forward_if(present, g.send_to),
        SmartSpeakerMessage::RequestQuery(q) => forward_if(present, q.send_to),
        SmartSpeakerMessage::RequestStateUpdate(u) =>
            seq![ActionView::Log(LogView::StateUpdate(u.send_from, u.state@))]
            + (if debug { seq![ActionView::ShowDebug] } else { Seq::empty() })
            + match u.send_from {
                SmartSpeakerActors::WakeWordActor =>
                    if present.contains(SmartSpeakerActors::MachineSpeechActor) {
                        seq![ActionView::Send(SmartSpeakerActors::MachineSpeechActor, wake_up_message())]
                    } else {
                        Seq::empty()
                    },
                SmartSpeakerActors::ContextActor => match u.state@ {
                    StateView::WaitingForInteraction(WaitingView::Vision(_)) => forward_if(present, SmartSpeakerActors::VisionActor),
                    _ => Seq::empty(),
                },
                _ => Seq::empty(),
            },
        SmartSpeakerMessage::RequestTextToSpeech(_) => forward_if(present, SmartSpeakerActors::MachineSpeechActor),
        SmartSpeakerMessage::IntentFinalized(_) => forward_if(present, SmartSpeakerActors::ContextActor),
        SmartSpeakerMessage::VisionFinalized(_) => forward_if(present, SmartSpeakerActors::ContextActor),
        SmartSpeakerMessage::TextToSpeechFinished(s) =>
            seq![ActionView::Log(LogView::TextToSpeechFinished(s.send_from, s.send_to))]
            + (if s.send_to == SmartSpeakerActors::WakeWordActor || s.send_to == SmartSpeakerActors::CoreActor {
                Seq::empty()
            } else {
                forward_if(present, SmartSpeakerActors::ContextActor)
            }),
        SmartSpeakerMessage::StringMessage(s) => forward_if(present, s.send_to),
        SmartSpeakerMessage::WriteLog(l) => forward_if(present, l.send_to),
        _ => Seq::empty(),
    }
}

/// Whether `a` is among the running actors.
pub fn is_present(present: &Vec<SmartSpeakerActors>, a: SmartSpeakerActors) -> (r: bool)
    ensures
        r == present@.contains(a),
{
    let mut i: usize = 0;
    while i < present.len()
        invariant
            i <= present@.len(),
            forall|j: int| 0 <= j < i ==> present@[j] != a,
        decreases present@.len() - i,
    {
        if present[i] == a {
            return true;
        }
        i = i + 1;
    }
    false
}

fn push_action(actions: &mut Vec<CoreAction>, a: CoreAction)
    ensures
        actions_view(final(actions)@) == actions_view(old(actions)@).push(a@),
{
    let ghost before = actions@;
    actions.push(a);
    assert(actions_view(actions@) =~= actions_view(before).push(a@));
}

fn forward_to(actions: &mut Vec<CoreAction>, present: &Vec<SmartSpeakerActors>, a: SmartSpeakerActors)
    ensures
        actions_view(final(actions)@) == actions_view(old(actions)@) + forward_if(present@, a),
{
    let ghost before = actions_view(actions@);
    if is_present(present, a) {
        push_action(actions, CoreAction::Forward(a));
    }
    assert(actions_view(actions@) =~= before + forward_if(present@, a));
}

fn request_absent(present: &Vec<SmartSpeakerActors>, a: SmartSpeakerActors) -> (r: CoreActorState)
    ensures
        r == request_if_absent(present@, a),
{
    if is_present(present, a) {
        CoreActorState::WaitForNextMessage {}
    } else {
        CoreActorState::NewActorRequested { actor: a, custom_args: None }
    }
}

/// A copy of the speaker's state.
pub fn copy_state(s: &SmartSpeakerState) -> (r: SmartSpeakerState)
    ensures
        r@ == s@,
{
    match s {
        SmartSpeakerState::Idle => SmartSpeakerState::Idle,
        SmartSpeakerState::Attention => SmartSpeakerState::Attention,
        SmartSpeakerState::WaitingForInteraction(w) => SmartSpeakerState::WaitingForInteraction(w.clone()),
        SmartSpeakerState::Speaking => SmartSpeakerState::Speaking,
    }
}

/// Decides what the core does with the messages it routes.
#[derive(Debug, PartialEq)]
pub struct CoreActorMessageHandler {
    /// Whether the debug view is shown.
    pub debug: bool,
}

impl CoreActorMessageHandler {
    /// What the core does for `message`, with the actors in `present` running.
    pub fn handle_message(&self, present: &Vec<SmartSpeakerActors>, message: &SmartSpeakerMessage) -> (r: CoreDecision)
        ensures
            actions_view(r.actions@) == core_actions(*message, present@, self.debug),
            r.state == core_state(*message, present@),
    {
        let mut actions: Vec<CoreAction> = Vec::new();
        assert(actions_view(actions@) =~= Seq::<ActionView>::empty());
        let state = match message {
            SmartSpeakerMessage::RequestShutdown(_) => {
                let mut i: usize = 0;
                while i < present.len()
                    invariant
                        i <= present@.len(),
                        actions_view(actions@) =~= present@.take(i as int).map_values(|a: SmartSpeakerActors| ActionView::Forward(a)),
                    decreases present@.len() - i,
                {
                    push_action(&mut actions, CoreAction::Forward(present[i]));
                    assert(present@.take(i as int + 1) =~= present@.take(i as int).push(present@[i as int]));
                    i = i + 1;
                }
                assert(present@.take(present@.len() as int) =~= present@);
                CoreActorState::ShutdownRequested {}
            },
            SmartSpeakerMessage::ReportTerminated(r) => {
                push_action(&mut actions, CoreAction::Log(CoreLogEvent::Terminated { from: r.send_from, to: r.send_to }));
                CoreActorState::ActorTerminated { actor: r.send_from }
            },
            SmartSpeakerMessage::RequestAudioStream(s) => {
                if !is_present(present, s.send_from) {
                    push_action(&mut actions, CoreAction::Log(CoreLogEvent::AudioStreamSourceMissing { from: s.send_from, to: s.send_to }));
                }
                if is_present(present, s.send_to) {
                    push_action(&mut actions, CoreAction::ForwardOrLog(s.send_to));
                } else {
                    push_action(&mut actions, CoreAction::Log(CoreLogEvent::AudioStreamUndeliverable { from: s.send_from, to: s.send_to }));
                }
                CoreActorState::WaitForNextMessage {}
            },
            SmartSpeakerMessage::RequestCameraFrame(c) => {
                if self.debug && c.send_from == SmartSpeakerActors::CameraActor {
                    push_action(&mut actions, CoreAction::ShowDebug);
                }
                forward_to(&mut actions, present, c.send_to);
                CoreActorState::WaitForNextMessage {}
            },
            SmartSpeakerMessage::RequestGazeInfo(g) => {
                if self.debug && g.send_from == SmartSpeakerActors::GazeActor {
                    push_action(&mut actions, CoreAction::ShowDebug);
                }
                forward_to(&mut actions, present, g.send_to);
                CoreActorState::WaitForNextMessage {}
            },
            SmartSpeakerMessage::RequestQuery(q) => {
                forward_to(&mut actions, present, q.send_to);
                CoreActorState::WaitForNextMessage {}
            },
            SmartSpeakerMessage::RequestStateUpdate(u) => {
                push_action(&mut actions, CoreAction::Log(CoreLogEvent::StateUpdate { from: u.send_from, state: copy_state(&u.state) }));
                if self.debug {
                    push_action(&mut actions, CoreAction::ShowDebug);
                }
                match u.send_from {
                    SmartSpeakerActors::WakeWordActor => {
                        if is_present(present, SmartSpeakerActors::MachineSpeechActor) {
                            let m = text_to_speech_boilerplate_message(
                                SmartSpeakerActors::WakeWordActor,
                                SmartSpeakerActors::MachineSpeechActor,
                                MachineSpeechBoilerplate::WakeUp.index(),
                            );
                            push_action(&mut actions, CoreAction::Send(SmartSpeakerActors::MachineSpeechActor, m));
                        }
                        CoreActorState::WaitForNextMessage {}
                    },
                    SmartSpeakerActors::VoiceActivityDetectActor => request_absent(present, SmartSpeakerActors::SpeechToIntentActor),
                    SmartSpeakerActors::ContextActor => match &u.state {
                        SmartSpeakerState::Idle => request_absent(present, SmartSpeakerActors::WakeWordActor),
                        SmartSpeakerState::WaitingForInteraction(WaitingInteraction::Speak) =>
                            request_absent(present, SmartSpeakerActors::VoiceActivityDetectActor),
                        SmartSpeakerState::WaitingForInteraction(WaitingInteraction::Vision(_)) => {
                            forward_to(&mut actions, present, SmartSpeakerActors::VisionActor);
                            CoreActorState::WaitForNextMessage {}
                        },
                        _ => CoreActorState::WaitForNextMessage {},
                    },
                    _ => CoreActorState::WaitForNextMessage {},
                }
            },
            SmartSpeakerMessage::RequestTextToSpeech(_) => {
                forward_to(&mut actions, present, SmartSpeakerActors::MachineSpeechActor);
                CoreActorState::WaitForNextMessage {}
            },
            SmartSpeakerMessage::IntentFinalized(_) => {
                forward_to(&mut actions, present, SmartSpeakerActors::ContextActor);
                CoreActorState::WaitForNextMessage {}
            },
            SmartSpeakerMessage::VisionFinalized(_) => {
                forward_to(&mut actions, present, SmartSpeakerActors::ContextActor);
                CoreActorState::WaitForNextMessage {}
            },
            SmartSpeakerMessage::TextToSpeechFinished(s) => {
                push_action(&mut actions, CoreAction::Log(CoreLogEvent::TextToSpeechFinished { from: s.send_from, to: s.send_to }));
                if s.send_to == SmartSpeakerActors::WakeWordActor {
                    if !is_present(present, SmartSpeakerActors::WakeWordActor) {
                        request_absent(present, SmartSpeakerActors::SpeechToIntentActor)
                    } else {
                        CoreActorState::WaitForNextMessage {}
                    }
                } else if s.send_to == SmartSpeakerActors::CoreActor {
                    CoreActorState::WaitForNextMessage {}
                } else {
                    forward_to(&mut actions, present, SmartSpeakerActors::ContextActor);
                    CoreActorState::WaitForNextMessage {}
                }
            },
            SmartSpeakerMessage::StringMessage(s) => {
                forward_to(&mut actions, present, s.send_to);
                CoreActorState::WaitForNextMessage {}
            },
            SmartSpeakerMessage::WriteLog(l) => {
                forward_to(&mut actions, present, l.send_to);
                CoreActorState::WaitForNextMessage {}
            },
            _ => CoreActorState::WaitForNextMessage {},
        };
        CoreDecision { actions, state }
    }
}

/// The actors the core starts with: the logger, the audio, the wake word
/// detector, the context and the speaker; the camera where there is a camera;
/// the vision and the gaze where the vision is used.
pub open spec fn initial_actors(vision_type: VisionType, vision: bool) -> Seq<SmartSpeakerActors> {
    seq![
        SmartSpeakerActors::LoggerActor,
        SmartSpeakerActors::AudioActor,
        SmartSpeakerActors::WakeWordActor,
        SmartSpeakerActors::ContextActor,
        SmartSpeakerActors::MachineSpeechActor,
    ]
    + (if vision_type != VisionType::Nothing { seq![SmartSpeakerActors::CameraActor] } else { Seq::empty() })
    + (if vision { seq![SmartSpeakerActors::VisionActor, SmartSpeakerActors::GazeActor] } else { Seq::empty() })
}

/// The actors the core starts with, in the order it starts them.
pub fn initial_actor_list(vision_type: VisionType, vision: bool) -> (r: Vec<SmartSpeakerActors>)
    ensures
        r@ == initial_actors(vision_type, vision),
{
    let mut r: Vec<SmartSpeakerActors> = Vec::new();
    r.push(SmartSpeakerActors::LoggerActor);
    r.push(SmartSpeakerActors::AudioActor);
    r.push(SmartSpeakerActors::WakeWordActor);
    r.push(SmartSpeakerActors::ContextActor);
    r.push(SmartSpeakerActors::MachineSpeechActor);
    if vision_type != VisionType::Nothing {
        r.push(SmartSpeakerActors::CameraActor);
    }
    if vision {
        r.push(SmartSpeakerActors::VisionActor);
        r.push(SmartSpeakerActors::GazeActor);
    }
    assert(r@ =~= initial_actors(vision_type, vision));
    r
}

/// The kinds of speaker that can run.
#[derive(Debug, Clone, Copy, PartialEq, Eq, Structural)]
pub enum SmartSpeakerKind {
    Vision,
    NonVision,
}

/// Which speaker runs for the settings, and whether to warn that nothing of the
/// surroundings is recorded (no camera and no vision).
pub fn speaker_kind(vision: bool, vision_type: VisionType) -> (r: (SmartSpeakerKind, bool))
    requires
        vision ==> vision_type != VisionType::Nothing,
    ensures
        r.0 == (if vision { SmartSpeakerKind::Vision } else { SmartSpeakerKind::NonVision }),
        r.1 == (!vision && vision_type == VisionType::Nothing),
{
    if vision {
        (SmartSpeakerKind::Vision, false)
    } else {
        (SmartSpeakerKind::NonVision, vision_type == VisionType::Nothing)
    }
}

/// The core asks for an actor only where that actor does not run.
pub proof fn lemma_new_actor_only_when_absent(m: SmartSpeakerMessage, present: Seq<SmartSpeakerActors>)
    ensures
        core_state(m, present) matches CoreActorState::NewActorRequested { actor, custom_args }
            ==> !present.contains(actor) && custom_args is None,
{
}

/// A shutdown request ends the core and goes to every running actor, once each, in order.
pub proof fn lemma_shutdown_reaches_every_actor(m: SmartSpeakerMessage, present: Seq<SmartSpeakerActors>, debug: bool)
    requires
        m is RequestShutdown,
    ensures
        core_state(m, present) == (CoreActorState::ShutdownRequested {}),
        core_actions(m, present, debug).len() == present.len(),
        forall|i: int| 0 <= i < present.len() ==> core_actions(m, present, debug)[i] == ActionView::Forward(present[i]),
{
}

/// What was recognised reaches the context: speech recognised or objects seen are
/// passed on to the context actor, once, where it runs, and nothing else is done;
/// the core then waits for the next message.
pub proof fn lemma_recognition_reaches_the_context(m: SmartSpeakerMessage, present: Seq<SmartSpeakerActors>, debug: bool)
    requires
        m is IntentFinalized || m is VisionFinalized,
    ensures
        core_state(m, present) == (CoreActorState::WaitForNextMessage {}),
        present.contains(SmartSpeakerActors::ContextActor)
            ==> core_actions(m, present, debug) == seq![ActionView::Forward(SmartSpeakerActors::ContextActor)],
        !present.contains(SmartSpeakerActors::ContextActor) ==> core_actions(m, present, debug).len() == 0,
{
}

} // verus!
