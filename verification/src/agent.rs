use vstd::prelude::*;
use vstd::string::*;
pub use crate::intent::IntentType;
use crate::intent::intent_type_of;
use crate::text::{decimal, push_decimal};

verus! {

/// The messages of the voice agent.
#[derive(Debug, Clone, PartialEq)]
pub enum CommonMessage {
    HumanDetected,
    ObjectRecognizeOrder,
    DetectedObject(String),
    OrderDetected(IntentType),
    OrderCancelled,
    RequestVA(u8),
}

/// What an action of the agent drives.
#[derive(Debug, Clone, Copy, PartialEq, Eq, Structural)]
pub enum ActionType {
    Beep,
    PhilipsHue,
}

pub open spec fn action_type_text(t: ActionType) -> Seq<char> {
    match t {
        ActionType::Beep => "Beep"@,
        ActionType::PhilipsHue => "Philips Hue"@,
    }
}

impl ActionType {
    /// The type's name as it is shown.
    pub fn to_string(&self) -> (r: String)
        ensures
            r@ == action_type_text(*self),
    {
        match self {
            ActionType::Beep => String::from_str("Beep"),
            ActionType::PhilipsHue => String::from_str("Philips Hue"),
        }
    }
}

/// An action the agent can take on a marked thing.
#[derive(Debug, PartialEq)]
pub struct AgentAction {
    pub id: i32,
    pub name: String,
    pub action_type: ActionType,
    pub command: String,
}

/// How an action is shown.
pub open spec fn agent_action_text(a: AgentAction) -> Seq<char> {
    "Action Name: "@ + a.name@ + ", Action Type: "@ + action_type_text(a.action_type) + ", Action Command: "@ + a.command@
}

impl AgentAction {
    /// The action as it is shown.
    pub fn to_string(&self) -> (r: String)
        ensures
            r@ == agent_action_text(*self),
    {
        let mut r = String::from_str("Action Name: ");
        r.append(self.name.as_str());
        r.append(", Action Type: ");
        let t = self.action_type.to_string();
        r.append(t.as_str());
        r.append(", Action Command: ");
        r.append(self.command.as_str());
        r
    }
}

/// The agent's settings: the speech engine's key and model, the microphone, whether
/// the vision is used, and the actions on marked things.
#[derive(Debug, PartialEq)]
pub struct Config {
    pub pv_api_key: String,
    pub pv_model_name: String,
    pub mic_index: i32,
    pub with_vision: bool,
    pub actions: Vec<AgentAction>,
}

/// The default settings: no key, the model `model.rhn`, the first microphone, no
/// vision and no actions.
pub open spec fn default_agent_config(c: Config) -> bool {
    &&& c.pv_api_key@ == Seq::<char>::empty()
    &&& c.pv_model_name@ == "model.rhn"@
    &&& c.mic_index == 0
    &&& !c.with_vision
    &&& c.actions@.len() == 0
}

impl Default for Config {
    fn default() -> (r: Self)
        ensures
            default_agent_config(r),
    {
        Config {
            pv_api_key: String::new(),
            pv_model_name: String::from_str("model.rhn"),
            mic_index: 0,
            with_vision: false,
            actions: Vec::new(),
        }
    }
}

/// The name of the action for a marker.
pub open spec fn marker_action_name(id: i32) -> Seq<char> {
    "marker_"@ + decimal(id as int)
}

/// The settings written for a set of markers: the defaults with one beep action,
/// named after its marker and with no command, per marker, in order.
pub open spec fn markers_config(c: Config, markers: Seq<i32>) -> bool {
    &&& c.pv_api_key@ == Seq::<char>::empty()
    &&& c.pv_model_name@ == "model.rhn"@
    &&& c.mic_index == 0
    &&& !c.with_vision
    &&& c.actions@.len() == markers.len()
    &&& forall|i: int| 0 <= i < markers.len() ==> {
        let a = #[trigger] c.actions@[i];
        a.id == markers[i] && a.name@ == marker_action_name(markers[i]) && a.action_type == ActionType::Beep
            && a.command@ == Seq::<char>::empty()
    }
}

impl Config {
    /// The default settings.
    pub fn new() -> (r: Self)
        ensures
            default_agent_config(r),
    {
        Config::default()
    }

    /// The settings for a set of markers.
    pub fn from_markers(markers: &Vec<i32>) -> (r: Self)
        ensures
            markers_config(r, markers@),
    {
        let mut config = Config::new();
        let mut i: usize = 0;
        while i < markers.len()
            invariant
                i <= markers@.len(),
                markers_config(config, markers@.take(i as int)),
            decreases markers@.len() - i,
        {
            let marker = markers[i];
            let mut name = String::from_str("marker_");
            push_decimal(&mut name, marker as i64);
            config.actions.push(AgentAction { id: marker, name, action_type: ActionType::Beep, command: String::new() });
            assert(markers@.take(i as int + 1) =~= markers@.take(i as int).push(marker));
            i = i + 1;
        }
        assert(markers@.take(markers@.len() as int) =~= markers@);
        config
    }
}

/// The index of the action a marker selects: the marker's own, where there is an
/// action for it.
pub open spec fn selected_action(id: i32, count: nat) -> Option<nat> {
    if 0 <= id < count { Some(id as nat) } else { None }
}

/// The action the marker nearest to the gaze selects, if any.
pub fn select_action(id: i32, count: usize) -> (r: Option<usize>)
    requires
        id <= count ==> 0 <= id < count,
    ensures
        match (r, selected_action(id, count as nat)) {
            (Some(a), Some(b)) => a == b,
            (None, None) => true,
            _ => false,
        },
{
    if 0 <= id && (id as usize) < count {
        Some(id as usize)
    } else {
        None
    }
}

/// What the microphone loop hears from its engines on one audio frame.
#[derive(Debug, Clone, PartialEq)]
pub enum MicEvent {
    /// The voice activity detector looked at the frame (while not listening).
    Voice(bool),
    /// The intent engine finished: what it understood, if anything.
    IntentFinished(Option<String>),
    /// The intent engine needs more audio.
    IntentPending,
}

/// What the microphone loop does after an event.
#[derive(Debug, PartialEq)]
pub struct MicStep {
    /// Whether it listens for an order after this frame.
    pub listening: bool,
    /// Whether the frame goes to the intent engine as the start of an order.
    pub feed_intent: bool,
    /// What it tells the agent.
    pub message: Option<CommonMessage>,
}

/// Whether an event can be handled: an understood order names a known type.
pub open spec fn mic_event_defined(listening: bool, e: MicEvent) -> bool {
    listening ==> (e matches MicEvent::IntentFinished(Some(name)) ==> intent_type_of(name@) is Some)
}

/// The microphone loop: while not listening, a detected voice starts an order
/// and tells the agent a human was heard; while listening, a finished order ends
/// the listening and tells the agent the order where it was understood; nothing
/// else changes anything.
pub open spec fn mic_next(listening: bool, e: MicEvent) -> (bool, bool, Option<CommonMessage>) {
    if listening {
        match e {
            MicEvent::IntentFinished(Some(name)) => (false, false, Some(CommonMessage::OrderDetected(intent_type_of(name@)->0))),
            MicEvent::IntentFinished(None) => (false, false, None),
            _ => (true, false, None),
        }
    } else {
        match e {
            MicEvent::Voice(true) => (true, true, Some(CommonMessage::HumanDetected)),
            _ => (false, false, None),
        }
    }
}

/// One step of the microphone loop.
pub fn mic_step(listening: bool, event: &MicEvent) -> (r: MicStep)
    requires
        mic_event_defined(listening, *event),
    ensures
        (r.listening, r.feed_intent, r.message) == mic_next(listening, *event),
{
    if listening {
        match event {
            MicEvent::IntentFinished(Some(name)) => match IntentType::from_str(name.as_str()) {
                Ok(t) => MicStep { listening: false, feed_intent: false, message: Some(CommonMessage::OrderDetected(t)) },
                Err(_) => {
                    proof { assert(false); }
                    MicStep { listening: false, feed_intent: false, message: None }
                },
            },
            MicEvent::IntentFinished(None) => MicStep { listening: false, feed_intent: false, message: None },
            _ => MicStep { listening: true, feed_intent: false, message: None },
        }
    } else {
        match event {
            MicEvent::Voice(true) => MicStep { listening: true, feed_intent: true, message: Some(CommonMessage::HumanDetected) },
            _ => MicStep { listening: false, feed_intent: false, message: None },
        }
    }
}

} // verus!
