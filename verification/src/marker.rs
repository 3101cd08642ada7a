use vstd::prelude::*;
use vstd::string::*;
use crate::text::str_eq;

verus! {

/// The ingredients that printed markers stand for, by marker number.
#[derive(Debug, Clone, Copy, PartialEq, Eq, Structural)]
pub enum IngredientMarker {
    Carrot,
    Tomato,
    Onion,
    Potato,
    Eggplant,
    Cabbage,
    Pumpkin,
    Broccoli,
    GreenPepper,
    Unknown,
}

/// The ingredient that marker `value` stands for.
pub open spec fn marker_of(value: u32) -> IngredientMarker {
    if value == 0 {
        IngredientMarker::Carrot
    } else if value == 1 {
        IngredientMarker::Tomato
    } else if value == 2 {
        IngredientMarker::Onion
    } else if value == 3 {
        IngredientMarker::Potato
    } else if value == 4 {
        IngredientMarker::Eggplant
    } else if value == 5 {
        IngredientMarker::Cabbage
    } else if value == 6 {
        IngredientMarker::Pumpkin
    } else if value == 7 {
        IngredientMarker::Broccoli
    } else if value == 8 {
        IngredientMarker::GreenPepper
    } else {
        IngredientMarker::Unknown
    }
}

/// The ingredient's name as it is shown.
pub open spec fn marker_text(m: IngredientMarker) -> Seq<char> {
    match m {
        IngredientMarker::Carrot => "carrot"@,
        IngredientMarker::Tomato => "tomato"@,
        IngredientMarker::Onion => "onion"@,
        IngredientMarker::Potato => "potato"@,
        IngredientMarker::Eggplant => "eggplant"@,
        IngredientMarker::Cabbage => "cabbage"@,
        IngredientMarker::Pumpkin => "pumpkin"@,
        IngredientMarker::Broccoli => "broccoli"@,
        IngredientMarker::GreenPepper => "green pepper"@,
        IngredientMarker::Unknown => "unknown"@,
    }
}

impl From<u32> for IngredientMarker {
    fn from(value: u32) -> (r: Self) {
        match value {
            0 => IngredientMarker::Carrot,
            1 => IngredientMarker::Tomato,
            2 => IngredientMarker::Onion,
            3 => IngredientMarker::Potato,
            4 => IngredientMarker::Eggplant,
            5 => IngredientMarker::Cabbage,
            6 => IngredientMarker::Pumpkin,
            7 => IngredientMarker::Broccoli,
            8 => IngredientMarker::GreenPepper,
            _ => IngredientMarker::Unknown,
        }
    }
}

impl vstd::std_specs::convert::FromSpecImpl<u32> for IngredientMarker {
    open spec fn obeys_from_spec() -> bool {
        true
    }

    open spec fn from_spec(v: u32) -> IngredientMarker {
        marker_of(v)
    }
}

impl IngredientMarker {
    /// The ingredient's name as it is shown.
    pub fn to_string(&self) -> (r: String)
        ensures
            r@ == marker_text(*self),
    {
        match self {
            IngredientMarker::Carrot => String::from_str("carrot"),
            IngredientMarker::Tomato => String::from_str("tomato"),
            IngredientMarker::Onion => String::from_str("onion"),
            IngredientMarker::Potato => String::from_str("potato"),
            IngredientMarker::Eggplant => String::from_str("eggplant"),
            IngredientMarker::Cabbage => String::from_str("cabbage"),
            IngredientMarker::Pumpkin => String::from_str("pumpkin"),
            IngredientMarker::Broccoli => String::from_str("broccoli"),
            IngredientMarker::GreenPepper => String::from_str("green pepper"),
            IngredientMarker::Unknown => String::from_str("unknown"),
        }
    }
}

/// The kinds of data the eye tracker publishes.
#[derive(Debug, Clone, Copy, PartialEq, Eq, Structural)]
pub enum PupilTopic {
    WorldFrame,
    Gaze2D,
}

/// Why a topic could not be read.
#[derive(Debug, Clone, Copy, PartialEq, Eq, Structural)]
pub enum TopicError {
    InvalidTopic,
}

/// The kind of data a topic name stands for.
pub open spec fn topic_of(s: Seq<char>) -> Option<PupilTopic> {
    if s == "frame"@ || s == "frame.world"@ {
        Some(PupilTopic::WorldFrame)
    } else if s == "gaze"@ || s == "gaze.2d.0."@ {
        Some(PupilTopic::Gaze2D)
    } else {
        None
    }
}

/// The topic name the eye tracker publishes a kind of data under.
pub open spec fn topic_name(t: PupilTopic) -> Seq<char> {
    match t {
        PupilTopic::WorldFrame => "frame.world"@,
        PupilTopic::Gaze2D => "gaze.2d.0."@,
    }
}

impl PupilTopic {
    /// The kind of data a topic name, short or full, stands for.
    pub fn from_str(topic: &str) -> (r: Result<PupilTopic, TopicError>)
        ensures
            match topic_of(topic@) {
                Some(t) => r == Ok::<PupilTopic, TopicError>(t),
                None => r == Err::<PupilTopic, TopicError>(TopicError::InvalidTopic),
            },
    {
        if str_eq(topic, "frame") || str_eq(topic, "frame.world") {
            Ok(PupilTopic::WorldFrame)
        } else if str_eq(topic, "gaze") || str_eq(topic, "gaze.2d.0.") {
            Ok(PupilTopic::Gaze2D)
        } else {
            Err(TopicError::InvalidTopic)
        }
    }

    /// The full topic name the data is published under.
    pub fn get_topic(&self) -> (r: String)
        ensures
            r@ == topic_name(*self),
    {
        match self {
            PupilTopic::WorldFrame => String::from_str("frame.world"),
            PupilTopic::Gaze2D => String::from_str("gaze.2d.0."),
        }
    }
}

/// Reading back the full name of a kind of data gives that kind again.
pub proof fn lemma_topic_round_trip(t: PupilTopic)
    ensures
        topic_of(topic_name(t)) == Some(t),
{
    reveal_strlit("frame.world");
    reveal_strlit("frame");
    reveal_strlit("gaze");
    reveal_strlit("gaze.2d.0.");
    if t == PupilTopic::Gaze2D {
        assert("gaze.2d.0."@ != "frame"@) by {
            assert("gaze.2d.0."@.len() != "frame"@.len());
        }
        assert("gaze.2d.0."@ != "frame.world"@) by {
            assert("gaze.2d.0."@[0] != "frame.world"@[0]);
        }
    }
}

} // verus!
