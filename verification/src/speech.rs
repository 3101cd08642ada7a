use vstd::prelude::*;
use vstd::string::StrSliceExecFns;
use crate::config::LanguageTag;
use crate::i18n::{SmartSpeakerI18nText, I18nView, i18n, text_in};
use crate::messages::{SmartSpeakerActors, SmartSpeakerMessage, TextToSpeechMessageType};

verus! {

/// The fixed phrases of the speaker.
#[derive(Debug, Clone, Copy, PartialEq, Eq, Structural)]
pub enum MachineSpeechBoilerplate {
    PowerOn,
    WakeUp,
    Okay,
    Undefined,
    Aborted,
    IntentFailed,
    VisionFailed,
}

/// Why a phrase could not be chosen.
#[derive(Debug, Clone, Copy, PartialEq, Eq, Structural)]
pub enum SpeechError {
    /// No phrase has the index asked for.
    InvalidIndex,
}

/// The phrase with a given index, as they are listed.
pub open spec fn boilerplate_at(index: usize) -> Option<MachineSpeechBoilerplate> {
    if index == 0 {
        Some(MachineSpeechBoilerplate::PowerOn)
    } else if index == 1 {
        Some(MachineSpeechBoilerplate::WakeUp)
    } else if index == 2 {
        Some(MachineSpeechBoilerplate::Okay)
    } else if index == 3 {
        Some(MachineSpeechBoilerplate::Undefined)
    } else if index == 4 {
        Some(MachineSpeechBoilerplate::Aborted)
    } else if index == 5 {
        Some(MachineSpeechBoilerplate::IntentFailed)
    } else if index == 6 {
        Some(MachineSpeechBoilerplate::VisionFailed)
    } else {
        None
    }
}

/// The index of a phrase in the list.
pub open spec fn boilerplate_index(b: MachineSpeechBoilerplate) -> usize {
    match b {
        MachineSpeechBoilerplate::PowerOn => 0,
        MachineSpeechBoilerplate::WakeUp => 1,
        MachineSpeechBoilerplate::Okay => 2,
        MachineSpeechBoilerplate::Undefined => 3,
        MachineSpeechBoilerplate::Aborted => 4,
        MachineSpeechBoilerplate::IntentFailed => 5,
        MachineSpeechBoilerplate::VisionFailed => 6,
    }
}

pub open spec fn boilerplate_text(b: MachineSpeechBoilerplate) -> I18nView {
    match b {
        MachineSpeechBoilerplate::PowerOn => i18n("I started up."@, "起動しました。"@, "我已经启动了。"@, "기동했습니다."@),
        MachineSpeechBoilerplate::WakeUp => i18n("I'm listening."@, "聞いています。"@, "我在听。"@, "듣고 있습니다."@),
        MachineSpeechBoilerplate::Okay => i18n("Ok."@, "わかりました。"@, "好的。"@, "알겠습니다."@),
        MachineSpeechBoilerplate::Undefined => i18n("Sorry. I don't understand."@, "すみません。わからない命令です。"@, "对不起。我不明白。"@, "죄송합니다. 이해할 수 없는 명령입니다."@),
        MachineSpeechBoilerplate::Aborted => i18n("Aborted."@, "中止します。"@, "中止。"@, "중단합니다."@),
        MachineSpeechBoilerplate::IntentFailed => i18n("Sorry. I can't hear you very well. Please repeat your message"@, "すみません。よく聞こえないです。もう一度おっしゃってください。"@, "对不起。我听不清楚。请再说一遍。"@, "죄송합니다. 잘 들리지 않습니다. 다시 말씀해주세요."@),
        MachineSpeechBoilerplate::VisionFailed => i18n("Sorry. I can't see very well. Please show me again."@, "すみません。よく見えないです。もう一度見せてください。"@, "对不起。我看不清楚。请再给我看一遍。"@, "죄송합니다. 잘 보이지 않습니다. 다시 보여주세요."@),
    }
}

impl MachineSpeechBoilerplate {
    /// The phrase with the given index.
    pub fn try_from(index: usize) -> (r: Result<MachineSpeechBoilerplate, SpeechError>)
        ensures
            match boilerplate_at(index) {
                Some(b) => r == Ok::<MachineSpeechBoilerplate, SpeechError>(b),
                None => r == Err::<MachineSpeechBoilerplate, SpeechError>(SpeechError::InvalidIndex),
            },
    {
        match index {
            0 => Ok(MachineSpeechBoilerplate::PowerOn),
            1 => Ok(MachineSpeechBoilerplate::WakeUp),
            2 => Ok(MachineSpeechBoilerplate::Okay),
            3 => Ok(MachineSpeechBoilerplate::Undefined),
            4 => Ok(MachineSpeechBoilerplate::Aborted),
            5 => Ok(MachineSpeechBoilerplate::IntentFailed),
            6 => Ok(MachineSpeechBoilerplate::VisionFailed),
            _ => Err(SpeechError::InvalidIndex),
        }
    }

    /// The index of the phrase in the list.
    pub fn index(&self) -> (r: usize)
        ensures
            r == boilerplate_index(*self),
    {
        match self {
            MachineSpeechBoilerplate::PowerOn => 0,
            MachineSpeechBoilerplate::WakeUp => 1,
            MachineSpeechBoilerplate::Okay => 2,
            MachineSpeechBoilerplate::Undefined => 3,
            MachineSpeechBoilerplate::Aborted => 4,
            MachineSpeechBoilerplate::IntentFailed => 5,
            MachineSpeechBoilerplate::VisionFailed => 6,
        }
    }

    /// The phrase in each language.
    pub fn to_i18n(&self) -> (r: SmartSpeakerI18nText)
        ensures
            r@ == boilerplate_text(*self),
    {
        match self {
            MachineSpeechBoilerplate::PowerOn => SmartSpeakerI18nText::new()
                .en("I started up.")
                .ja("起動しました。")
                .zh("我已经启动了。")
                .ko("기동했습니다."),
            MachineSpeechBoilerplate::WakeUp => SmartSpeakerI18nText::new()
                .en("I'm listening.")
                .ja("聞いています。")
                .zh("我在听。")
                .ko("듣고 있습니다."),
            MachineSpeechBoilerplate::Okay => SmartSpeakerI18nText::new()
                .en("Ok.")
                .ja("わかりました。")
                .zh("好的。")
                .ko("알겠습니다."),
            MachineSpeechBoilerplate::Undefined => SmartSpeakerI18nText::new()
                .en("Sorry. I don't understand.")
                .ja("すみません。わからない命令です。")
                .zh("对不起。我不明白。")
                .ko("죄송합니다. 이해할 수 없는 명령입니다."),
            MachineSpeechBoilerplate::Aborted => SmartSpeakerI18nText::new()
                .en("Aborted.")
                .ja("中止します。")
                .zh("中止。")
                .ko("중단합니다."),
            MachineSpeechBoilerplate::IntentFailed => SmartSpeakerI18nText::new()
                .en("Sorry. I can't hear you very well. Please repeat your message")
                .ja("すみません。よく聞こえないです。もう一度おっしゃってください。")
                .zh("对不起。我听不清楚。请再说一遍。")
                .ko("죄송합니다. 잘 들리지 않습니다. 다시 말씀해주세요."),
            MachineSpeechBoilerplate::VisionFailed => SmartSpeakerI18nText::new()
                .en("Sorry. I can't see very well. Please show me again.")
                .ja("すみません。よく見えないです。もう一度見せてください。")
                .zh("对不起。我看不清楚。请再给我看一遍。")
                .ko("죄송합니다. 잘 보이지 않습니다. 다시 보여주세요."),
        }
    }
}

/// The longest text, in characters, that is said at the normal rate in a language.
pub open spec fn normal_rate_limit(language: LanguageTag) -> nat {
    match language {
        LanguageTag::English => 100,
        LanguageTag::Japanese => 60,
        LanguageTag::Chinese => 50,
        LanguageTag::Korean => 60,
    }
}

/// Whether a text is long enough, in the language it is said in, to be said a
/// little slower than normal.
pub fn needs_slow_rate(text: &SmartSpeakerI18nText, language: LanguageTag) -> (r: bool)
    ensures
        r == (text_in(text@, language).len() > normal_rate_limit(language)),
{
    match language {
        LanguageTag::English => text.en.as_str().unicode_len() > 100,
        LanguageTag::Japanese => text.ja.as_str().unicode_len() > 60,
        LanguageTag::Chinese => text.zh.as_str().unicode_len() > 50,
        LanguageTag::Korean => text.ko.as_str().unicode_len() > 60,
    }
}

/// Something for the speaker to say, and the actor to tell when it has been said.
#[derive(Debug, PartialEq)]
pub struct SpeechJob {
    pub text: SmartSpeakerI18nText,
    pub notify: Option<SmartSpeakerActors>,
}

/// Whether a request names a text that can be said: a fixed phrase must exist.
pub open spec fn speech_defined(m: TextToSpeechMessageType) -> bool {
    match m {
        TextToSpeechMessageType::Boilerplate(index) => boilerplate_at(index) is Some,
        _ => true,
    }
}

/// The text a request asks for.
pub open spec fn speech_text(m: TextToSpeechMessageType) -> I18nView {
    match m {
        TextToSpeechMessageType::Normal(t) => t@,
        TextToSpeechMessageType::Boilerplate(index) => boilerplate_text(boilerplate_at(index)->0),
    }
}

/// Whether a message the speaker gets can be handled.
pub open spec fn speech_message_defined(m: SmartSpeakerMessage) -> bool {
    match m {
        SmartSpeakerMessage::RequestTextToSpeech(t) => speech_defined(t.message),
        _ => true,
    }
}

/// What the speaker does with a message: a request to speak is said, and its
/// sender told when it has been; a plain text is said, the same in every
/// language, with nobody told; nothing else is said.
pub open spec fn speech_job_of(m: SmartSpeakerMessage) -> Option<(I18nView, Option<SmartSpeakerActors>)> {
    match m {
        SmartSpeakerMessage::RequestTextToSpeech(t) => Some((speech_text(t.message), Some(t.send_from))),
        SmartSpeakerMessage::StringMessage(s) => Some((i18n(s.message@, s.message@, s.message@, s.message@), None)),
        _ => None,
    }
}

/// The text a request to speak asks for.
pub fn speech_for(message: &TextToSpeechMessageType) -> (r: SmartSpeakerI18nText)
    requires
        speech_defined(*message),
    ensures
        r@ == speech_text(*message),
{
    match message {
        TextToSpeechMessageType::Normal(t) => t.clone(),
        TextToSpeechMessageType::Boilerplate(index) => match MachineSpeechBoilerplate::try_from(*index) {
            Ok(b) => b.to_i18n(),
            Err(_) => {
                proof { assert(false); }
                SmartSpeakerI18nText::new()
            },
        },
    }
}

/// What the speaker says for a message, if anything.
pub fn speech_job(message: &SmartSpeakerMessage) -> (r: Option<SpeechJob>)
    requires
        speech_message_defined(*message),
    ensures
        match (r, speech_job_of(*message)) {
            (Some(j), Some((t, n))) => j.text@ == t && j.notify == n,
            (None, None) => true,
            _ => false,
        },
{
    match message {
        SmartSpeakerMessage::RequestTextToSpeech(t) => Some(SpeechJob { text: speech_for(&t.message), notify: Some(t.send_from) }),
        SmartSpeakerMessage::StringMessage(s) => Some(SpeechJob {
            text: SmartSpeakerI18nText::from_parts(s.message.clone(), s.message.clone(), s.message.clone(), s.message.clone()),
            notify: None,
        }),
        _ => None,
    }
}

/// What the speaker says when it starts: that it started up, telling the core.
pub fn startup_speech() -> (r: SpeechJob)
    ensures
        r.text@ == boilerplate_text(MachineSpeechBoilerplate::PowerOn),
        r.notify == Some(SmartSpeakerActors::CoreActor),
{
    SpeechJob { text: MachineSpeechBoilerplate::PowerOn.to_i18n(), notify: Some(SmartSpeakerActors::CoreActor) }
}

/// A fixed phrase's number gives that phrase back.
pub proof fn lemma_boilerplate_round_trip(b: MachineSpeechBoilerplate)
    ensures
        boilerplate_at(boilerplate_index(b)) == Some(b),
{
}

} // verus!
