use vstd::prelude::*;
use vstd::string::*;
use crate::config::LanguageTag;

verus! {

/// A text that the speaker can say, in each of the languages it speaks.
#[derive(Debug, PartialEq)]
pub struct SmartSpeakerI18nText {
    pub en: String,
    pub ja: String,
    pub zh: String,
    pub ko: String,
}

/// The four texts of a `SmartSpeakerI18nText`, in the order en, ja, zh, ko.
pub struct I18nView {
    pub en: Seq<char>,
    pub ja: Seq<char>,
    pub zh: Seq<char>,
    pub ko: Seq<char>,
}

impl View for SmartSpeakerI18nText {
    type V = I18nView;

    open spec fn view(&self) -> I18nView {
        I18nView { en: self.en@, ja: self.ja@, zh: self.zh@, ko: self.ko@ }
    }
}

/// The view of a text given in the four languages.
pub open spec fn i18n(en: Seq<char>, ja: Seq<char>, zh: Seq<char>, ko: Seq<char>) -> I18nView {
    I18nView { en, ja, zh, ko }
}

/// The text of `t` in `language`.
pub open spec fn text_in(t: I18nView, language: LanguageTag) -> Seq<char> {
    match language {
        LanguageTag::English => t.en,
        LanguageTag::Japanese => t.ja,
        LanguageTag::Chinese => t.zh,
        LanguageTag::Korean => t.ko,
    }
}

impl SmartSpeakerI18nText {
    /// A text that is empty in every language.
    pub fn new() -> (r: Self)
        ensures
            r@ == i18n(Seq::empty(), Seq::empty(), Seq::empty(), Seq::empty()),
    {
        SmartSpeakerI18nText { en: String::new(), ja: String::new(), zh: String::new(), ko: String::new() }
    }

    /// Sets the English text.
    pub fn en(self, text: &str) -> (r: Self)
        ensures
            r@ == i18n(text@, self@.ja, self@.zh, self@.ko),
    {
        SmartSpeakerI18nText { en: String::from_str(text), ..self }
    }

    /// Sets the Japanese text.
    pub fn ja(self, text: &str) -> (r: Self)
        ensures
            r@ == i18n(self@.en, text@, self@.zh, self@.ko),
    {
        SmartSpeakerI18nText { ja: String::from_str(text), ..self }
    }

    /// Sets the Chinese text.
    pub fn zh(self, text: &str) -> (r: Self)
        ensures
            r@ == i18n(self@.en, self@.ja, text@, self@.ko),
    {
        SmartSpeakerI18nText { zh: String::from_str(text), ..self }
    }

    /// Sets the Korean text.
    pub fn ko(self, text: &str) -> (r: Self)
        ensures
            r@ == i18n(self@.en, self@.ja, self@.zh, text@),
    {
        SmartSpeakerI18nText { ko: String::from_str(text), ..self }
    }

    /// A text from four texts already built.
    pub fn from_parts(en: String, ja: String, zh: String, ko: String) -> (r: Self)
        ensures
            r@ == i18n(en@, ja@, zh@, ko@),
    {
        SmartSpeakerI18nText { en, ja, zh, ko }
    }

    /// The text in the given language.
    pub fn get(&self, language: &LanguageTag) -> (r: String)
        ensures
            r@ == text_in(self@, *language),
    {
        match language {
            LanguageTag::English => self.en.clone(),
            LanguageTag::Japanese => self.ja.clone(),
            LanguageTag::Chinese => self.zh.clone(),
            LanguageTag::Korean => self.ko.clone(),
        }
    }

    /// A copy of this text.
    pub fn duplicate(&self) -> (r: Self)
        ensures
            r@ == self@,
    {
        SmartSpeakerI18nText { en: self.en.clone(), ja: self.ja.clone(), zh: self.zh.clone(), ko: self.ko.clone() }
    }
}

impl Clone for SmartSpeakerI18nText {
    fn clone(&self) -> (r: Self)
        ensures
            r@ == self@,
    {
        self.duplicate()
    }
}

} // verus!
