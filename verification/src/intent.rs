use vstd::prelude::*;
use vstd::string::*;
use crate::i18n::{SmartSpeakerI18nText, I18nView, i18n};
use crate::text::{str_eq, ascii_lowercase, lowercase_eq};

verus! {

/// A place an intent can name.
#[derive(Debug, Clone, Copy, PartialEq, Eq, Structural)]
pub enum IntentPlace {
    Room,
}

pub open spec fn intent_place_of(s: Seq<char>) -> Option<IntentPlace> {
    if s == "room"@ || s == "へや"@ || s == "部屋"@ { Some(IntentPlace::Room) } else { None }
}

impl IntentPlace {
    /// The place a spoken slot value names.
    pub fn from_str(s: &str) -> (r: Result<IntentPlace, ()>)
        ensures
            match intent_place_of(s@) {
                Some(p) => r == Ok::<IntentPlace, ()>(p),
                None => r is Err,
            },
    {
        if str_eq(s, "room") || str_eq(s, "へや") || str_eq(s, "部屋") {
            Ok(IntentPlace::Room)
        } else {
            Err(())
        }
    }
}

/// The dishes the speaker can guide through.
#[derive(Debug, Clone, Copy, PartialEq, Eq, Structural)]
pub enum IntentCookingMenu {
    CarrotSalad,
    PotatoSalad,
}

pub open spec fn menu_text(m: IntentCookingMenu) -> I18nView {
    match m {
        IntentCookingMenu::CarrotSalad => i18n("Carrot salad"@, "にんじんサラダ"@, "胡萝卜沙拉"@, "당근 샐러드"@),
        IntentCookingMenu::PotatoSalad => i18n("Potato salad"@, "ポテトサラダ"@, "土豆沙拉"@, "감자 샐러드"@),
    }
}

pub open spec fn menu_of(s: Seq<char>) -> Option<IntentCookingMenu> {
    if s == "carrot salad"@ || s == "にんじんサラダ"@ || s == "人参サラダ"@ || s == "にんじんのサラダ"@
        || s == "にんじんりようり"@ {
        Some(IntentCookingMenu::CarrotSalad)
    } else if s == "potato salad"@ || s == "ポテトサラダ"@ {
        Some(IntentCookingMenu::PotatoSalad)
    } else {
        None
    }
}

pub open spec fn menu_display(m: IntentCookingMenu) -> Seq<char> {
    match m {
        IntentCookingMenu::CarrotSalad => "にんじんサラダ"@,
        IntentCookingMenu::PotatoSalad => "ポテトサラダ"@,
    }
}

impl IntentCookingMenu {
    /// The dish's name in each language.
    pub fn to_i18n(&self) -> (r: SmartSpeakerI18nText)
        ensures
            r@ == menu_text(*self),
    {
        match self {
            IntentCookingMenu::CarrotSalad => SmartSpeakerI18nText::new()
                .en("Carrot salad")
                .ja("にんじんサラダ")
                .zh("胡萝卜沙拉")
                .ko("당근 샐러드"),
            IntentCookingMenu::PotatoSalad => SmartSpeakerI18nText::new()
                .en("Potato salad")
                .ja("ポテトサラダ")
                .zh("土豆沙拉")
                .ko("감자 샐러드"),
        }
    }

    /// The dish a spoken slot value names.
    pub fn from_str(s: &str) -> (r: Result<IntentCookingMenu, ()>)
        ensures
            match menu_of(s@) {
                Some(m) => r == Ok::<IntentCookingMenu, ()>(m),
                None => r is Err,
            },
    {
        if str_eq(s, "carrot salad") || str_eq(s, "にんじんサラダ") || str_eq(s, "人参サラダ")
            || str_eq(s, "にんじんのサラダ") || str_eq(s, "にんじんりようり") {
            Ok(IntentCookingMenu::CarrotSalad)
        } else if str_eq(s, "potato salad") || str_eq(s, "ポテトサラダ") {
            Ok(IntentCookingMenu::PotatoSalad)
        } else {
            Err(())
        }
    }

    /// The dish's name as it is shown.
    pub fn to_display_string(&self) -> (r: String)
        ensures
            r@ == menu_display(*self),
    {
        match self {
            IntentCookingMenu::CarrotSalad => String::from_str("にんじんサラダ"),
            IntentCookingMenu::PotatoSalad => String::from_str("ポテトサラダ"),
        }
    }
}

/// What a spoken command asks for.
#[derive(Debug, Clone, Copy, PartialEq, Eq, Structural)]
pub enum IntentAction {
    Nothing,
    TurnOn,
    TurnOff,
    Purchase,
    Cancel,
    WhatYouSee,
    CookingTask,
    Confirm,
    Next,
    Previous,
    Repeat,
}

pub open spec fn intent_action_of(s: Seq<char>) -> Option<IntentAction> {
    if s == "turn on"@ || s == "つけて"@ || s == "つけてください"@ || s == "つけてくれ"@ {
        Some(IntentAction::TurnOn)
    } else if s == "turn off"@ || s == "けして"@ || s == "けしてください"@ || s == "けしてくれ"@ {
        Some(IntentAction::TurnOff)
    } else if s == "purchase"@ || s == "buy"@ {
        Some(IntentAction::Purchase)
    } else if s == "見えているもの"@ {
        Some(IntentAction::WhatYouSee)
    } else if s == "料理作業"@ {
        Some(IntentAction::CookingTask)
    } else if s == "承認"@ {
        Some(IntentAction::Confirm)
    } else if s == "取り消し"@ {
        Some(IntentAction::Cancel)
    } else if s == "次"@ {
        Some(IntentAction::Next)
    } else if s == "繰り返し"@ {
        Some(IntentAction::Previous)
    } else {
        None
    }
}

/// Each action is named by its own words and by no others: "turn on", "つけて",
/// "つけてください" or "つけてくれ" turn on; "turn off", "けして", "けしてください" or
/// "けしてくれ" turn off; "purchase" or "buy" purchase; "見えているもの" asks what is
/// seen; "料理作業" starts cooking; "承認" confirms; "取り消し" cancels; "次" goes to
/// the next step; "繰り返し" goes back; no word names nothing or a repeat.
pub proof fn lemma_action_words(s: Seq<char>)
    ensures
        intent_action_of(s) == Some(IntentAction::TurnOn)
            <==> (s == "turn on"@ || s == "つけて"@ || s == "つけてください"@ || s == "つけてくれ"@),
        intent_action_of(s) == Some(IntentAction::TurnOff)
            <==> (s == "turn off"@ || s == "けして"@ || s == "けしてください"@ || s == "けしてくれ"@),
        intent_action_of(s) == Some(IntentAction::Purchase) <==> (s == "purchase"@ || s == "buy"@),
        intent_action_of(s) == Some(IntentAction::WhatYouSee) <==> s == "見えているもの"@,
        intent_action_of(s) == Some(IntentAction::CookingTask) <==> s == "料理作業"@,
        intent_action_of(s) == Some(IntentAction::Confirm) <==> s == "承認"@,
        intent_action_of(s) == Some(IntentAction::Cancel) <==> s == "取り消し"@,
        intent_action_of(s) == Some(IntentAction::Next) <==> s == "次"@,
        intent_action_of(s) == Some(IntentAction::Previous) <==> s == "繰り返し"@,
        intent_action_of(s) != Some(IntentAction::Nothing),
        intent_action_of(s) != Some(IntentAction::Repeat),
{
    reveal_strlit("turn on");
    reveal_strlit("つけて");
    reveal_strlit("つけてください");
    reveal_strlit("つけてくれ");
    reveal_strlit("turn off");
    reveal_strlit("けして");
    reveal_strlit("けしてください");
    reveal_strlit("けしてくれ");
    reveal_strlit("purchase");
    reveal_strlit("buy");
    reveal_strlit("見えているもの");
    reveal_strlit("料理作業");
    reveal_strlit("承認");
    reveal_strlit("取り消し");
    reveal_strlit("次");
    reveal_strlit("繰り返し");
    assert("turn on"@.len() == 7 && "turn on"@[0] == 't');
    assert("つけて"@.len() == 3 && "つけて"@[0] == 'つ');
    assert("つけてください"@.len() == 7 && "つけてください"@[0] == 'つ');
    assert("つけてくれ"@.len() == 5 && "つけてくれ"@[0] == 'つ');
    assert("turn off"@.len() == 8 && "turn off"@[0] == 't');
    assert("けして"@.len() == 3 && "けして"@[0] == 'け');
    assert("けしてください"@.len() == 7 && "けしてください"@[0] == 'け');
    assert("けしてくれ"@.len() == 5 && "けしてくれ"@[0] == 'け');
    assert("purchase"@.len() == 8 && "purchase"@[0] == 'p');
    assert("buy"@.len() == 3 && "buy"@[0] == 'b');
    assert("見えているもの"@.len() == 7 && "見えているもの"@[0] == '見');
    assert("料理作業"@.len() == 4 && "料理作業"@[0] == '料');
    assert("承認"@.len() == 2 && "承認"@[0] == '承');
    assert("取り消し"@.len() == 4 && "取り消し"@[0] == '取');
    assert("次"@.len() == 1 && "次"@[0] == '次');
    assert("繰り返し"@.len() == 4 && "繰り返し"@[0] == '繰');
}

impl IntentAction {
    /// The action a recognised intent names.
    pub fn from_str(s: &str) -> (r: Result<IntentAction, ()>)
        ensures
            match intent_action_of(s@) {
                Some(a) => r == Ok::<IntentAction, ()>(a),
                None => r is Err,
            },
    {
        if str_eq(s, "turn on") || str_eq(s, "つけて") || str_eq(s, "つけてください") || str_eq(s, "つけてくれ") {
            Ok(IntentAction::TurnOn)
        } else if str_eq(s, "turn off") || str_eq(s, "けして") || str_eq(s, "けしてください") || str_eq(s, "けしてくれ") {
            Ok(IntentAction::TurnOff)
        } else if str_eq(s, "purchase") || str_eq(s, "buy") {
            Ok(IntentAction::Purchase)
        } else if str_eq(s, "見えているもの") {
            Ok(IntentAction::WhatYouSee)
        } else if str_eq(s, "料理作業") {
            Ok(IntentAction::CookingTask)
        } else if str_eq(s, "承認") {
            Ok(IntentAction::Confirm)
        } else if str_eq(s, "取り消し") {
            Ok(IntentAction::Cancel)
        } else if str_eq(s, "次") {
            Ok(IntentAction::Next)
        } else if str_eq(s, "繰り返し") {
            Ok(IntentAction::Previous)
        } else {
            Err(())
        }
    }
}

/// A thing an intent can name.
#[derive(Debug, Clone, Copy, PartialEq, Eq, Structural)]
pub enum IntentObject {
    Light,
}

pub open spec fn intent_object_of(s: Seq<char>) -> Option<IntentObject> {
    if s == "light"@ || s == "ライト"@ || s == "照明"@ { Some(IntentObject::Light) } else { None }
}

impl IntentObject {
    /// The thing a spoken slot value names.
    pub fn from_str(s: &str) -> (r: Result<IntentObject, ()>)
        ensures
            match intent_object_of(s@) {
                Some(o) => r == Ok::<IntentObject, ()>(o),
                None => r is Err,
            },
    {
        if str_eq(s, "light") || str_eq(s, "ライト") || str_eq(s, "照明") {
            Ok(IntentObject::Light)
        } else {
            Err(())
        }
    }
}

/// A slot value that a recognised intent carries.
#[derive(Debug, Clone, Copy, PartialEq, Eq, Structural)]
pub enum IntentSlot {
    Place(IntentPlace),
    Menu(IntentCookingMenu),
}

/// The orders of the voice agent.
#[derive(Debug, Clone, Copy, PartialEq, Eq, PartialOrd, Structural)]
pub enum IntentType {
    TurnOnSomething,
    TurnOffSomething,
}

pub open spec fn intent_type_of(s: Seq<char>) -> Option<IntentType> {
    let l = ascii_lowercase(s);
    if l == "turnonsomething"@ {
        Some(IntentType::TurnOnSomething)
    } else if l == "turnoffsomething"@ {
        Some(IntentType::TurnOffSomething)
    } else {
        None
    }
}

impl IntentType {
    /// The order an intent names, compared without regard to case.
    pub fn from_str(s: &str) -> (r: Result<IntentType, ()>)
        ensures
            match intent_type_of(s@) {
                Some(t) => r == Ok::<IntentType, ()>(t),
                None => r is Err,
            },
    {
        if lowercase_eq(s, "turnonsomething") {
            Ok(IntentType::TurnOnSomething)
        } else if lowercase_eq(s, "turnoffsomething") {
            Ok(IntentType::TurnOffSomething)
        } else {
            Err(())
        }
    }
}

/// A dish's shown name names that dish again.
pub proof fn lemma_menu_display_round_trip(m: IntentCookingMenu)
    ensures
        menu_of(menu_display(m)) == Some(m),
{
    reveal_strlit("にんじんサラダ");
    reveal_strlit("ポテトサラダ");
    reveal_strlit("carrot salad");
    reveal_strlit("人参サラダ");
    reveal_strlit("にんじんのサラダ");
    reveal_strlit("にんじんりようり");
    reveal_strlit("potato salad");
    if m == IntentCookingMenu::PotatoSalad {
        let d = menu_display(m);
        assert(d[0] != 'c' && d[0] != 'に' && d[0] != '人');
    }
}

} // verus!
