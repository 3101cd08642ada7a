use vstd::prelude::*;
use crate::intent::{IntentAction, IntentCookingMenu, IntentSlot, intent_action_of, menu_of};
use crate::messages::{IntentContent, IntentContentView, ProcessResult};
use crate::text::str_eq;

verus! {

/// What the speech-to-intent engine inferred: the intent's name, where it named
/// one, and the slots it filled, as (slot name, value) pairs.
#[derive(Debug, PartialEq)]
pub struct SpeechInference {
    pub intent: Option<String>,
    pub slots: Vec<(String, String)>,
}

/// The slot that names a dish.
pub open spec fn menu_slot_name() -> Seq<char> {
    "menu_name"@
}

/// The views of the slots.
pub open spec fn slots_view(slots: Seq<(String, String)>) -> Seq<(Seq<char>, Seq<char>)> {
    slots.map_values(|p: (String, String)| (p.0@, p.1@))
}

/// The dishes that the slots name, in order.
pub open spec fn menu_slots(slots: Seq<(Seq<char>, Seq<char>)>) -> Seq<IntentSlot>
    decreases slots.len(),
{
    if slots.len() == 0 {
        Seq::empty()
    } else {
        let rest = menu_slots(slots.drop_last());
        let last = slots.last();
        if last.0 == menu_slot_name() {
            rest.push(IntentSlot::Menu(menu_of(last.1)->0))
        } else {
            rest
        }
    }
}

/// Whether every slot that names a dish names one the speaker knows.
pub open spec fn menus_known(slots: Seq<(Seq<char>, Seq<char>)>) -> bool {
    forall|i: int| 0 <= i < slots.len() && (#[trigger] slots[i]).0 == menu_slot_name() ==> menu_of(slots[i].1) is Some
}

/// Whether an inference can be read: one the engine made names its intent, and
/// where the intent is one the speaker knows, its dishes are ones it knows.
pub open spec fn inference_readable(intent: Option<Seq<char>>, slots: Seq<(Seq<char>, Seq<char>)>, made: bool) -> bool {
    made ==> (intent is Some && (intent_action_of(intent->0) is Some ==> menus_known(slots)))
}

/// What recognised speech comes to: a success with the intent and the dishes it
/// names where the engine made an inference with an intent the speaker knows, else
/// a failure with no intent.
pub open spec fn inference_outcome(intent: Option<Seq<char>>, slots: Seq<(Seq<char>, Seq<char>)>, made: bool) -> (ProcessResult, IntentContentView) {
    let failure = (ProcessResult::Failure, IntentContentView { intent: IntentAction::Nothing, entities: Seq::empty() });
    if !made {
        failure
    } else {
        match intent_action_of(intent->0) {
            Some(a) => (ProcessResult::Success, IntentContentView { intent: a, entities: menu_slots(slots) }),
            None => failure,
        }
    }
}

/// The view of an inference's intent.
pub open spec fn intent_name_view(i: Option<String>) -> Option<Seq<char>> {
    match i {
        Some(s) => Some(s@),
        None => None,
    }
}

/// Reads what the speech-to-intent engine inferred, if it inferred anything.
pub fn intent_from_inference(inference: &Option<SpeechInference>) -> (r: (ProcessResult, IntentContent))
    requires
        match inference {
            Some(i) => inference_readable(intent_name_view(i.intent), slots_view(i.slots@), true),
            None => true,
        },
    ensures
        (r.0, r.1@) == (match inference {
            Some(i) => inference_outcome(intent_name_view(i.intent), slots_view(i.slots@), true),
            None => inference_outcome(None, Seq::empty(), false),
        }),
{
    let failure = IntentContent::new(IntentAction::Nothing, Vec::new());
    match inference {
        None => (ProcessResult::Failure, failure),
        Some(i) => {
            let name = match &i.intent {
                Some(n) => n,
                None => {
                    return (ProcessResult::Failure, failure);
                },
            };
            match IntentAction::from_str(name.as_str()) {
                Ok(action) => {
                    let mut entities: Vec<IntentSlot> = Vec::new();
                    let mut k: usize = 0;
                    while k < i.slots.len()
                        invariant
                            k <= i.slots@.len(),
                            menus_known(slots_view(i.slots@)),
                            entities@ == menu_slots(slots_view(i.slots@).take(k as int)),
                        decreases i.slots@.len() - k,
                    {
                        let ghost sv = slots_view(i.slots@);
                        assert(sv.take(k as int + 1).drop_last() =~= sv.take(k as int));
                        assert(sv.take(k as int + 1).last() == sv[k as int]);
                        let (key, value) = &i.slots[k];
                        if str_eq(key.as_str(), "menu_name") {
                            assert(sv[k as int].0 == menu_slot_name());
                            match IntentCookingMenu::from_str(value.as_str()) {
                                Ok(m) => entities.push(IntentSlot::Menu(m)),
                                Err(_) => {
                                    proof { assert(false); }
                                },
                            }
                        }
                        k = k + 1;
                    }
                    assert(slots_view(i.slots@).take(i.slots@.len() as int) =~= slots_view(i.slots@));
                    (ProcessResult::Success, IntentContent::new(action, entities))
                },
                Err(_) => (ProcessResult::Failure, failure),
            }
        },
    }
}

/// Keeps the last audio frames an actor looked at, so that it looks at each only once.
#[derive(Debug, PartialEq)]
pub struct StreamFilter {
    pub previous: Vec<i16>,
}

impl StreamFilter {
    pub fn new() -> (r: Self)
        ensures
            r.previous@ == Seq::<i16>::empty(),
    {
        StreamFilter { previous: Vec::new() }
    }

    /// Whether `stream` differs from the frames looked at last; where it does, it
    /// becomes the frames looked at last.
    pub fn is_new(&mut self, stream: &Vec<i16>) -> (r: bool)
        ensures
            r == (stream@ != old(self).previous@),
            final(self).previous@ == (if r { stream@ } else { old(self).previous@ }),
    {
        let mut same = stream.len() == self.previous.len();
        let mut i: usize = 0;
        while same && i < stream.len()
            invariant
                same ==> stream@.len() == self.previous@.len(),
                same ==> forall|j: int| 0 <= j < i ==> stream@[j] == self.previous@[j],
                !same ==> stream@ != self.previous@,
                i <= stream@.len(),
            decreases stream@.len() - i,
        {
            if stream[i] != self.previous[i] {
                same = false;
            }
            i = i + 1;
        }
        if same {
            assert(stream@ =~= self.previous@);
            false
        } else {
            self.previous = crate::messages::copy_vec(stream);
            true
        }
    }
}

} // verus!
