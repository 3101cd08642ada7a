use vstd::prelude::*;
use crate::vision::VisionAction;

verus! {

/// What the speaker waits for before it goes on with a task.
#[derive(Debug, PartialEq)]
pub enum WaitingInteraction {
    Skip,
    Exit,
    Speak,
    Vision(Vec<VisionAction>),
}

/// What the speaker is doing.
#[derive(Debug, PartialEq)]
pub enum SmartSpeakerState {
    Idle,
    Attention,
    WaitingForInteraction(WaitingInteraction),
    Speaking,
}

/// What the speaker waits for, as plain values.
pub enum WaitingView {
    Skip,
    Exit,
    Speak,
    Vision(Seq<VisionAction>),
}

/// What the speaker is doing, as plain values.
pub enum StateView {
    Idle,
    Attention,
    WaitingForInteraction(WaitingView),
    Speaking,
}

impl View for WaitingInteraction {
    type V = WaitingView;

    open spec fn view(&self) -> WaitingView {
        match self {
            WaitingInteraction::Skip => WaitingView::Skip,
            WaitingInteraction::Exit => WaitingView::Exit,
            WaitingInteraction::Speak => WaitingView::Speak,
            WaitingInteraction::Vision(a) => WaitingView::Vision(a@),
        }
    }
}

impl View for SmartSpeakerState {
    type V = StateView;

    open spec fn view(&self) -> StateView {
        match self {
            SmartSpeakerState::Idle => StateView::Idle,
            SmartSpeakerState::Attention => StateView::Attention,
            SmartSpeakerState::WaitingForInteraction(w) => StateView::WaitingForInteraction(w@),
            SmartSpeakerState::Speaking => StateView::Speaking,
        }
    }
}

/// A copy of a list of vision requests.
pub fn copy_actions(v: &Vec<VisionAction>) -> (r: Vec<VisionAction>)
    ensures
        r@ == v@,
{
    let mut r: Vec<VisionAction> = Vec::new();
    let mut i: usize = 0;
    while i < v.len()
        invariant
            i <= v@.len(),
            r@ == v@.subrange(0, i as int),
        decreases v@.len() - i,
    {
        r.push(v[i]);
        i = i + 1;
    }
    assert(r@ =~= v@);
    r
}

impl Clone for WaitingInteraction {
    fn clone(&self) -> (r: Self)
        ensures
            r@ == self@,
    {
        match self {
            WaitingInteraction::Skip => WaitingInteraction::Skip,
            WaitingInteraction::Exit => WaitingInteraction::Exit,
            WaitingInteraction::Speak => WaitingInteraction::Speak,
            WaitingInteraction::Vision(actions) => {
                let a = copy_actions(actions);
                WaitingInteraction::Vision(a)
            },
        }
    }
}

impl Clone for SmartSpeakerState {
    fn clone(&self) -> (r: Self)
        ensures
            r@ == self@,
    {
        match self {
            SmartSpeakerState::Idle => SmartSpeakerState::Idle,
            SmartSpeakerState::Attention => SmartSpeakerState::Attention,
            SmartSpeakerState::WaitingForInteraction(w) => SmartSpeakerState::WaitingForInteraction(w.clone()),
            SmartSpeakerState::Speaking => SmartSpeakerState::Speaking,
        }
    }
}

} // verus!
