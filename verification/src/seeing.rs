use vstd::prelude::*;
use crate::messages::{VisionContent, VisionContentView};
use crate::state::{SmartSpeakerState, StateView, WaitingInteraction, WaitingView};
use crate::vision::{DetectionDetail, DetectionMode, VisionAction};

verus! {

/// The detections a list of vision requests asks for: each object detection with
/// markers, in order; requests for nothing are left out.
pub open spec fn detections_of(actions: Seq<VisionAction>) -> Seq<DetectionDetail>
    decreases actions.len(),
{
    if actions.len() == 0 {
        Seq::empty()
    } else {
        let rest = detections_of(actions.drop_last());
        match actions.last() {
            VisionAction::ObjectDetection(d) => if d.detection_mode == DetectionMode::Aruco { rest.push(d) } else { rest },
            VisionAction::Nothing => rest,
        }
    }
}

/// What the vision actor is asked to detect by a state update: the detections
/// the speaker waits for, or `None` where it does not wait for the vision.
pub open spec fn vision_requests_of(s: StateView) -> Option<Seq<DetectionDetail>> {
    match s {
        StateView::WaitingForInteraction(WaitingView::Vision(actions)) => Some(detections_of(actions)),
        _ => None,
    }
}

/// The detections a state update asks for.
pub fn vision_requests(state: &SmartSpeakerState) -> (r: Option<Vec<DetectionDetail>>)
    ensures
        match (r, vision_requests_of(state@)) {
            (Some(v), Some(w)) => v@ == w,
            (None, None) => true,
            _ => false,
        },
{
    match state {
        SmartSpeakerState::WaitingForInteraction(WaitingInteraction::Vision(actions)) => {
            let mut r: Vec<DetectionDetail> = Vec::new();
            let mut i: usize = 0;
            while i < actions.len()
                invariant
                    i <= actions@.len(),
                    r@ == detections_of(actions@.take(i as int)),
                decreases actions@.len() - i,
            {
                assert(actions@.take(i as int + 1).drop_last() =~= actions@.take(i as int));
                match actions[i] {
                    VisionAction::ObjectDetection(d) => {
                        if d.detection_mode == DetectionMode::Aruco {
                            r.push(d);
                        }
                    },
                    VisionAction::Nothing => {},
                }
                i = i + 1;
            }
            assert(actions@.take(actions@.len() as int) =~= actions@);
            Some(r)
        },
        _ => None,
    }
}

/// The views of a list of vision contents.
pub open spec fn contents_view(v: Seq<VisionContent>) -> Seq<VisionContentView> {
    v.map_values(|c: VisionContent| c@)
}

/// What was found, in order, among the outcomes of the detections.
pub open spec fn found_of(outcomes: Seq<Option<VisionContentView>>) -> Seq<VisionContentView>
    decreases outcomes.len(),
{
    if outcomes.len() == 0 {
        Seq::empty()
    } else {
        let rest = found_of(outcomes.drop_last());
        match outcomes.last() {
            Some(c) => rest.push(c),
            None => rest,
        }
    }
}

/// The number of detections that failed.
pub open spec fn failures_of(outcomes: Seq<Option<VisionContentView>>) -> nat
    decreases outcomes.len(),
{
    if outcomes.len() == 0 {
        0
    } else {
        failures_of(outcomes.drop_last()) + if outcomes.last() is None { 1nat } else { 0nat }
    }
}

/// The views of the outcomes of the detections.
pub open spec fn outcomes_view(v: Seq<Option<VisionContent>>) -> Seq<Option<VisionContentView>> {
    v.map_values(|o: Option<VisionContent>| match o { Some(c) => Some(c@), None => None })
}

/// What the vision actor reports after its detections: how many failed (each is
/// reported as a failure with nothing found), and then everything found, in order,
/// reported as a success.
pub fn vision_reports(outcomes: &Vec<Option<VisionContent>>) -> (r: (usize, Vec<VisionContent>))
    ensures
        r.0 == failures_of(outcomes_view(outcomes@)),
        contents_view(r.1@) == found_of(outcomes_view(outcomes@)),
{
    let ghost all = outcomes_view(outcomes@);
    let mut failures: usize = 0;
    let mut found: Vec<VisionContent> = Vec::new();
    let mut i: usize = 0;
    while i < outcomes.len()
        invariant
            i <= outcomes@.len(),
            all == outcomes_view(outcomes@),
            failures <= i,
            failures == failures_of(all.take(i as int)),
            contents_view(found@) == found_of(all.take(i as int)),
        decreases outcomes@.len() - i,
    {
        assert(all.take(i as int + 1).drop_last() =~= all.take(i as int));
        assert(all.take(i as int + 1).last() == all[i as int]);
        match &outcomes[i] {
            Some(c) => {
                let ghost before = found@;
                found.push(c.clone());
                assert(contents_view(found@) =~= contents_view(before).push(c@));
            },
            None => {
                failures = failures + 1;
            },
        }
        i = i + 1;
    }
    assert(all.take(outcomes@.len() as int) =~= all);
    (failures, found)
}

} // verus!
