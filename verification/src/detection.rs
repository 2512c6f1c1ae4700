use vstd::prelude::*;

use crate::hsv::HsvThresholds;
use crate::http::str_equal;
use crate::targets::{spec_target_name, TargetSettings};

verus! {

/// A pixel position in the camera frame.
#[derive(Clone, Copy, Debug, PartialEq, Eq, Structural)]
pub struct PixelPoint {
    pub x: i32,
    pub y: i32,
}

/// Result of looking for one target in one frame.
#[derive(Clone, Copy, Debug, PartialEq, Eq, Structural)]
pub struct DetectionOutput {
    pub target_index: usize,
    pub hsv_thresholds: HsvThresholds,
    pub detection: Option<PixelPoint>,
}

/// One found target as sent to the subscribed controller.
#[derive(Clone, Debug)]
pub struct TargetCoordinate {
    pub target_index: usize,
    pub target_name: String,
    pub x: i32,
    pub y: i32,
}

/// A sent coordinate with its name as characters.
pub struct TargetCoordinateView {
    pub target_index: usize,
    pub target_name: Seq<char>,
    pub x: i32,
    pub y: i32,
}

impl View for TargetCoordinate {
    type V = TargetCoordinateView;

    open spec fn view(&self) -> TargetCoordinateView {
        TargetCoordinateView {
            target_index: self.target_index,
            target_name: self.target_name@,
            x: self.x,
            y: self.y,
        }
    }
}

/// The coordinates sent for `detections`: one per found target, in order,
/// labelled with the target's name; targets not found are left out.
pub open spec fn spec_target_coordinates(
    names: Seq<Seq<char>>,
    detections: Seq<DetectionOutput>,
) -> Seq<TargetCoordinateView>
    decreases detections.len(),
{
    if detections.len() == 0 {
        Seq::empty()
    } else {
        let rest = spec_target_coordinates(names, detections.drop_last());
        let d = detections.last();
        match d.detection {
            Some(p) => rest.push(
                TargetCoordinateView {
                    target_index: d.target_index,
                    target_name: spec_target_name(names, d.target_index as int),
                    x: p.x,
                    y: p.y,
                },
            ),
            None => rest,
        }
    }
}

/// Turn one frame's detections into the coordinates sent to the controller.
pub fn target_coordinates(targets: &TargetSettings, detections: &[DetectionOutput]) -> (r: Vec<
    TargetCoordinate,
>)
    requires
        forall|i: int| 0 <= i < detections@.len() ==> #[trigger] detections@[i].target_index < usize::MAX,
    ensures
        r@.map_values(|c: TargetCoordinate| c@) == spec_target_coordinates(
            targets.names_view(),
            detections@,
        ),
{
    let mut out: Vec<TargetCoordinate> = Vec::new();
    let n = detections.len();
    for i in 0..n
        invariant
            n == detections@.len(),
            forall|k: int| 0 <= k < detections@.len() ==> #[trigger] detections@[k].target_index < usize::MAX,
            out@.map_values(|c: TargetCoordinate| c@) == spec_target_coordinates(
                targets.names_view(),
                detections@.take(i as int),
            ),
    {
        let d = detections[i];
        assert(detections@.take(i + 1).drop_last() =~= detections@.take(i as int));
        if let Some(p) = d.detection {
            let name = targets.target_name(d.target_index);
            let ghost before = out@;
            out.push(TargetCoordinate { target_index: d.target_index, target_name: name, x: p.x, y: p.y });
            assert(out@.map_values(|c: TargetCoordinate| c@) =~= before.map_values(
                |c: TargetCoordinate| c@,
            ).push(out@.last()@));
        }
    }
    assert(detections@.take(n as int) =~= detections@);
    out
}

/// What a detection received by the controller is taken to be.
#[derive(Clone, Copy, Debug, PartialEq, Eq, Structural)]
pub enum DetectionTarget {
    Puck,
    Robot,
    Unknown,
}

pub open spec fn spec_target_kind(name: Seq<char>) -> DetectionTarget {
    if name == "Puck"@ {
        DetectionTarget::Puck
    } else if name == "Robot"@ {
        DetectionTarget::Robot
    } else {
        DetectionTarget::Unknown
    }
}

impl DetectionTarget {
    /// The target a detection's name stands for: exactly "Puck" or "Robot",
    /// anything else is unknown.
    pub fn from_target_name(name: &str) -> (r: DetectionTarget)
        ensures
            r == spec_target_kind(name@),
    {
        if str_equal(name, "Puck") {
            DetectionTarget::Puck
        } else if str_equal(name, "Robot") {
            DetectionTarget::Robot
        } else {
            DetectionTarget::Unknown
        }
    }
}

/// Position of the last detection of `target` in `kinds`; a later detection
/// of the same target replaces an earlier one.
pub open spec fn spec_latest_index(kinds: Seq<DetectionTarget>, target: DetectionTarget) -> Option<
    int,
>
    decreases kinds.len(),
{
    if kinds.len() == 0 {
        None
    } else if kinds.last() == target {
        Some(kinds.len() - 1)
    } else {
        spec_latest_index(kinds.drop_last(), target)
    }
}

/// Index of the detection of `target` that wins when a message reports it
/// more than once.
pub fn latest_index_of(kinds: &[DetectionTarget], target: DetectionTarget) -> (r: Option<usize>)
    ensures
        match r {
            Some(i) => spec_latest_index(kinds@, target) == Some(i as int),
            None => spec_latest_index(kinds@, target) is None,
        },
{
    let mut found: Option<usize> = None;
    let n = kinds.len();
    for i in 0..n
        invariant
            n == kinds@.len(),
            match found {
                Some(j) => spec_latest_index(kinds@.take(i as int), target) == Some(j as int),
                None => spec_latest_index(kinds@.take(i as int), target) is None,
            },
    {
        assert(kinds@.take(i + 1).drop_last() =~= kinds@.take(i as int));
        if kinds[i] == target {
            found = Some(i);
        }
    }
    assert(kinds@.take(n as int) =~= kinds@);
    found
}

/// The chosen detection really is of the target, and no later one is.
pub proof fn lemma_latest_index(kinds: Seq<DetectionTarget>, target: DetectionTarget)
    ensures
        spec_latest_index(kinds, target) matches Some(i) ==> 0 <= i < kinds.len() && kinds[i]
            == target && forall|j: int| i < j < kinds.len() ==> kinds[j] != target,
        spec_latest_index(kinds, target) is None ==> forall|j: int|
            0 <= j < kinds.len() ==> kinds[j] != target,
    decreases kinds.len(),
{
    if kinds.len() > 0 {
        lemma_latest_index(kinds.drop_last(), target);
        if kinds.last() != target {
            assert forall|j: int| 0 <= j < kinds.len() - 1 implies kinds[j] == kinds.drop_last()[j] by {}
        }
    }
}

} // verus!
