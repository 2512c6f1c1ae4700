use rockey_hockey::detection::{latest_index_of, target_coordinates, DetectionOutput, DetectionTarget, PixelPoint};
use rockey_hockey::hsv::HsvThresholds;
use rockey_hockey::targets::TargetSettings;
use DetectionTarget::{Puck, Robot, Unknown};

#[test]
fn coordinates_skip_missing_detections() {
    let targets = TargetSettings {
        hsv: HsvThresholds::default(),
        additional_hsv_targets: vec![HsvThresholds::default(), HsvThresholds::default()],
        target_names: vec!["Puck".to_string(), " ".to_string()],
    };
    let d = |i: usize, p: Option<(i32, i32)>| DetectionOutput {
        target_index: i,
        hsv_thresholds: HsvThresholds::default(),
        detection: p.map(|(x, y)| PixelPoint { x, y }),
    };
    let out = target_coordinates(&targets, &[d(0, Some((10, 20))), d(1, None), d(2, Some((-3, 4)))]);
    assert_eq!(out.len(), 2);
    assert_eq!((out[0].target_index, out[0].target_name.as_str(), out[0].x, out[0].y), (0, "Puck", 10, 20));
    assert_eq!((out[1].target_index, out[1].target_name.as_str(), out[1].x, out[1].y), (2, "Target 3", -3, 4));
    assert!(target_coordinates(&targets, &[d(0, None)]).is_empty());
}

#[test]
fn target_names_classify() {
    assert_eq!(DetectionTarget::from_target_name("Puck"), Puck);
    assert_eq!(DetectionTarget::from_target_name("Robot"), DetectionTarget::Robot);
    assert_eq!(DetectionTarget::from_target_name("puck"), DetectionTarget::Unknown);
    assert_eq!(DetectionTarget::from_target_name(" Robot"), DetectionTarget::Unknown);
}

#[test]
fn latest_detection_wins() {
    let kinds = [Puck, Robot, Unknown, Puck, Unknown];
    assert_eq!(latest_index_of(&kinds, Puck), Some(3));
    assert_eq!(latest_index_of(&kinds, Robot), Some(1));
    assert_eq!(latest_index_of(&[Unknown], Robot), None);
    assert_eq!(latest_index_of(&[], Puck), None);
}
