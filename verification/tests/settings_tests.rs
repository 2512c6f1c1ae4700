use rockey_hockey::hsv::{HsvThresholds, ProcessingQuality};
use rockey_hockey::input::InputSource;
use rockey_hockey::targets::TargetSettings;

fn window(h_min: i32, s_min: i32, v_min: i32, h_max: i32, s_max: i32, v_max: i32) -> HsvThresholds {
    HsvThresholds { h_min, s_min, v_min, h_max, s_max, v_max }
}

#[test]
fn normalized_clamps_into_channel_ranges() {
    let t = window(-5, 300, 10, 500, -1, 5).normalized();
    assert_eq!(t, window(0, 255, 10, 179, 255, 10));
}

#[test]
fn normalized_keeps_valid_window() {
    let t = window(36, 91, 100, 47, 255, 209);
    assert_eq!(t.normalized(), t);
}

#[test]
fn normalized_raises_max_to_min() {
    let t = window(100, 50, 60, 20, 40, 59).normalized();
    assert_eq!(t, window(100, 50, 60, 100, 50, 60));
    assert_eq!(t.normalized(), t);
}

#[test]
fn default_thresholds_match_puck_colour() {
    assert_eq!(HsvThresholds::default(), window(36, 91, 100, 47, 255, 209));
}

#[test]
fn morphology_kernel_sizes() {
    assert_eq!(ProcessingQuality::High.morphology_kernel_size(), 5);
    assert_eq!(ProcessingQuality::Medium.morphology_kernel_size(), 5);
    assert_eq!(ProcessingQuality::Low.morphology_kernel_size(), 3);
    assert_eq!(ProcessingQuality::UltraLow.morphology_kernel_size(), 1);
}

fn settings(names: &[&str]) -> TargetSettings {
    TargetSettings {
        hsv: HsvThresholds::default(),
        additional_hsv_targets: vec![window(0, 0, 0, 10, 10, 10), window(200, 0, 0, 0, 0, 0)],
        target_names: names.iter().map(|s| s.to_string()).collect(),
    }
}

#[test]
fn all_hsv_targets_primary_first() {
    let s = settings(&[]);
    let all = s.all_hsv_targets();
    assert_eq!(all.len(), 3);
    assert_eq!(all[0], HsvThresholds::default());
    assert_eq!(all[1], window(0, 0, 0, 10, 10, 10));
    assert_eq!(all[2], window(200, 0, 0, 0, 0, 0));
}

#[test]
fn detector_thresholds_are_normalized() {
    let s = settings(&[]);
    let t = s.detector_thresholds();
    assert_eq!(t.len(), 3);
    assert_eq!(t[2], window(179, 0, 0, 179, 0, 0));
}

#[test]
fn target_name_uses_trimmed_configured_name() {
    let s = settings(&["  Puck \t", "\u{3000}Robot\u{2009}", "   "]);
    assert_eq!(s.target_name(0), "Puck");
    assert_eq!(s.target_name(1), "Robot");
}

#[test]
fn target_name_falls_back_for_blank_or_missing() {
    let s = settings(&["", "", "  "]);
    assert_eq!(s.target_name(0), "Primary target");
    assert_eq!(s.target_name(2), "Target 3");
    assert_eq!(s.target_name(9), "Target 10");
    assert_eq!(s.target_name(122), "Target 123");
}

#[test]
fn target_name_without_names() {
    let s = settings(&[]);
    assert_eq!(s.target_name(0), "Primary target");
    assert_eq!(s.target_name(1), "Target 2");
}

#[test]
fn opening_skipped_only_at_lowest_quality() {
    assert!(ProcessingQuality::UltraLow.skips_opening());
    assert!(!ProcessingQuality::Low.skips_opening());
    assert!(!ProcessingQuality::High.skips_opening());
}

#[test]
fn input_source_from_command_line() {
    assert_eq!(
        InputSource::from_options(Some("match.mp4".to_string()), true),
        InputSource::VideoFile("match.mp4".to_string())
    );
    assert_eq!(InputSource::from_options(None, true), InputSource::PiCamera);
    assert_eq!(InputSource::from_options(None, false), InputSource::Camera(0));
}

#[test]
fn labels_are_never_blank() {
    let s = settings(&["  ", "\tGoal keeper \n", ""]);
    let labels: Vec<String> = (0..5usize).map(|i: usize| s.target_name(i)).collect();
    for label in &labels {
        assert!(!label.is_empty());
        assert_eq!(label.trim(), label.as_str());
    }
    assert_eq!(s.target_name(1), "Goal keeper");
}
