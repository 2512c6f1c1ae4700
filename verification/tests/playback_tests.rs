use rockey_hockey::playback::{
    PlaybackControlSnapshot, PlaybackControlState, PlaybackControlUpdate, PlaybackCursor, RunnerAction,
    SharedPlaybackControl,
};

fn update(paused: Option<bool>, reprocess: Option<bool>, step: Option<bool>) -> PlaybackControlUpdate {
    PlaybackControlUpdate { paused, reprocess_current_frame: reprocess, step_next_frame: step }
}

#[test]
fn state_apply_counts_requests() {
    let mut s = PlaybackControlState::new();
    s.apply(update(Some(true), Some(true), None));
    assert_eq!(s.snapshot(), PlaybackControlSnapshot { paused: true, reprocess_generation: 1, step_generation: 0 });
    s.apply(update(None, Some(false), Some(true)));
    assert_eq!(s.snapshot(), PlaybackControlSnapshot { paused: true, reprocess_generation: 1, step_generation: 1 });
    s.apply(update(Some(false), None, None));
    assert!(!s.state().paused);
}

#[test]
fn state_generation_wraps() {
    let mut s = PlaybackControlState { paused: false, reprocess_generation: u64::MAX, step_generation: u64::MAX };
    s.apply(update(None, Some(true), Some(true)));
    assert_eq!(s.reprocess_generation, 0);
    assert_eq!(s.step_generation, 0);
}

#[test]
fn shared_control_apply_and_read() {
    let control = SharedPlaybackControl::new();
    assert!(!control.get_state().paused);
    let other = control.clone();
    assert!(other.apply_update(update(Some(true), None, Some(true))).paused);
    let snap = control.snapshot();
    assert_eq!(snap, PlaybackControlSnapshot { paused: true, reprocess_generation: 0, step_generation: 1 });
    assert!(!control.apply_update(update(Some(false), Some(true), None)).paused);
    assert_eq!(other.snapshot().reprocess_generation, 1);
    assert!(!SharedPlaybackControl::default().snapshot().paused);
}

fn snap(paused: bool, reprocess: u64, step: u64) -> PlaybackControlSnapshot {
    PlaybackControlSnapshot { paused, reprocess_generation: reprocess, step_generation: step }
}

#[test]
fn cursor_plays_when_running() {
    let mut c = PlaybackCursor::new();
    assert_eq!(c.next_action(snap(false, 3, 5)), RunnerAction::PlayFrame);
    assert_eq!(c.last_step_generation, 5);
    assert_eq!(c.last_reprocess_generation, 0);
}

#[test]
fn cursor_serves_each_request_once() {
    let mut c = PlaybackCursor::new();
    let s = snap(true, 1, 1);
    assert_eq!(c.next_action(s), RunnerAction::StepFrame);
    assert_eq!(c.next_action(s), RunnerAction::ReprocessCurrentFrame);
    assert_eq!(c.next_action(s), RunnerAction::Wait);
    assert_eq!(c.next_action(s), RunnerAction::Wait);
    assert_eq!(c.next_action(snap(true, 2, 1)), RunnerAction::ReprocessCurrentFrame);
}

#[test]
fn paused_step_request_steps_exactly_once() {
    let control = SharedPlaybackControl::new();
    let mut cursor = PlaybackCursor::new();
    assert!(control.apply_update(update(Some(true), None, None)).paused);
    assert_eq!(cursor.next_action(control.snapshot()), RunnerAction::Wait);
    control.apply_update(update(None, None, Some(true)));
    assert_eq!(cursor.next_action(control.snapshot()), RunnerAction::StepFrame);
    assert_eq!(cursor.next_action(control.snapshot()), RunnerAction::Wait);
    control.apply_update(update(None, Some(true), None));
    assert_eq!(cursor.next_action(control.snapshot()), RunnerAction::ReprocessCurrentFrame);
    assert_eq!(cursor.next_action(control.snapshot()), RunnerAction::Wait);
}
