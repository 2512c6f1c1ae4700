use rockey_hockey::controller::{
    camera_is_stale, choose_aim, choose_strategy, command_interval_ms, enqueue_deadband_mm,
    metrics_window_over, queue_depth_after_dequeue, should_send_move, MoveRequest, MoveType,
    PuckSituation, SpeedBand, State, StrategyChoice, AimChoice,
};
use rockey_hockey::metrics::{whole_millis, RuntimeMetrics};

#[test]
fn mode_switches_with_hysteresis() {
    assert_eq!(State::Defending.next(SpeedBand::Above), State::Attacking);
    assert_eq!(State::Defending.next(SpeedBand::AtThreshold), State::Defending);
    assert_eq!(State::Attacking.next(SpeedBand::AtThreshold), State::Attacking);
    assert_eq!(State::Attacking.next(SpeedBand::Below), State::Defending);
    assert_eq!(State::Defending.next(SpeedBand::Below), State::Defending);
}

#[test]
fn command_intervals() {
    assert_eq!(command_interval_ms(0, MoveType::FastIntercept), 8);
    assert_eq!(command_interval_ms(1, MoveType::SlowIntercept), 8);
    assert_eq!(command_interval_ms(1, MoveType::Defend), 60);
    assert_eq!(command_interval_ms(2, MoveType::FastIntercept), 80);
    assert!(MoveType::FastIntercept.is_aggressive());
    assert!(!MoveType::Defend.is_aggressive());
}

#[test]
fn strategy_priorities() {
    let s = |at_left_border, moving, heads_for_goal, playable_speed, within_attack_reach| PuckSituation {
        at_left_border,
        moving,
        heads_for_goal,
        playable_speed,
        within_attack_reach,
    };
    assert_eq!(choose_strategy(s(true, true, true, false, true)), StrategyChoice::Hold);
    assert_eq!(choose_strategy(s(false, true, true, false, true)), StrategyChoice::BlockGoal);
    assert_eq!(choose_strategy(s(true, false, false, true, true)), StrategyChoice::RepositionAtBorder);
    assert_eq!(choose_strategy(s(false, false, false, true, true)), StrategyChoice::Attack);
    assert_eq!(choose_strategy(s(false, false, false, true, false)), StrategyChoice::Hold);
}

#[test]
fn metrics_window() {
    let mut m = RuntimeMetrics::new();
    m.record_frame(5_000_000, 1_000, 2);
    m.record_frame(3_000_000, 9_000, 0);
    m.record_command();
    let w = m.take_window();
    assert_eq!((w.frames_processed, w.commands_sent, w.dropped_frames), (2, 1, 2));
    assert_eq!((w.max_frame_age_ns, w.max_process_time_ns), (5_000_000, 9_000));
    assert_eq!(m, RuntimeMetrics::new());
    assert_eq!(whole_millis(w.max_frame_age_ns), 5);
    assert_eq!(whole_millis(999_999), 0);
}

#[test]
fn move_gate() {
    let req = |move_type: MoveType,
               queue_depth: usize,
               since_last_command_ns: Option<u128>,
               near_previous_target: bool,
               near_last_sent: bool| MoveRequest {
        move_type,
        queue_depth,
        since_last_command_ns,
        near_previous_target,
        near_last_sent,
    };
    assert!(should_send_move(req(MoveType::Defend, 0, None, false, false)));
    assert!(!should_send_move(req(MoveType::Defend, 0, Some(59_999_999), false, false)));
    assert!(should_send_move(req(MoveType::Defend, 0, Some(60_000_000), false, false)));
    assert!(should_send_move(req(MoveType::FastIntercept, 1, Some(8_000_000), false, false)));
    assert!(!should_send_move(req(MoveType::FastIntercept, 2, Some(79_000_000), false, false)));
    assert!(!should_send_move(req(MoveType::Defend, 0, None, true, false)));
    assert!(should_send_move(req(MoveType::SlowIntercept, 0, None, true, false)));
    assert!(!should_send_move(req(MoveType::SlowIntercept, 0, None, false, true)));
}

#[test]
fn deadbands_staleness_and_queue() {
    assert_eq!(enqueue_deadband_mm(MoveType::FastIntercept), 6);
    assert_eq!(enqueue_deadband_mm(MoveType::Defend), 20);
    assert!(camera_is_stale(None));
    assert!(!camera_is_stale(Some(120_000_000)));
    assert!(camera_is_stale(Some(120_000_001)));
    assert!(!metrics_window_over(999_999_999));
    assert!(metrics_window_over(1_000_000_000));
    assert_eq!(queue_depth_after_dequeue(0), 0);
    assert_eq!(queue_depth_after_dequeue(3), 2);
}

#[test]
fn attack_aim_prefers_safe_banks() {
    assert_eq!(choose_aim(true, false, false), AimChoice::TopBank);
    assert_eq!(choose_aim(false, true, true), AimChoice::BottomBank);
    assert_eq!(choose_aim(true, true, true), AimChoice::TopBank);
    assert_eq!(choose_aim(true, true, false), AimChoice::BottomBank);
    assert_eq!(choose_aim(false, false, true), AimChoice::GoalCentre);
}
