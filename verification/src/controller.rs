use vstd::prelude::*;

verus! {

/// Mode of the headless robot controller.
#[derive(Clone, Copy, Debug, PartialEq, Eq, Structural)]
pub enum State {
    Defending,
    Attacking,
}

/// Where the puck's sideways speed lies against the mode-switch threshold.
#[derive(Clone, Copy, Debug, PartialEq, Eq, Structural)]
pub enum SpeedBand {
    Below,
    AtThreshold,
    Above,
}

impl State {
    /// Defending switches to attacking only above the threshold, attacking
    /// back to defending only below it; at the threshold the mode is kept.
    pub open spec fn spec_next(self, band: SpeedBand) -> State {
        match (self, band) {
            (State::Defending, SpeedBand::Above) => State::Attacking,
            (State::Attacking, SpeedBand::Below) => State::Defending,
            _ => self,
        }
    }

    /// The mode after seeing the puck's current speed band.
    pub fn next(self, band: SpeedBand) -> (r: State)
        ensures
            r == self.spec_next(band),
    {
        match (self, band) {
            (State::Defending, SpeedBand::Above) => State::Attacking,
            (State::Attacking, SpeedBand::Below) => State::Defending,
            _ => self,
        }
    }
}

/// The mode only depends on the last band seen once the band settles:
/// seeing the same band again changes nothing, and a band at the threshold
/// never changes the mode.
pub proof fn lemma_mode_hysteresis(s: State, band: SpeedBand)
    ensures
        s.spec_next(band).spec_next(band) == s.spec_next(band),
        s.spec_next(SpeedBand::AtThreshold) == s,
        s.spec_next(SpeedBand::Above) == State::Attacking,
        s.spec_next(SpeedBand::Below) == State::Defending,
{
}

/// Kind of move target the controller asks for.
#[derive(Clone, Copy, Debug, PartialEq, Eq, Structural)]
pub enum MoveType {
    FastIntercept,
    SlowIntercept,
    Defend,
}

impl MoveType {
    /// Intercepts are sent unsmoothed and with the short command interval.
    pub open spec fn spec_is_aggressive(self) -> bool {
        self == MoveType::FastIntercept || self == MoveType::SlowIntercept
    }

    pub fn is_aggressive(self) -> (r: bool)
        ensures
            r == self.spec_is_aggressive(),
    {
        match self {
            MoveType::FastIntercept | MoveType::SlowIntercept => true,
            MoveType::Defend => false,
        }
    }
}

/// Queue depth from which commands are throttled hardest.
pub const COMMAND_QUEUE_BACKPRESSURE_DEPTH: usize = 2;

/// Minimum gap between commands while the queue is backed up.
pub const BACKPRESSURE_COMMAND_INTERVAL_MS: u64 = 80;

/// Minimum gap between intercept commands.
pub const AGGRESSIVE_COMMAND_MIN_INTERVAL_MS: u64 = 8;

/// Minimum gap between other commands.
pub const COMMAND_TTL_MS: u64 = 60;

pub open spec fn spec_command_interval_ms(queue_depth: usize, move_type: MoveType) -> u64 {
    if queue_depth >= COMMAND_QUEUE_BACKPRESSURE_DEPTH {
        BACKPRESSURE_COMMAND_INTERVAL_MS
    } else if move_type.spec_is_aggressive() {
        AGGRESSIVE_COMMAND_MIN_INTERVAL_MS
    } else {
        COMMAND_TTL_MS
    }
}

/// How long after the last command a new one of `move_type` may be sent,
/// given how many commands still wait in the stepper queue.
pub fn command_interval_ms(queue_depth: usize, move_type: MoveType) -> (r: u64)
    ensures
        r == spec_command_interval_ms(queue_depth, move_type),
{
    if queue_depth >= COMMAND_QUEUE_BACKPRESSURE_DEPTH {
        BACKPRESSURE_COMMAND_INTERVAL_MS
    } else if move_type.is_aggressive() {
        AGGRESSIVE_COMMAND_MIN_INTERVAL_MS
    } else {
        COMMAND_TTL_MS
    }
}

/// A backed-up queue never shortens the wait, and intercepts never wait
/// longer than other moves.
pub proof fn lemma_command_interval_order(depth: usize, m: MoveType)
    ensures
        spec_command_interval_ms(depth, m) <= BACKPRESSURE_COMMAND_INTERVAL_MS,
        depth >= COMMAND_QUEUE_BACKPRESSURE_DEPTH ==> spec_command_interval_ms(depth, m)
            == BACKPRESSURE_COMMAND_INTERVAL_MS,
        spec_command_interval_ms(depth, MoveType::FastIntercept) <= spec_command_interval_ms(
            depth,
            MoveType::Defend,
        ),
{
}

/// Largest distance, in millimetres, between two smoothed targets that still
/// counts as the same place.
pub const ROBOT_MOVE_DEADBAND_MM: u32 = 20;

/// The same for intercepts, which are allowed finer corrections.
pub const AGGRESSIVE_MOVE_DEADBAND_MM: u32 = 6;

/// Nanoseconds in a millisecond.
pub const NANOS_PER_MILLI: u128 = 1_000_000;

/// How close, in millimetres, a new target of `move_type` must be to the last
/// one sent for it to be dropped.
pub fn enqueue_deadband_mm(move_type: MoveType) -> (r: u32)
    ensures
        r == (if move_type.spec_is_aggressive() {
            AGGRESSIVE_MOVE_DEADBAND_MM
        } else {
            ROBOT_MOVE_DEADBAND_MM
        }),
{
    if move_type.is_aggressive() {
        AGGRESSIVE_MOVE_DEADBAND_MM
    } else {
        ROBOT_MOVE_DEADBAND_MM
    }
}

/// What the controller loop knows when a new move target comes in.
#[derive(Clone, Copy, Debug, PartialEq, Eq, Structural)]
pub struct MoveRequest {
    pub move_type: MoveType,
    /// Commands still waiting in the stepper queue.
    pub queue_depth: usize,
    /// Time since the last command was sent, if one was.
    pub since_last_command_ns: Option<u128>,
    /// The new smoothed target lies within [`ROBOT_MOVE_DEADBAND_MM`] of the
    /// previous smoothed target (false when there is none).
    pub near_previous_target: bool,
    /// The new target lies within [`enqueue_deadband_mm`] of the last target
    /// sent (false when none was sent).
    pub near_last_sent: bool,
}

/// A move is sent unless the last command is too recent for the current
/// queue depth and move type, or a non-intercept target has hardly moved from
/// the previous one, or the target is where the last command already went.
pub open spec fn spec_should_send_move(r: MoveRequest) -> bool {
    let too_soon = match r.since_last_command_ns {
        Some(ns) => ns < spec_command_interval_ms(r.queue_depth, r.move_type) as int
            * NANOS_PER_MILLI,
        None => false,
    };
    &&& !too_soon
    &&& !(!r.move_type.spec_is_aggressive() && r.near_previous_target)
    &&& !r.near_last_sent
}

/// Whether a new move target is handed to the stepper.
pub fn should_send_move(r: MoveRequest) -> (send: bool)
    ensures
        send == spec_should_send_move(r),
{
    let aggressive = r.move_type.is_aggressive();
    let interval_ms = command_interval_ms(r.queue_depth, r.move_type);
    if let Some(ns) = r.since_last_command_ns {
        let interval_ns: u128 = (interval_ms as u128) * NANOS_PER_MILLI;
        if ns < interval_ns {
            return false;
        }
    }
    if !aggressive && r.near_previous_target {
        return false;
    }
    if r.near_last_sent {
        return false;
    }
    true
}

/// Camera frames older than this are not acted on.
pub const CAMERA_STALE_TIMEOUT_MS: u64 = 120;

/// Stale when no frame has arrived yet, or the last one came more than
/// [`CAMERA_STALE_TIMEOUT_MS`] ago.
pub fn camera_is_stale(since_last_frame_ns: Option<u128>) -> (r: bool)
    ensures
        r == match since_last_frame_ns {
            Some(ns) => ns > CAMERA_STALE_TIMEOUT_MS as int * NANOS_PER_MILLI,
            None => true,
        },
{
    match since_last_frame_ns {
        Some(ns) => ns > (CAMERA_STALE_TIMEOUT_MS as u128) * NANOS_PER_MILLI,
        None => true,
    }
}

/// Length of one metrics window.
pub const METRICS_PRINT_INTERVAL_MS: u64 = 1000;

/// Whether the metrics window that started `since_last_print_ns` ago is over.
pub fn metrics_window_over(since_last_print_ns: u128) -> (r: bool)
    ensures
        r == (since_last_print_ns >= METRICS_PRINT_INTERVAL_MS as int * NANOS_PER_MILLI),
{
    since_last_print_ns >= (METRICS_PRINT_INTERVAL_MS as u128) * NANOS_PER_MILLI
}

/// A backed-up queue holds every move back for the whole backpressure
/// interval, and a target at the place of the last command is never sent
/// again.
pub proof fn lemma_move_throttle(r: MoveRequest)
    ensures
        r.near_last_sent ==> !spec_should_send_move(r),
        r.queue_depth >= COMMAND_QUEUE_BACKPRESSURE_DEPTH ==> (r.since_last_command_ns matches Some(
            ns,
        ) && ns < BACKPRESSURE_COMMAND_INTERVAL_MS as int * NANOS_PER_MILLI
            ==> !spec_should_send_move(r)),
        r.since_last_command_ns is None && !r.near_previous_target && !r.near_last_sent
            ==> spec_should_send_move(r),
{
}

/// The stepper queue depth after the worker takes one command off the queue;
/// it never goes below zero.
pub fn queue_depth_after_dequeue(depth: usize) -> (r: usize)
    ensures
        r == (if depth > 0 {
            depth - 1
        } else {
            0
        }),
{
    if depth > 0 {
        depth - 1
    } else {
        0
    }
}

/// What the table-side strategy does with the current puck.
#[derive(Clone, Copy, Debug, PartialEq, Eq, Structural)]
pub enum StrategyChoice {
    /// Leave the robot where it is.
    Hold,
    /// Block the goal where the predicted path crosses it.
    BlockGoal,
    /// Move out of the way of a puck resting at the left border.
    RepositionAtBorder,
    /// Shoot the slow puck towards the opponent's goal.
    Attack,
}

/// Observations about the puck the strategy decides on.
#[derive(Clone, Copy, Debug, PartialEq, Eq, Structural)]
pub struct PuckSituation {
    /// The puck is left of the reposition line.
    pub at_left_border: bool,
    /// The puck moves at least at resting speed.
    pub moving: bool,
    /// The predicted path reaches the goal mouth.
    pub heads_for_goal: bool,
    /// The puck is slow enough to be played.
    pub playable_speed: bool,
    /// The puck is within the robot's attack reach.
    pub within_attack_reach: bool,
}

/// Priority order of the strategy: a moving puck at the left border is
/// left alone; otherwise a goal threat is blocked; otherwise a puck at the
/// border is made room for; otherwise a slow puck in reach is attacked.
pub open spec fn spec_choose_strategy(s: PuckSituation) -> StrategyChoice {
    if s.at_left_border && s.moving {
        StrategyChoice::Hold
    } else if s.heads_for_goal {
        StrategyChoice::BlockGoal
    } else if s.at_left_border {
        StrategyChoice::RepositionAtBorder
    } else if s.playable_speed && s.within_attack_reach {
        StrategyChoice::Attack
    } else {
        StrategyChoice::Hold
    }
}

/// Decide the next strategy move for the current puck situation.
pub fn choose_strategy(s: PuckSituation) -> (r: StrategyChoice)
    ensures
        r == spec_choose_strategy(s),
{
    if s.at_left_border && s.moving {
        StrategyChoice::Hold
    } else if s.heads_for_goal {
        StrategyChoice::BlockGoal
    } else if s.at_left_border {
        StrategyChoice::RepositionAtBorder
    } else if s.playable_speed && s.within_attack_reach {
        StrategyChoice::Attack
    } else {
        StrategyChoice::Hold
    }
}

/// Where an attack shot is aimed.
#[derive(Clone, Copy, Debug, PartialEq, Eq, Structural)]
pub enum AimChoice {
    /// Bank off the top wall into the goal.
    TopBank,
    /// Bank off the bottom wall into the goal.
    BottomBank,
    /// Straight at the goal centre.
    GoalCentre,
}

/// A bank shot is taken only where its bounce lands safely inside the board;
/// when both are safe, the wall on the puck's side of the table is used, and
/// when neither is, the shot goes straight.
pub open spec fn spec_choose_aim(top_safe: bool, bottom_safe: bool, puck_in_top_half: bool) -> AimChoice {
    if top_safe && (!bottom_safe || puck_in_top_half) {
        AimChoice::TopBank
    } else if bottom_safe {
        AimChoice::BottomBank
    } else {
        AimChoice::GoalCentre
    }
}

/// Pick the aim of an attack from which bank shots are safe.
pub fn choose_aim(top_safe: bool, bottom_safe: bool, puck_in_top_half: bool) -> (r: AimChoice)
    ensures
        r == spec_choose_aim(top_safe, bottom_safe, puck_in_top_half),
        r == AimChoice::TopBank ==> top_safe,
        r == AimChoice::BottomBank ==> bottom_safe,
        r == AimChoice::GoalCentre <==> !top_safe && !bottom_safe,
{
    match (top_safe, bottom_safe) {
        (true, false) => AimChoice::TopBank,
        (false, true) => AimChoice::BottomBank,
        (true, true) => {
            if puck_in_top_half {
                AimChoice::TopBank
            } else {
                AimChoice::BottomBank
            }
        },
        (false, false) => AimChoice::GoalCentre,
    }
}

/// What each strategy move requires of the puck: a puck is attacked only when
/// it is slow enough to be played, within reach, not headed into the goal and
/// not at the left border; the goal is blocked exactly when the puck heads for
/// it (unless it is moving along the left border); the robot makes room at the
/// border only for a resting puck there that does not head for the goal; and a
/// puck that is not at playable speed or out of reach is never attacked.
pub proof fn lemma_strategy_requirements(s: PuckSituation)
    ensures
        spec_choose_strategy(s) == StrategyChoice::Attack <==> s.playable_speed
            && s.within_attack_reach && !s.heads_for_goal && !s.at_left_border,
        !s.playable_speed || !s.within_attack_reach ==> spec_choose_strategy(s)
            != StrategyChoice::Attack,
        spec_choose_strategy(s) == StrategyChoice::BlockGoal <==> s.heads_for_goal && !(
        s.at_left_border && s.moving),
        spec_choose_strategy(s) == StrategyChoice::RepositionAtBorder <==> s.at_left_border
            && !s.moving && !s.heads_for_goal,
        s.at_left_border && s.moving ==> spec_choose_strategy(s) == StrategyChoice::Hold,
{
}

/// A bank shot is aimed only where its bounce is safe, the goal centre only
/// when neither bounce is; with both safe, the bank on the puck's half wins.
pub proof fn lemma_aim_requirements(top_safe: bool, bottom_safe: bool, in_top_half: bool)
    ensures
        spec_choose_aim(top_safe, bottom_safe, in_top_half) == AimChoice::TopBank ==> top_safe,
        spec_choose_aim(top_safe, bottom_safe, in_top_half) == AimChoice::BottomBank
            ==> bottom_safe,
        spec_choose_aim(top_safe, bottom_safe, in_top_half) == AimChoice::GoalCentre <==> !top_safe
            && !bottom_safe,
        top_safe && bottom_safe ==> spec_choose_aim(top_safe, bottom_safe, in_top_half) == (if in_top_half {
            AimChoice::TopBank
        } else {
            AimChoice::BottomBank
        }),
{
}

} // verus!
