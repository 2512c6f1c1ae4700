use vstd::prelude::*;
use vstd::slice::slice_subrange;

verus! {

/// `u8::is_ascii_whitespace`: space, tab, line feed, form feed, carriage
/// return.
pub open spec fn is_ascii_white_space(b: u8) -> bool {
    b == 0x20 || b == 0x09 || b == 0x0A || b == 0x0C || b == 0x0D
}

/// Number of leading ASCII white-space bytes.
pub open spec fn leading_white_space(s: Seq<u8>) -> nat
    decreases s.len(),
{
    if s.len() > 0 && is_ascii_white_space(s[0]) {
        1 + leading_white_space(s.drop_first())
    } else {
        0
    }
}

/// Number of trailing ASCII white-space bytes.
pub open spec fn trailing_white_space(s: Seq<u8>) -> nat
    decreases s.len(),
{
    if s.len() > 0 && is_ascii_white_space(s.last()) {
        1 + trailing_white_space(s.drop_last())
    } else {
        0
    }
}

/// `s` without leading and trailing ASCII white space.
pub open spec fn spec_trim_ascii(s: Seq<u8>) -> Seq<u8> {
    let rest = s.skip(leading_white_space(s) as int);
    rest.take(rest.len() - trailing_white_space(rest))
}

proof fn lemma_leading_white_space(s: Seq<u8>, i: int)
    requires
        0 <= i <= s.len(),
        forall|j: int| 0 <= j < i ==> is_ascii_white_space(#[trigger] s[j]),
        i == s.len() || !is_ascii_white_space(s[i]),
    ensures
        leading_white_space(s) == i,
    decreases i,
{
    if i > 0 {
        lemma_leading_white_space(s.drop_first(), i - 1);
    }
}

proof fn lemma_trailing_white_space(s: Seq<u8>, i: int)
    requires
        0 <= i <= s.len(),
        forall|j: int| i <= j < s.len() ==> is_ascii_white_space(#[trigger] s[j]),
        i == 0 || !is_ascii_white_space(s[i - 1]),
    ensures
        trailing_white_space(s) == s.len() - i,
    decreases s.len() - i,
{
    if i < s.len() {
        lemma_trailing_white_space(s.drop_last(), i);
    }
}

/// `bytes` without leading and trailing ASCII white space.
pub fn trim_ascii_whitespace(bytes: &[u8]) -> (r: &[u8])
    ensures
        r@ == spec_trim_ascii(bytes@),
{
    let mut start: usize = 0;
    let mut end: usize = bytes.len();
    while start < end && is_white(bytes[start])
        invariant
            end == bytes@.len(),
            start <= end,
            forall|j: int| 0 <= j < start ==> is_ascii_white_space(#[trigger] bytes@[j]),
        decreases end - start,
    {
        start = start + 1;
    }
    proof {
        lemma_leading_white_space(bytes@, start as int);
    }
    let ghost rest = bytes@.skip(start as int);
    while end > start && is_white(bytes[end - 1])
        invariant
            rest == bytes@.skip(start as int),
            start <= end <= bytes@.len(),
            forall|j: int| end <= j < bytes@.len() ==> is_ascii_white_space(#[trigger] bytes@[j]),
        decreases end,
    {
        end = end - 1;
    }
    proof {
        assert forall|j: int| end - start <= j < rest.len() implies is_ascii_white_space(
            #[trigger] rest[j],
        ) by {
            assert(rest[j] == bytes@[start + j]);
        }
        if end > start {
            assert(rest[end - start - 1] == bytes@[end - 1]);
        }
        lemma_trailing_white_space(rest, (end - start) as int);
        assert(rest.take(end - start) =~= bytes@.subrange(start as int, end as int));
    }
    slice_subrange(bytes, start, end)
}

fn is_white(b: u8) -> (r: bool)
    ensures
        r == is_ascii_white_space(b),
{
    b == 0x20 || b == 0x09 || b == 0x0A || b == 0x0C || b == 0x0D
}

/// Trimming leaves no white space at either end, and trimming again changes
/// nothing.
pub proof fn lemma_trim_ascii(s: Seq<u8>)
    ensures
        spec_trim_ascii(s).len() > 0 ==> !is_ascii_white_space(spec_trim_ascii(s)[0])
            && !is_ascii_white_space(spec_trim_ascii(s).last()),
        spec_trim_ascii(spec_trim_ascii(s)) == spec_trim_ascii(s),
{
    lemma_leading_bound(s);
    let lead = leading_white_space(s) as int;
    let rest = s.skip(lead);
    lemma_trailing_bound(rest);
    let t = spec_trim_ascii(s);
    lemma_leading_stops(s);
    lemma_trailing_stops(rest);
    if t.len() > 0 {
        assert(t[0] == rest[0]);
        assert(t.last() == rest[rest.len() - trailing_white_space(rest) - 1]);
        lemma_leading_white_space(t, 0);
        lemma_trailing_white_space(t, t.len() as int);
        assert(t.skip(0) =~= t);
        assert(t.take(t.len() as int) =~= t);
    } else {
        assert(t.skip(0) =~= t);
        assert(t.take(0) =~= t);
    }
}

proof fn lemma_leading_bound(s: Seq<u8>)
    ensures
        leading_white_space(s) <= s.len(),
        forall|j: int| 0 <= j < leading_white_space(s) ==> is_ascii_white_space(#[trigger] s[j]),
    decreases s.len(),
{
    if s.len() > 0 && is_ascii_white_space(s[0]) {
        lemma_leading_bound(s.drop_first());
        assert forall|j: int| 0 <= j < leading_white_space(s) implies is_ascii_white_space(
            #[trigger] s[j],
        ) by {
            if j > 0 {
                assert(s[j] == s.drop_first()[j - 1]);
            }
        }
    }
}

proof fn lemma_leading_stops(s: Seq<u8>)
    ensures
        leading_white_space(s) < s.len() ==> !is_ascii_white_space(s[leading_white_space(s) as int]),
    decreases s.len(),
{
    if s.len() > 0 && is_ascii_white_space(s[0]) {
        lemma_leading_stops(s.drop_first());
    }
}

proof fn lemma_trailing_bound(s: Seq<u8>)
    ensures
        trailing_white_space(s) <= s.len(),
    decreases s.len(),
{
    if s.len() > 0 && is_ascii_white_space(s.last()) {
        lemma_trailing_bound(s.drop_last());
    }
}

proof fn lemma_trailing_stops(s: Seq<u8>)
    ensures
        trailing_white_space(s) < s.len() ==> !is_ascii_white_space(
            s[s.len() - trailing_white_space(s) - 1],
        ),
    decreases s.len(),
{
    if s.len() > 0 && is_ascii_white_space(s.last()) {
        lemma_trailing_stops(s.drop_last());
        lemma_trailing_bound(s.drop_last());
    }
}

} // verus!

verus! {

broadcast use vstd::string::group_string_axioms;

/// How a line GRBL sent back is understood.
#[derive(Clone, Copy, Debug, PartialEq, Eq, Structural)]
pub enum GrblResponse {
    /// `ok`: the command was accepted.
    Acknowledged,
    /// `error...`: the command was rejected.
    Error,
    /// `<Idle...`: status report, machine at rest.
    Idle,
    /// `<Alarm...`: status report, machine locked by an alarm.
    Alarm,
    /// Anything else (other status reports, messages, echoes).
    Other,
}

pub open spec fn starts_with(s: Seq<u8>, prefix: Seq<u8>) -> bool {
    prefix.len() <= s.len() && s.take(prefix.len() as int) == prefix
}

/// How a trimmed response line is understood.
pub open spec fn spec_classify(line: Seq<u8>) -> GrblResponse {
    if line == crate::http::ascii_bytes("ok"@) {
        GrblResponse::Acknowledged
    } else if starts_with(line, crate::http::ascii_bytes("error"@)) {
        GrblResponse::Error
    } else if starts_with(line, crate::http::ascii_bytes("<Idle"@)) {
        GrblResponse::Idle
    } else if starts_with(line, crate::http::ascii_bytes("<Alarm"@)) {
        GrblResponse::Alarm
    } else {
        GrblResponse::Other
    }
}

fn bytes_start_with(s: &[u8], prefix: &[u8]) -> (r: bool)
    ensures
        r == starts_with(s@, prefix@),
{
    if prefix.len() > s.len() {
        return false;
    }
    let n = prefix.len();
    let mut i: usize = 0;
    while i < n
        invariant
            n == prefix@.len(),
            n <= s@.len(),
            i <= n,
            forall|j: int| 0 <= j < i ==> s@[j] == prefix@[j],
        decreases n - i,
    {
        if s[i] != prefix[i] {
            assert(s@.take(n as int)[i as int] != prefix@[i as int]);
            return false;
        }
        i = i + 1;
    }
    assert(s@.take(n as int) =~= prefix@);
    true
}

fn ascii_literal(s: &str) -> (r: &[u8])
    requires
        vstd::string::is_ascii(s),
    ensures
        r@ == crate::http::ascii_bytes(s@),
{
    let b = s.as_bytes();
    assert(b@ =~= crate::http::ascii_bytes(s@));
    b
}

impl GrblResponse {
    /// Understand one line read from GRBL, ignoring surrounding white space.
    pub fn from_line(line: &[u8]) -> (r: GrblResponse)
        ensures
            r == spec_classify(spec_trim_ascii(line@)),
    {
        let trimmed = trim_ascii_whitespace(line);
        proof {
            reveal_strlit("ok");
            reveal_strlit("error");
            reveal_strlit("<Idle");
            reveal_strlit("<Alarm");
        }
        let ok = ascii_literal("ok");
        if trimmed.len() == ok.len() && bytes_start_with(trimmed, ok) {
            assert(trimmed@ =~= trimmed@.take(ok@.len() as int));
            return GrblResponse::Acknowledged;
        }
        proof {
            if trimmed@ == ok@ {
                assert(trimmed@.take(ok@.len() as int) =~= trimmed@);
            }
        }
        if bytes_start_with(trimmed, ascii_literal("error")) {
            GrblResponse::Error
        } else if bytes_start_with(trimmed, ascii_literal("<Idle")) {
            GrblResponse::Idle
        } else if bytes_start_with(trimmed, ascii_literal("<Alarm")) {
            GrblResponse::Alarm
        } else {
            GrblResponse::Other
        }
    }

    /// Whether this line ends the wait for a command's reply.
    pub open spec fn spec_is_command_reply(self) -> bool {
        self == GrblResponse::Acknowledged || self == GrblResponse::Error
    }

    /// Whether this line ends the wait for a command's reply.
    pub fn is_command_reply(self) -> (r: bool)
        ensures
            r == self.spec_is_command_reply(),
    {
        match self {
            GrblResponse::Acknowledged | GrblResponse::Error => true,
            _ => false,
        }
    }
}

/// What came back for a command sent to GRBL.
#[derive(Clone, Copy, Debug, PartialEq, Eq, Structural)]
pub enum CommandReply {
    Accepted,
    Rejected,
    /// No `ok` or `error` line within the reply timeout.
    TimedOut,
}

/// Commands the homing sequence sends.
#[derive(Clone, Copy, Debug, PartialEq, Eq, Structural)]
pub enum GrblCommand {
    /// `$H`: run the homing cycle.
    Home,
    /// `$X`: clear the alarm lock.
    Unlock,
}

/// Why calibration failed.
#[derive(Clone, Copy, Debug, PartialEq, Eq, Structural)]
pub enum HomingError {
    /// `$H` was answered with an error.
    HomingRejected,
    /// An alarm came up while waiting and alarm recovery was not allowed.
    AlarmRaised,
    /// The unlock sent to recover from an alarm was answered with an error.
    AlarmRecoveryFailed,
    /// GRBL did not report Idle before the deadline.
    IdleTimeout,
    /// The final `$X` after homing was answered with an error.
    UnlockRejected,
}

/// What the serial side must do next for the homing sequence.
#[derive(Clone, Copy, Debug, PartialEq, Eq, Structural)]
pub enum HomingAction {
    /// Send the command and report its reply.
    Send(GrblCommand),
    /// Start the idle deadline now, then query the status (`?`).
    BeginIdleWait,
    /// Sleep this many milliseconds; then, if the deadline has passed,
    /// report that, else query the status (`?`) and report the line read.
    PollStatus(u32),
    /// Calibration succeeded.
    Succeed,
    /// Calibration failed.
    Fail(HomingError),
}

/// Where the homing sequence stands.
#[derive(Clone, Copy, Debug, PartialEq, Eq, Structural)]
pub enum HomingPhase {
    AwaitHomeReply,
    WaitIdle,
    AwaitRecoveryUnlock,
    AwaitFinalUnlock,
    Finished,
}

/// What the serial side observed.
#[derive(Clone, Copy, Debug, PartialEq, Eq, Structural)]
pub enum HomingEvent {
    /// The reply to the last command sent.
    Reply(CommandReply),
    /// The status line read after a query; `None` when no full line came.
    Status(Option<GrblResponse>),
    /// The idle deadline passed before the next query.
    DeadlinePassed,
}

/// The homing-and-unlock sequence GRBL goes through at calibration:
/// `$H`, wait for Idle (unlocking alarms when allowed), then `$X`.
#[derive(Clone, Copy, Debug, PartialEq, Eq, Structural)]
pub struct HomingSequence {
    pub phase: HomingPhase,
    pub recover_alarm: bool,
}

/// Pause after a status line that is neither Idle nor Alarm.
pub const IDLE_POLL_INTERVAL_MS: u32 = 10;

/// Pause after unlocking from an alarm.
pub const ALARM_RECOVERY_PAUSE_MS: u32 = 50;

impl HomingSequence {
    /// The phase and action after `event` in phase `self.phase`.
    pub open spec fn spec_step(self, event: HomingEvent) -> (HomingSequence, HomingAction) {
        let finish = |a: HomingAction| (HomingSequence { phase: HomingPhase::Finished, ..self }, a);
        let go = |p: HomingPhase, a: HomingAction| (HomingSequence { phase: p, ..self }, a);
        match (self.phase, event) {
            (HomingPhase::AwaitHomeReply, HomingEvent::Reply(CommandReply::Rejected)) => finish(
                HomingAction::Fail(HomingError::HomingRejected),
            ),
            (HomingPhase::AwaitHomeReply, HomingEvent::Reply(_)) => go(
                HomingPhase::WaitIdle,
                HomingAction::BeginIdleWait,
            ),
            (HomingPhase::WaitIdle, HomingEvent::DeadlinePassed) => finish(
                HomingAction::Fail(HomingError::IdleTimeout),
            ),
            (HomingPhase::WaitIdle, HomingEvent::Status(Some(GrblResponse::Idle))) => go(
                HomingPhase::AwaitFinalUnlock,
                HomingAction::Send(GrblCommand::Unlock),
            ),
            (HomingPhase::WaitIdle, HomingEvent::Status(Some(GrblResponse::Alarm))) => {
                if self.recover_alarm {
                    go(HomingPhase::AwaitRecoveryUnlock, HomingAction::Send(GrblCommand::Unlock))
                } else {
                    finish(HomingAction::Fail(HomingError::AlarmRaised))
                }
            },
            (HomingPhase::WaitIdle, HomingEvent::Status(_)) => go(
                HomingPhase::WaitIdle,
                HomingAction::PollStatus(IDLE_POLL_INTERVAL_MS),
            ),
            (HomingPhase::AwaitRecoveryUnlock, HomingEvent::Reply(CommandReply::Rejected)) => finish(
                HomingAction::Fail(HomingError::AlarmRecoveryFailed),
            ),
            (HomingPhase::AwaitRecoveryUnlock, HomingEvent::Reply(_)) => go(
                HomingPhase::WaitIdle,
                HomingAction::PollStatus(ALARM_RECOVERY_PAUSE_MS),
            ),
            (HomingPhase::AwaitFinalUnlock, HomingEvent::Reply(CommandReply::Rejected)) => finish(
                HomingAction::Fail(HomingError::UnlockRejected),
            ),
            (HomingPhase::AwaitFinalUnlock, HomingEvent::Reply(_)) => finish(
                HomingAction::Succeed,
            ),
            _ => (self, HomingAction::Fail(HomingError::UnlockRejected)),
        }
    }

    /// Whether `event` is one the serial side can report in this phase.
    pub open spec fn expects(self, event: HomingEvent) -> bool {
        match self.phase {
            HomingPhase::AwaitHomeReply | HomingPhase::AwaitRecoveryUnlock
            | HomingPhase::AwaitFinalUnlock => event is Reply,
            HomingPhase::WaitIdle => !(event is Reply),
            HomingPhase::Finished => false,
        }
    }

    /// Whether the serial side may report `event` now.
    pub fn expects_event(&self, event: HomingEvent) -> (r: bool)
        ensures
            r == self.expects(event),
    {
        match self.phase {
            HomingPhase::AwaitHomeReply | HomingPhase::AwaitRecoveryUnlock
            | HomingPhase::AwaitFinalUnlock => matches!(event, HomingEvent::Reply(_)),
            HomingPhase::WaitIdle => !matches!(event, HomingEvent::Reply(_)),
            HomingPhase::Finished => false,
        }
    }

    /// Begin calibration: the first thing to do is send `$H`.
    pub fn start(recover_alarm: bool) -> (r: (HomingSequence, HomingAction))
        ensures
            r.0 == (HomingSequence { phase: HomingPhase::AwaitHomeReply, recover_alarm }),
            r.1 == HomingAction::Send(GrblCommand::Home),
    {
        (
            HomingSequence { phase: HomingPhase::AwaitHomeReply, recover_alarm },
            HomingAction::Send(GrblCommand::Home),
        )
    }

    /// Advance the sequence by what the serial side observed.
    pub fn step(&mut self, event: HomingEvent) -> (r: HomingAction)
        requires
            old(self).expects(event),
        ensures
            (*final(self), r) == old(self).spec_step(event),
    {
        match (self.phase, event) {
            (HomingPhase::AwaitHomeReply, HomingEvent::Reply(CommandReply::Rejected)) => {
                self.phase = HomingPhase::Finished;
                HomingAction::Fail(HomingError::HomingRejected)
            },
            (HomingPhase::AwaitHomeReply, HomingEvent::Reply(_)) => {
                self.phase = HomingPhase::WaitIdle;
                HomingAction::BeginIdleWait
            },
            (HomingPhase::WaitIdle, HomingEvent::DeadlinePassed) => {
                self.phase = HomingPhase::Finished;
                HomingAction::Fail(HomingError::IdleTimeout)
            },
            (HomingPhase::WaitIdle, HomingEvent::Status(Some(GrblResponse::Idle))) => {
                self.phase = HomingPhase::AwaitFinalUnlock;
                HomingAction::Send(GrblCommand::Unlock)
            },
            (HomingPhase::WaitIdle, HomingEvent::Status(Some(GrblResponse::Alarm))) => {
                if self.recover_alarm {
                    self.phase = HomingPhase::AwaitRecoveryUnlock;
                    HomingAction::Send(GrblCommand::Unlock)
                } else {
                    self.phase = HomingPhase::Finished;
                    HomingAction::Fail(HomingError::AlarmRaised)
                }
            },
            (HomingPhase::WaitIdle, HomingEvent::Status(_)) => {
                HomingAction::PollStatus(IDLE_POLL_INTERVAL_MS)
            },
            (HomingPhase::AwaitRecoveryUnlock, HomingEvent::Reply(CommandReply::Rejected)) => {
                self.phase = HomingPhase::Finished;
                HomingAction::Fail(HomingError::AlarmRecoveryFailed)
            },
            (HomingPhase::AwaitRecoveryUnlock, HomingEvent::Reply(_)) => {
                self.phase = HomingPhase::WaitIdle;
                HomingAction::PollStatus(ALARM_RECOVERY_PAUSE_MS)
            },
            (HomingPhase::AwaitFinalUnlock, HomingEvent::Reply(CommandReply::Rejected)) => {
                self.phase = HomingPhase::Finished;
                HomingAction::Fail(HomingError::UnlockRejected)
            },
            (HomingPhase::AwaitFinalUnlock, HomingEvent::Reply(_)) => {
                self.phase = HomingPhase::Finished;
                HomingAction::Succeed
            },
            _ => HomingAction::Fail(HomingError::UnlockRejected),
        }
    }
}

/// Calibration only succeeds on the reply to the final `$X`, which is only
/// sent once GRBL reported Idle; every failure and the success end the
/// sequence, and an accepted reply never fails it.
pub proof fn lemma_homing_outcomes(s: HomingSequence, e: HomingEvent)
    requires
        s.expects(e),
    ensures
        s.spec_step(e).1 == HomingAction::Succeed ==> s.phase == HomingPhase::AwaitFinalUnlock
            && e != HomingEvent::Reply(CommandReply::Rejected),
        s.spec_step(e).0.phase == HomingPhase::AwaitFinalUnlock ==> s.phase == HomingPhase::WaitIdle
            && e == HomingEvent::Status(Some(GrblResponse::Idle)),
        (s.spec_step(e).1 is Succeed || s.spec_step(e).1 is Fail) <==> s.spec_step(e).0.phase
            == HomingPhase::Finished,
        e == HomingEvent::Reply(CommandReply::Accepted) ==> !(s.spec_step(e).1 is Fail),
        s.spec_step(e).0.recover_alarm == s.recover_alarm,
{
}

/// While waiting for Idle, only an Idle or Alarm status, or the deadline,
/// ends the wait: any other status line, or none, means pause the poll
/// interval and query again, in the same phase. The idle timeout is reported
/// only when the deadline passed.
pub proof fn lemma_idle_wait_polls(s: HomingSequence, e: HomingEvent)
    ensures
        s.phase == HomingPhase::WaitIdle && e is Status && e != HomingEvent::Status(
            Some(GrblResponse::Idle),
        ) && e != HomingEvent::Status(Some(GrblResponse::Alarm)) ==> s.spec_step(e) == (
            s,
            HomingAction::PollStatus(IDLE_POLL_INTERVAL_MS),
        ),
        s.expects(e) && s.spec_step(e).1 == HomingAction::Fail(HomingError::IdleTimeout)
            ==> s.phase == HomingPhase::WaitIdle && e == HomingEvent::DeadlinePassed,
        s.phase == HomingPhase::WaitIdle && e == HomingEvent::Status(Some(GrblResponse::Idle))
            ==> s.spec_step(e).1 == HomingAction::Send(GrblCommand::Unlock),
{
}

/// A line is taken as Idle only when it starts with `<Idle`, as Alarm only
/// when it starts with `<Alarm`, as accepted only when it is exactly `ok`
/// and as rejected only when it starts with `error`; and every line that
/// starts with `<Idle` or `<Alarm` is taken as such.
pub proof fn lemma_classify_by_prefix(line: Seq<u8>)
    ensures
        spec_classify(line) == GrblResponse::Idle ==> starts_with(
            line,
            crate::http::ascii_bytes("<Idle"@),
        ),
        spec_classify(line) == GrblResponse::Alarm ==> starts_with(
            line,
            crate::http::ascii_bytes("<Alarm"@),
        ),
        spec_classify(line) == GrblResponse::Acknowledged ==> line == crate::http::ascii_bytes(
            "ok"@,
        ),
        spec_classify(line) == GrblResponse::Error ==> starts_with(
            line,
            crate::http::ascii_bytes("error"@),
        ),
        starts_with(line, crate::http::ascii_bytes("<Idle"@)) ==> spec_classify(line)
            == GrblResponse::Idle,
        starts_with(line, crate::http::ascii_bytes("<Alarm"@)) ==> spec_classify(line)
            == GrblResponse::Alarm,
{
    reveal_strlit("ok");
    reveal_strlit("error");
    reveal_strlit("<Idle");
    reveal_strlit("<Alarm");
    let ok = crate::http::ascii_bytes("ok"@);
    let err = crate::http::ascii_bytes("error"@);
    let idle = crate::http::ascii_bytes("<Idle"@);
    let alarm = crate::http::ascii_bytes("<Alarm"@);
    assert(ok[0] == 111u8);
    assert(err[0] == 101u8);
    assert(idle[0] == 60u8);
    assert(idle[1] == 73u8);
    assert(alarm[0] == 60u8);
    assert(alarm[1] == 65u8);
    if starts_with(line, idle) {
        assert(line[0] == line.take(idle.len() as int)[0]);
        assert(line[1] == line.take(idle.len() as int)[1]);
        assert(line != ok);
        if starts_with(line, err) {
            assert(line[0] == line.take(err.len() as int)[0]);
        }
    }
    if starts_with(line, alarm) {
        assert(line[0] == line.take(alarm.len() as int)[0]);
        assert(line[1] == line.take(alarm.len() as int)[1]);
        assert(line != ok);
        if starts_with(line, err) {
            assert(line[0] == line.take(err.len() as int)[0]);
        }
        if starts_with(line, idle) {
            assert(line[1] == line.take(idle.len() as int)[1]);
        }
    }
}

} // verus!
