use rockey_hockey::grbl::{
    trim_ascii_whitespace, CommandReply, GrblCommand, GrblResponse, HomingAction, HomingError, HomingEvent,
    HomingPhase, HomingSequence,
};

#[test]
fn trims_ascii_white_space() {
    assert_eq!(trim_ascii_whitespace(b"  ok\r\n"), b"ok");
    assert_eq!(trim_ascii_whitespace(b"\t\x0c \n"), b"");
    assert_eq!(trim_ascii_whitespace(b""), b"");
    assert_eq!(trim_ascii_whitespace(b"\x0bok\x0b"), b"\x0bok\x0b");
    assert_eq!(trim_ascii_whitespace(b"a b"), b"a b");
}

#[test]
fn classifies_responses() {
    assert_eq!(GrblResponse::from_line(b"ok\r\n"), GrblResponse::Acknowledged);
    assert_eq!(GrblResponse::from_line(b"okay"), GrblResponse::Other);
    assert_eq!(GrblResponse::from_line(b"error:9\r\n"), GrblResponse::Error);
    assert_eq!(GrblResponse::from_line(b"<Idle|MPos:0.000,0.000,0.000>"), GrblResponse::Idle);
    assert_eq!(GrblResponse::from_line(b"<Alarm|MPos:0.000>"), GrblResponse::Alarm);
    assert_eq!(GrblResponse::from_line(b"<Run|MPos:1.000>"), GrblResponse::Other);
    assert!(GrblResponse::from_line(b"ok").is_command_reply());
    assert!(GrblResponse::from_line(b"error:2").is_command_reply());
    assert!(!GrblResponse::from_line(b"<Idle>").is_command_reply());
}

#[test]
fn homing_happy_path() {
    let (mut seq, first) = HomingSequence::start(true);
    assert_eq!(first, HomingAction::Send(GrblCommand::Home));
    assert_eq!(seq.step(HomingEvent::Reply(CommandReply::Accepted)), HomingAction::BeginIdleWait);
    assert_eq!(seq.step(HomingEvent::Status(None)), HomingAction::PollStatus(10));
    assert_eq!(seq.step(HomingEvent::Status(Some(GrblResponse::Other))), HomingAction::PollStatus(10));
    assert_eq!(seq.step(HomingEvent::Status(Some(GrblResponse::Alarm))), HomingAction::Send(GrblCommand::Unlock));
    assert_eq!(seq.step(HomingEvent::Reply(CommandReply::Accepted)), HomingAction::PollStatus(50));
    assert_eq!(seq.step(HomingEvent::Status(Some(GrblResponse::Idle))), HomingAction::Send(GrblCommand::Unlock));
    assert_eq!(seq.step(HomingEvent::Reply(CommandReply::TimedOut)), HomingAction::Succeed);
    assert_eq!(seq.phase, HomingPhase::Finished);
}

#[test]
fn homing_failures() {
    let (mut seq, _) = HomingSequence::start(true);
    assert_eq!(seq.step(HomingEvent::Reply(CommandReply::Rejected)), HomingAction::Fail(HomingError::HomingRejected));

    let (mut seq, _) = HomingSequence::start(true);
    seq.step(HomingEvent::Reply(CommandReply::TimedOut));
    assert_eq!(seq.step(HomingEvent::DeadlinePassed), HomingAction::Fail(HomingError::IdleTimeout));

    let (mut seq, _) = HomingSequence::start(true);
    seq.step(HomingEvent::Reply(CommandReply::Accepted));
    seq.step(HomingEvent::Status(Some(GrblResponse::Alarm)));
    assert_eq!(seq.step(HomingEvent::Reply(CommandReply::Rejected)), HomingAction::Fail(HomingError::AlarmRecoveryFailed));

    let (mut seq, _) = HomingSequence::start(false);
    seq.step(HomingEvent::Reply(CommandReply::Accepted));
    assert_eq!(seq.step(HomingEvent::Status(Some(GrblResponse::Alarm))), HomingAction::Fail(HomingError::AlarmRaised));

    let (mut seq, _) = HomingSequence::start(true);
    seq.step(HomingEvent::Reply(CommandReply::Accepted));
    seq.step(HomingEvent::Status(Some(GrblResponse::Idle)));
    assert_eq!(seq.step(HomingEvent::Reply(CommandReply::Rejected)), HomingAction::Fail(HomingError::UnlockRejected));
}

#[test]
fn homing_expects_replies_only_after_commands() {
    let (seq, _) = HomingSequence::start(true);
    assert!(seq.expects_event(HomingEvent::Reply(CommandReply::Accepted)));
    assert!(!seq.expects_event(HomingEvent::DeadlinePassed));
    let waiting = HomingSequence { phase: HomingPhase::WaitIdle, recover_alarm: true };
    assert!(waiting.expects_event(HomingEvent::Status(None)));
    assert!(!waiting.expects_event(HomingEvent::Reply(CommandReply::Rejected)));
    let done = HomingSequence { phase: HomingPhase::Finished, recover_alarm: false };
    assert!(!done.expects_event(HomingEvent::DeadlinePassed));
}
