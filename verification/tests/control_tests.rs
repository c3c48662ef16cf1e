use door_sync::client::interpret_fetch_response;
use door_sync::client::interpret_push_response;
use door_sync::client::FetchError;
use door_sync::client::HttpResponse;
use door_sync::client::PushError;
use door_sync::codec::encode_command;
use door_sync::command::Direction;
use door_sync::command::DoorCommand;
use door_sync::control::Action;
use door_sync::control::ControlLoop;
use door_sync::control::Event;
use door_sync::control::Phase;
use door_sync::control::ReconnectOutcome;
use door_sync::control::RECONNECT_TICKS;
use door_sync::signal::StatusEvent;

fn fresh_command() -> DoorCommand {
    DoorCommand {
        executed: false,
        direction: Direction::Up,
        amount: 5,
        override_flag: false,
        override_day: 0,
    }
}

/// Runs one idle tick during which the link is down, back to idle.
fn idle_tick(cl: &mut ControlLoop) {
    let a = cl.step(Event::Tick);
    assert_eq!(a, vec![Action::Signal(StatusEvent::TickStart), Action::CheckLink]);
    let a = cl.step(Event::LinkStatus(false));
    assert_eq!(a, vec![Action::Signal(StatusEvent::Waiting), Action::SleepTick]);
}

#[test]
fn a_fresh_loop_waits_for_the_first_tick() {
    let cl = ControlLoop::new();
    assert_eq!(cl.ticks, 0);
    assert_eq!(cl.phase, Phase::Idle);
}

#[test]
fn a_normal_tick_checks_the_link_and_counts() {
    let mut cl = ControlLoop::new();
    let a = cl.step(Event::Tick);
    assert_eq!(a, vec![Action::Signal(StatusEvent::TickStart), Action::CheckLink]);
    assert_eq!(cl.ticks, 1);
    assert_eq!(cl.phase, Phase::CheckingLink);
}

#[test]
fn a_disconnected_tick_only_waits() {
    let mut cl = ControlLoop::new();
    cl.step(Event::Tick);
    let a = cl.step(Event::LinkStatus(false));
    assert_eq!(a, vec![Action::Signal(StatusEvent::Waiting), Action::SleepTick]);
    assert_eq!(cl.phase, Phase::Idle);
}

#[test]
fn reconnect_after_exactly_720_ticks_and_counter_reset() {
    let mut cl = ControlLoop::new();
    let mut reconnects = 0;
    for _ in 0..RECONNECT_TICKS - 1 {
        idle_tick(&mut cl);
        assert!(!matches!(cl.phase, Phase::Reconnecting));
    }
    assert_eq!(cl.ticks, RECONNECT_TICKS - 1);
    // the 720th tick forces the reconnect and resets the counter
    let a = cl.step(Event::Tick);
    for act in &a {
        if *act == Action::StartReconnect {
            reconnects += 1;
        }
    }
    assert_eq!(reconnects, 1);
    assert_eq!(
        a,
        vec![
            Action::Signal(StatusEvent::TickStart),
            Action::Signal(StatusEvent::ReconnectStart),
            Action::StartReconnect,
        ]
    );
    assert_eq!(cl.ticks, 0);
    assert_eq!(cl.phase, Phase::Reconnecting);
    // the tick then goes on to the usual link check
    let a = cl.step(Event::ReconnectDone(ReconnectOutcome::Reassociated));
    assert_eq!(a, vec![Action::CheckLink]);
}

#[test]
fn reconnect_failure_is_signalled_and_the_tick_goes_on() {
    let mut cl = ControlLoop::new();
    for _ in 0..RECONNECT_TICKS - 1 {
        idle_tick(&mut cl);
    }
    cl.step(Event::Tick);
    let a = cl.step(Event::ReconnectDone(ReconnectOutcome::ConnectFailed));
    assert_eq!(
        a,
        vec![Action::Signal(StatusEvent::ReconnectConnectFailed), Action::CheckLink]
    );
    assert_eq!(cl.ticks, 0);
}

#[test]
fn fetch_status_500_causes_no_actuation_and_no_push_that_tick() {
    let mut cl = ControlLoop::new();
    cl.step(Event::Tick);
    cl.step(Event::LinkStatus(true));
    // the GET came back with a server error
    let fetched = interpret_fetch_response(&HttpResponse {
        status: 500,
        body: String::new(),
    });
    assert_eq!(fetched, Err(FetchError::NonSuccessStatus(500)));
    let a = cl.step(Event::FetchDone(fetched));
    assert_eq!(
        a,
        vec![Action::Signal(StatusEvent::FetchStatusFailed), Action::SleepTick]
    );
    for act in &a {
        assert!(!matches!(act, Action::StartActuation(_, _)));
        assert!(!matches!(act, Action::StartPush(_)));
    }
    assert_eq!(cl.phase, Phase::Idle);
    // the next tick polls again from the start
    let a = cl.step(Event::Tick);
    assert_eq!(a, vec![Action::Signal(StatusEvent::TickStart), Action::CheckLink]);
    let a = cl.step(Event::LinkStatus(true));
    assert_eq!(a, vec![Action::StartFetch]);
}

#[test]
fn an_already_executed_command_is_not_re_actuated() {
    let mut cl = ControlLoop::new();
    cl.step(Event::Tick);
    cl.step(Event::LinkStatus(true));
    let mut done = fresh_command();
    done.executed = true;
    let a = cl.step(Event::FetchDone(Ok(done)));
    assert_eq!(
        a,
        vec![Action::Signal(StatusEvent::CommandReceived), Action::SleepTick]
    );
    assert_eq!(cl.phase, Phase::Idle);
}

#[test]
fn actuation_failure_skips_reporting() {
    let mut cl = ControlLoop::new();
    cl.step(Event::Tick);
    cl.step(Event::LinkStatus(true));
    cl.step(Event::FetchDone(Ok(fresh_command())));
    let a = cl.step(Event::ActuationDone(false));
    assert_eq!(
        a,
        vec![Action::Signal(StatusEvent::ActuationFailed), Action::SleepTick]
    );
    assert_eq!(cl.phase, Phase::Idle);
}

#[test]
fn push_decode_failure_retries_the_same_payload_without_refetching() {
    let mut cl = ControlLoop::new();
    cl.step(Event::Tick);
    cl.step(Event::LinkStatus(true));
    cl.step(Event::FetchDone(Ok(fresh_command())));
    let a = cl.step(Event::ActuationDone(true));
    let first_pushed = match a[1] {
        Action::StartPush(c) => c,
        ref other => panic!("expected StartPush, got {:?}", other),
    };
    let first_payload = encode_command(&first_pushed);
    // the PUT response body would not decode: retried, same payload, forever
    for _ in 0..3 {
        let a = cl.step(Event::PushDone(Err(PushError::ResponseDecode)));
        assert_eq!(a.len(), 3);
        assert_eq!(a[0], Action::Signal(StatusEvent::ReportDecodeFailed));
        assert_eq!(a[1], Action::Signal(StatusEvent::ReportAttempt));
        let retried = match a[2] {
            Action::StartPush(c) => c,
            ref other => panic!("expected StartPush, got {:?}", other),
        };
        assert_eq!(retried, first_pushed);
        assert_eq!(encode_command(&retried), first_payload);
        for act in &a {
            assert!(!matches!(act, Action::StartFetch));
            assert!(!matches!(act, Action::StartActuation(_, _)));
        }
        assert_eq!(cl.phase, Phase::Reporting(first_pushed));
    }
}

#[test]
fn every_fetch_failure_kind_has_its_own_signal() {
    let cases = [
        (FetchError::Connection, StatusEvent::FetchConnectionFailed),
        (FetchError::NonSuccessStatus(404), StatusEvent::FetchStatusFailed),
        (FetchError::Parse, StatusEvent::FetchParseFailed),
    ];
    for (err, signal) in cases {
        let mut cl = ControlLoop::new();
        cl.step(Event::Tick);
        cl.step(Event::LinkStatus(true));
        let a = cl.step(Event::FetchDone(Err(err)));
        assert_eq!(a, vec![Action::Signal(signal), Action::SleepTick]);
        assert_eq!(cl.phase, Phase::Idle);
    }
}

#[test]
fn every_push_failure_kind_retries_with_its_own_signal() {
    let cases = [
        (PushError::Connection, StatusEvent::ReportConnectionFailed),
        (PushError::NonSuccessStatus(502), StatusEvent::ReportStatusFailed),
        (PushError::WriteFailed, StatusEvent::ReportWriteFailed),
        (PushError::ResponseDecode, StatusEvent::ReportDecodeFailed),
    ];
    for (err, signal) in cases {
        let mut cl = ControlLoop::new();
        cl.step(Event::Tick);
        cl.step(Event::LinkStatus(true));
        cl.step(Event::FetchDone(Ok(fresh_command())));
        cl.step(Event::ActuationDone(true));
        let a = cl.step(Event::PushDone(Err(err)));
        assert_eq!(a[0], Action::Signal(signal));
        assert_eq!(a[1], Action::Signal(StatusEvent::ReportAttempt));
        assert!(matches!(a[2], Action::StartPush(_)));
    }
}

#[test]
fn a_failed_teardown_is_signalled_and_the_tick_goes_on() {
    let mut cl = ControlLoop::new();
    for _ in 0..RECONNECT_TICKS - 1 {
        idle_tick(&mut cl);
    }
    cl.step(Event::Tick);
    let a = cl.step(Event::ReconnectDone(ReconnectOutcome::DisconnectFailed));
    assert_eq!(
        a,
        vec![Action::Signal(StatusEvent::ReconnectDisconnectFailed), Action::CheckLink]
    );
}

#[test]
fn out_of_protocol_events_are_ignored() {
    let mut cl = ControlLoop::new();
    let a = cl.step(Event::PushDone(Ok(())));
    assert!(a.is_empty());
    assert_eq!(cl.phase, Phase::Idle);
    assert_eq!(cl.ticks, 0);
    let a = cl.step(Event::ActuationDone(true));
    assert!(a.is_empty());
    assert_eq!(cl.phase, Phase::Idle);
}

#[test]
fn a_whole_successful_tick_moves_reports_and_returns_to_idle() {
    let mut cl = ControlLoop::new();
    cl.step(Event::Tick);
    let a = cl.step(Event::LinkStatus(true));
    assert_eq!(a, vec![Action::StartFetch]);

    // GET: {executed:0, up:1, amount:5, over_ride:0, over_ride_day:0}
    let body = "{\"executed\":0,\"up\":1,\"amount\":5,\"over_ride\":0,\"over_ride_day\":0}";
    let fetched = interpret_fetch_response(&HttpResponse {
        status: 200,
        body: body.to_string(),
    })
    .unwrap();
    let a = cl.step(Event::FetchDone(Ok(fetched)));
    assert_eq!(a[0], Action::Signal(StatusEvent::CommandReceived));
    assert_eq!(a[1], Action::Signal(StatusEvent::ActionRequired));
    // the actuator energizes "up" for 5 seconds
    assert_eq!(a[2], Action::StartActuation(Direction::Up, 5));

    // the move succeeded: the report carries executed:1 and nothing else changed
    let a = cl.step(Event::ActuationDone(true));
    assert_eq!(a[0], Action::Signal(StatusEvent::ReportAttempt));
    let pushed = match a[1] {
        Action::StartPush(c) => c,
        ref other => panic!("expected StartPush, got {:?}", other),
    };
    assert_eq!(
        encode_command(&pushed),
        "{\"executed\":1,\"up\":1,\"amount\":5,\"over_ride\":0,\"over_ride_day\":0}"
    );

    // the service acknowledges with a success status and a decodable body
    let ack = interpret_push_response(&HttpResponse {
        status: 200,
        body: encode_command(&pushed),
    });
    assert_eq!(ack, Ok(()));
    let a = cl.step(Event::PushDone(ack));
    assert_eq!(a, vec![Action::SleepTick]);
    assert_eq!(cl.phase, Phase::Idle);
}
