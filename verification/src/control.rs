//! The tick-driven control loop.
//!
//! Each tick polls the remote command record, actuates the door when the
//! record asks for it, and reports completion until the report is
//! acknowledged; every fixed number of ticks the wireless session is
//! reconnected regardless of its state.  The loop is modelled as a state
//! machine: a pure transition from the current state and one observed event
//! to the next state and the actions to perform.  The device-side driver
//! performs each action (a network call, a motor plan, a pulse pattern, the
//! tick sleep) and feeds the outcome back in as the next event.

use vstd::prelude::*;

use crate::client::FetchError;
use crate::client::PushError;
use crate::command::Direction;
use crate::command::DoorCommand;
use crate::signal::StatusEvent;

verus! {

/// Ticks between forced reconnects: twelve hours at one tick per minute.
pub const RECONNECT_TICKS: u32 = 720;

/// Seconds slept at the end of every tick.
pub const TICK_PERIOD_SECONDS: u64 = 60;

/// How a forced reconnect ended.
#[derive(Clone, Copy, Debug, PartialEq, Eq, Structural)]
pub enum ReconnectOutcome {
    /// The session was torn down and came back up.
    Reassociated,
    /// The old association could not be torn down.
    DisconnectFailed,
    /// The new association could not be initiated.
    ConnectFailed,
}

/// Where the loop stands within the current tick.
#[derive(Clone, Copy, Debug, PartialEq, Eq, Structural)]
pub enum Phase {
    /// Waiting for the next tick.
    Idle,
    /// A forced reconnect is in flight.
    Reconnecting,
    /// The connectivity probe is in flight.
    CheckingLink,
    /// The fetch of the command record is in flight.
    Fetching,
    /// The motor plan for the fetched record is being executed.
    Actuating(DoorCommand),
    /// The completion report for the finished record is in flight.
    Reporting(DoorCommand),
}

/// What the outside world reports back to the loop.
#[derive(Clone, Copy, Debug, PartialEq, Eq)]
pub enum Event {
    /// The tick timer fired.
    Tick,
    /// The forced reconnect finished.
    ReconnectDone(ReconnectOutcome),
    /// The connectivity probe finished.
    LinkStatus(bool),
    /// The fetch finished.
    FetchDone(Result<DoorCommand, FetchError>),
    /// The motor plan finished; true means every hardware write succeeded.
    ActuationDone(bool),
    /// The completion report finished.
    PushDone(Result<(), PushError>),
}

/// What the loop asks the outside world to do.
#[derive(Clone, Copy, Debug, PartialEq, Eq, Structural)]
pub enum Action {
    /// Play the pulse pattern of this event on the diagnostic output.
    Signal(StatusEvent),
    /// Tear the session down and bring it back up.
    StartReconnect,
    /// Probe connectivity.
    CheckLink,
    /// GET the command record.
    StartFetch,
    /// Execute the motor plan for this direction and duration.
    StartActuation(Direction, u8),
    /// PUT this record's serialized form to the remote service.
    StartPush(DoorCommand),
    /// Sleep until the next tick.
    SleepTick,
}

/// The control loop's whole cross-tick state: the reconnect counter and the
/// position within the current tick.
#[derive(Clone, Copy, Debug, PartialEq, Eq, Structural)]
pub struct ControlLoop {
    pub ticks: u32,
    pub phase: Phase,
}

/// The pattern signalled for each fetch failure.
pub open spec fn spec_fetch_failure_event(e: FetchError) -> StatusEvent {
    match e {
        FetchError::Connection => StatusEvent::FetchConnectionFailed,
        FetchError::NonSuccessStatus(_) => StatusEvent::FetchStatusFailed,
        FetchError::Parse => StatusEvent::FetchParseFailed,
    }
}

/// The pattern signalled for each report failure.
pub open spec fn spec_push_failure_event(e: PushError) -> StatusEvent {
    match e {
        PushError::Connection => StatusEvent::ReportConnectionFailed,
        PushError::NonSuccessStatus(_) => StatusEvent::ReportStatusFailed,
        PushError::WriteFailed => StatusEvent::ReportWriteFailed,
        PushError::ResponseDecode => StatusEvent::ReportDecodeFailed,
    }
}

impl ControlLoop {
    /// The state invariant: the reconnect counter stays under its window,
    /// and a record being reported is always marked executed.
    pub open spec fn wf(self) -> bool {
        &&& self.ticks < RECONNECT_TICKS
        &&& match self.phase {
            Phase::Reporting(c) => c.executed,
            _ => true,
        }
    }

    /// The transition table.  An event that does not belong to the current
    /// phase is ignored: the state is kept and nothing is requested.
    pub open spec fn spec_step(self, event: Event) -> (ControlLoop, Seq<Action>) {
        match (self.phase, event) {
            (Phase::Idle, Event::Tick) => if self.ticks + 1 >= RECONNECT_TICKS {
                (
                    ControlLoop { ticks: 0, phase: Phase::Reconnecting },
                    seq![
                        Action::Signal(StatusEvent::TickStart),
                        Action::Signal(StatusEvent::ReconnectStart),
                        Action::StartReconnect,
                    ],
                )
            } else {
                (
                    ControlLoop { ticks: (self.ticks + 1) as u32, phase: Phase::CheckingLink },
                    seq![Action::Signal(StatusEvent::TickStart), Action::CheckLink],
                )
            },
            (Phase::Reconnecting, Event::ReconnectDone(outcome)) => match outcome {
                ReconnectOutcome::Reassociated => (
                    ControlLoop { ticks: self.ticks, phase: Phase::CheckingLink },
                    seq![Action::CheckLink],
                ),
                ReconnectOutcome::DisconnectFailed => (
                    ControlLoop { ticks: self.ticks, phase: Phase::CheckingLink },
                    seq![
                        Action::Signal(StatusEvent::ReconnectDisconnectFailed),
                        Action::CheckLink,
                    ],
                ),
                ReconnectOutcome::ConnectFailed => (
                    ControlLoop { ticks: self.ticks, phase: Phase::CheckingLink },
                    seq![Action::Signal(StatusEvent::ReconnectConnectFailed), Action::CheckLink],
                ),
            },
            (Phase::CheckingLink, Event::LinkStatus(connected)) => if connected {
                (ControlLoop { ticks: self.ticks, phase: Phase::Fetching }, seq![Action::StartFetch])
            } else {
                (
                    ControlLoop { ticks: self.ticks, phase: Phase::Idle },
                    seq![Action::Signal(StatusEvent::Waiting), Action::SleepTick],
                )
            },
            (Phase::Fetching, Event::FetchDone(result)) => match result {
                Ok(cmd) => if !cmd.executed {
                    (
                        ControlLoop { ticks: self.ticks, phase: Phase::Actuating(cmd) },
                        seq![
                            Action::Signal(StatusEvent::CommandReceived),
                            Action::Signal(StatusEvent::ActionRequired),
                            Action::StartActuation(cmd.direction, cmd.amount),
                        ],
                    )
                } else {
                    (
                        ControlLoop { ticks: self.ticks, phase: Phase::Idle },
                        seq![Action::Signal(StatusEvent::CommandReceived), Action::SleepTick],
                    )
                },
                Err(e) => (
                    ControlLoop { ticks: self.ticks, phase: Phase::Idle },
                    seq![Action::Signal(spec_fetch_failure_event(e)), Action::SleepTick],
                ),
            },
            (Phase::Actuating(cmd), Event::ActuationDone(success)) => if success {
                (
                    ControlLoop {
                        ticks: self.ticks,
                        phase: Phase::Reporting(
                            DoorCommand {
                                executed: true,
                                direction: cmd.direction,
                                amount: cmd.amount,
                                override_flag: cmd.override_flag,
                                override_day: cmd.override_day,
                            },
                        ),
                    },
                    seq![
                        Action::Signal(StatusEvent::ReportAttempt),
                        Action::StartPush(
                            DoorCommand {
                                executed: true,
                                direction: cmd.direction,
                                amount: cmd.amount,
                                override_flag: cmd.override_flag,
                                override_day: cmd.override_day,
                            },
                        ),
                    ],
                )
            } else {
                (
                    ControlLoop { ticks: self.ticks, phase: Phase::Idle },
                    seq![Action::Signal(StatusEvent::ActuationFailed), Action::SleepTick],
                )
            },
            (Phase::Reporting(cmd), Event::PushDone(result)) => match result {
                Ok(_) => (
                    ControlLoop { ticks: self.ticks, phase: Phase::Idle },
                    seq![Action::SleepTick],
                ),
                Err(e) => (
                    ControlLoop { ticks: self.ticks, phase: Phase::Reporting(cmd) },
                    seq![
                        Action::Signal(spec_push_failure_event(e)),
                        Action::Signal(StatusEvent::ReportAttempt),
                        Action::StartPush(cmd),
                    ],
                ),
            },
            _ => (self, Seq::<Action>::empty()),
        }
    }

    /// A fresh loop: counter at zero, waiting for the first tick.
    pub fn new() -> (s: Self)
        ensures
            s.wf(),
            s.ticks == 0,
            s.phase is Idle,
    {
        ControlLoop { ticks: 0, phase: Phase::Idle }
    }

    /// Performs one transition of the table.
    pub fn step(&mut self, event: Event) -> (actions: Vec<Action>)
        requires
            old(self).wf(),
        ensures
            final (self).wf(),
            *final (self) == old(self).spec_step(event).0,
            actions@ == old(self).spec_step(event).1,
    {
        let ghost pre = *self;
        let mut actions: Vec<Action> = Vec::new();
        match (self.phase, event) {
            (Phase::Idle, Event::Tick) => {
                actions.push(Action::Signal(StatusEvent::TickStart));
                let t = self.ticks + 1;
                if t >= RECONNECT_TICKS {
                    actions.push(Action::Signal(StatusEvent::ReconnectStart));
                    actions.push(Action::StartReconnect);
                    self.ticks = 0;
                    self.phase = Phase::Reconnecting;
                } else {
                    actions.push(Action::CheckLink);
                    self.ticks = t;
                    self.phase = Phase::CheckingLink;
                }
            },
            (Phase::Reconnecting, Event::ReconnectDone(outcome)) => {
                match outcome {
                    ReconnectOutcome::Reassociated => {},
                    ReconnectOutcome::DisconnectFailed => {
                        actions.push(Action::Signal(StatusEvent::ReconnectDisconnectFailed));
                    },
                    ReconnectOutcome::ConnectFailed => {
                        actions.push(Action::Signal(StatusEvent::ReconnectConnectFailed));
                    },
                }
                actions.push(Action::CheckLink);
                self.phase = Phase::CheckingLink;
            },
            (Phase::CheckingLink, Event::LinkStatus(connected)) => {
                if connected {
                    actions.push(Action::StartFetch);
                    self.phase = Phase::Fetching;
                } else {
                    actions.push(Action::Signal(StatusEvent::Waiting));
                    actions.push(Action::SleepTick);
                    self.phase = Phase::Idle;
                }
            },
            (Phase::Fetching, Event::FetchDone(result)) => {
                match result {
                    Ok(cmd) => {
                        actions.push(Action::Signal(StatusEvent::CommandReceived));
                        if cmd.requires_action() {
                            actions.push(Action::Signal(StatusEvent::ActionRequired));
                            actions.push(Action::StartActuation(cmd.direction, cmd.amount));
                            self.phase = Phase::Actuating(cmd);
                        } else {
                            actions.push(Action::SleepTick);
                            self.phase = Phase::Idle;
                        }
                    },
                    Err(e) => {
                        let failure = match e {
                            FetchError::Connection => StatusEvent::FetchConnectionFailed,
                            FetchError::NonSuccessStatus(_) => StatusEvent::FetchStatusFailed,
                            FetchError::Parse => StatusEvent::FetchParseFailed,
                        };
                        actions.push(Action::Signal(failure));
                        actions.push(Action::SleepTick);
                        self.phase = Phase::Idle;
                    },
                }
            },
            (Phase::Actuating(cmd), Event::ActuationDone(success)) => {
                if success {
                    let mut done = cmd;
                    done.mark_executed();
                    actions.push(Action::Signal(StatusEvent::ReportAttempt));
                    actions.push(Action::StartPush(done));
                    self.phase = Phase::Reporting(done);
                } else {
                    actions.push(Action::Signal(StatusEvent::ActuationFailed));
                    actions.push(Action::SleepTick);
                    self.phase = Phase::Idle;
                }
            },
            (Phase::Reporting(cmd), Event::PushDone(result)) => {
                match result {
                    Ok(_) => {
                        actions.push(Action::SleepTick);
                        self.phase = Phase::Idle;
                    },
                    Err(e) => {
                        let failure = match e {
                            PushError::Connection => StatusEvent::ReportConnectionFailed,
                            PushError::NonSuccessStatus(_) => StatusEvent::ReportStatusFailed,
                            PushError::WriteFailed => StatusEvent::ReportWriteFailed,
                            PushError::ResponseDecode => StatusEvent::ReportDecodeFailed,
                        };
                        actions.push(Action::Signal(failure));
                        actions.push(Action::Signal(StatusEvent::ReportAttempt));
                        actions.push(Action::StartPush(cmd));
                        self.phase = Phase::Reporting(cmd);
                    },
                }
            },
            _ => {},
        }
        proof {
            assert(actions@ =~= pre.spec_step(event).1);
        }
        actions
    }
}

/// Reconnect window law: a tick taken from idle forces a reconnect exactly
/// when it is the `RECONNECT_TICKS`-th tick since the counter was last
/// reset; the counter then restarts at zero.  Any earlier tick only
/// advances the counter and requests no reconnect.
pub proof fn lemma_reconnect_window(s: ControlLoop)
    requires
        s.wf(),
        s.phase is Idle,
    ensures
        s.ticks + 1 == RECONNECT_TICKS ==> s.spec_step(Event::Tick).0.ticks == 0,
        s.ticks + 1 == RECONNECT_TICKS ==> s.spec_step(Event::Tick).0.phase is Reconnecting,
        s.ticks + 1 == RECONNECT_TICKS ==> s.spec_step(Event::Tick).1 == seq![
            Action::Signal(StatusEvent::TickStart),
            Action::Signal(StatusEvent::ReconnectStart),
            Action::StartReconnect,
        ],
        s.ticks + 1 < RECONNECT_TICKS ==> s.spec_step(Event::Tick).0.ticks == s.ticks + 1,
        s.ticks + 1 < RECONNECT_TICKS ==> s.spec_step(Event::Tick).0.phase is CheckingLink,
        s.ticks + 1 < RECONNECT_TICKS ==> s.spec_step(Event::Tick).1 == seq![
            Action::Signal(StatusEvent::TickStart),
            Action::CheckLink,
        ],
{
}

/// Fetch failure law: when the fetch fails, whatever the failure, the tick
/// ends at once: the loop signals the failure and sleeps, requests no
/// actuation and no report, keeps the counter, and the next tick polls
/// again from the start.
pub proof fn lemma_fetch_failure_skips_tick(s: ControlLoop, e: FetchError)
    requires
        s.wf(),
        s.phase is Fetching,
    ensures
        s.spec_step(Event::FetchDone(Err(e))).0.phase is Idle,
        s.spec_step(Event::FetchDone(Err(e))).0.ticks == s.ticks,
        s.spec_step(Event::FetchDone(Err(e))).1 == seq![
            Action::Signal(spec_fetch_failure_event(e)),
            Action::SleepTick,
        ],
        forall|i: int|
            0 <= i < s.spec_step(Event::FetchDone(Err(e))).1.len() ==> !(#[trigger] s.spec_step(
                Event::FetchDone(Err(e)),
            ).1[i] is StartActuation),
        forall|i: int|
            0 <= i < s.spec_step(Event::FetchDone(Err(e))).1.len() ==> !(#[trigger] s.spec_step(
                Event::FetchDone(Err(e)),
            ).1[i] is StartPush),
        s.ticks + 1 < RECONNECT_TICKS ==> s.spec_step(Event::FetchDone(Err(e))).0.spec_step(
            Event::Tick,
        ).0.phase is CheckingLink,
{
    let acts = s.spec_step(Event::FetchDone(Err(e))).1;
    assert(acts.len() == 2);
    assert(!(acts[0] is StartActuation));
    assert(!(acts[1] is StartActuation));
    assert(!(acts[0] is StartPush));
    assert(!(acts[1] is StartPush));
}

/// Report retry law: a failed report, whatever the failure, leaves the
/// state unchanged and requests one more push of the very same record, so
/// the retried payload is identical; nothing is re-fetched and nothing is
/// re-actuated while the retry loop runs.
pub proof fn lemma_push_retry_same_payload(s: ControlLoop, cmd: DoorCommand, e: PushError)
    requires
        s.wf(),
        s.phase == Phase::Reporting(cmd),
    ensures
        s.spec_step(Event::PushDone(Err(e))).0 == s,
        s.spec_step(Event::PushDone(Err(e))).1 == seq![
            Action::Signal(spec_push_failure_event(e)),
            Action::Signal(StatusEvent::ReportAttempt),
            Action::StartPush(cmd),
        ],
        forall|i: int|
            0 <= i < s.spec_step(Event::PushDone(Err(e))).1.len() ==> !(#[trigger] s.spec_step(
                Event::PushDone(Err(e)),
            ).1[i] is StartFetch),
        forall|i: int|
            0 <= i < s.spec_step(Event::PushDone(Err(e))).1.len() ==> !(#[trigger] s.spec_step(
                Event::PushDone(Err(e)),
            ).1[i] is StartActuation),
{
    let acts = s.spec_step(Event::PushDone(Err(e))).1;
    assert(acts.len() == 3);
    assert(!(acts[0] is StartFetch) && !(acts[1] is StartFetch) && !(acts[2] is StartFetch));
    assert(!(acts[0] is StartActuation) && !(acts[1] is StartActuation) && !(
    acts[2] is StartActuation));
}

/// Completion law: after a successful actuation the loop reports a record
/// whose `executed` flag is set and whose every other field is exactly the
/// fetched one, and it pushes that same record.
pub proof fn lemma_acting_success_reports_marked(s: ControlLoop, cmd: DoorCommand)
    requires
        s.wf(),
        s.phase == Phase::Actuating(cmd),
    ensures
        s.spec_step(Event::ActuationDone(true)).0.phase == Phase::Reporting(
            (DoorCommand {
                executed: true,
                direction: cmd.direction,
                amount: cmd.amount,
                override_flag: cmd.override_flag,
                override_day: cmd.override_day,
            }),
        ),
        s.spec_step(Event::ActuationDone(true)).1 == seq![
            Action::Signal(StatusEvent::ReportAttempt),
            Action::StartPush(
                (DoorCommand {
                    executed: true,
                    direction: cmd.direction,
                    amount: cmd.amount,
                    override_flag: cmd.override_flag,
                    override_day: cmd.override_day,
                }),
            ),
        ],
        s.spec_step(Event::ActuationDone(true)).0.ticks == s.ticks,
{
}

/// Executed-flag law: from any well-formed state, every push the loop ever
/// requests carries a record already marked executed — the flag is set
/// before the first report and never cleared by the loop.
pub proof fn lemma_push_carries_executed(s: ControlLoop, event: Event)
    requires
        s.wf(),
    ensures
        forall|i: int|
            0 <= i < s.spec_step(event).1.len() ==> ((#[trigger] s.spec_step(event).1[i]) matches
            Action::StartPush(c) ==> c.executed),
{
    let acts = s.spec_step(event).1;
    assert forall|i: int|
        0 <= i < acts.len() implies ((#[trigger] acts[i]) matches Action::StartPush(c)
        ==> c.executed) by {
        match (s.phase, event) {
            (Phase::Actuating(cmd), Event::ActuationDone(success)) => {},
            (Phase::Reporting(cmd), Event::PushDone(result)) => {},
            _ => {},
        }
    }
}

} // verus!
