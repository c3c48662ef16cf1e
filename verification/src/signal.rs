//! Diagnostic pulse patterns.
//!
//! Every operational event is signalled on a single diagnostic output as a
//! fixed pattern of timed pulses, so that the device can be diagnosed in the
//! field without log access.  A pattern is a string of symbols: `.` is a
//! short pulse (100 ms high), a space is a long idle (300 ms low), any other
//! symbol is a long pulse (300 ms high), and every symbol is followed by a
//! 100 ms low gap.  The mapping from event to pattern is a fixed table,
//! total and stable across runs.

use vstd::prelude::*;

verus! {

/// Every event the controller signals.
#[derive(Clone, Copy, Debug, PartialEq, Eq, Structural)]
pub enum StatusEvent {
    /// The process came up and the control loop is about to start.
    Startup,
    /// A tick began.
    TickStart,
    /// The periodic reconnect window opened.
    ReconnectStart,
    /// Still waiting for the session to come back after a reconnect.
    ReconnectWait,
    /// The reconnect could not re-initiate a connection.
    ReconnectConnectFailed,
    /// The reconnect could not tear the old association down.
    ReconnectDisconnectFailed,
    /// The connectivity probe itself failed.
    LinkCheckFailed,
    /// Not connected; the tick was skipped.
    Waiting,
    /// A command record was fetched and decoded.
    CommandReceived,
    /// The fetched record still asks for a physical action.
    ActionRequired,
    /// An attempt to report completion is being made.
    ReportAttempt,
    /// The fetch could not reach the remote service.
    FetchConnectionFailed,
    /// The fetch got a response outside the success range.
    FetchStatusFailed,
    /// The fetched body did not decode as a command record.
    FetchParseFailed,
    /// A hardware write failed while moving the door.
    ActuationFailed,
    /// The report could not reach the remote service.
    ReportConnectionFailed,
    /// The report got a response outside the success range.
    ReportStatusFailed,
    /// The report body could not be transmitted.
    ReportWriteFailed,
    /// The report response did not decode as a command record.
    ReportDecodeFailed,
}

/// The fixed event-to-pattern table.
pub open spec fn spec_pattern(e: StatusEvent) -> Seq<char> {
    match e {
        StatusEvent::Startup => ". . .  "@,
        StatusEvent::TickStart => "..  "@,
        StatusEvent::ReconnectStart => ". . _ . _ . _"@,
        StatusEvent::ReconnectWait => ". . _ _ _"@,
        StatusEvent::ReconnectConnectFailed => "_ _ ."@,
        StatusEvent::ReconnectDisconnectFailed => "_ _ . ."@,
        StatusEvent::LinkCheckFailed => "_ _ . _ .."@,
        StatusEvent::Waiting => "_  "@,
        StatusEvent::CommandReceived => ". . _ .  "@,
        StatusEvent::ActionRequired => ". . ___  "@,
        StatusEvent::ReportAttempt => ". . . ___  "@,
        StatusEvent::FetchConnectionFailed => "_ _ .._."@,
        StatusEvent::FetchStatusFailed => "_ _ .._ _"@,
        StatusEvent::FetchParseFailed => "_ _ .._.._  "@,
        StatusEvent::ActuationFailed => "_ _ ....  "@,
        StatusEvent::ReportConnectionFailed => "_ _ ..___ ."@,
        StatusEvent::ReportStatusFailed => "_ _ ..___ _"@,
        StatusEvent::ReportWriteFailed => "_ _ ..__  "@,
        StatusEvent::ReportDecodeFailed => "_ _ ..___  "@,
    }
}

/// The pattern signalled for `e`.
pub fn pattern_of(e: StatusEvent) -> (p: &'static str)
    ensures
        p@ == spec_pattern(e),
{
    match e {
        StatusEvent::Startup => ". . .  ",
        StatusEvent::TickStart => "..  ",
        StatusEvent::ReconnectStart => ". . _ . _ . _",
        StatusEvent::ReconnectWait => ". . _ _ _",
        StatusEvent::ReconnectConnectFailed => "_ _ .",
        StatusEvent::ReconnectDisconnectFailed => "_ _ . .",
        StatusEvent::LinkCheckFailed => "_ _ . _ ..",
        StatusEvent::Waiting => "_  ",
        StatusEvent::CommandReceived => ". . _ .  ",
        StatusEvent::ActionRequired => ". . ___  ",
        StatusEvent::ReportAttempt => ". . . ___  ",
        StatusEvent::FetchConnectionFailed => "_ _ .._.",
        StatusEvent::FetchStatusFailed => "_ _ .._ _",
        StatusEvent::FetchParseFailed => "_ _ .._.._  ",
        StatusEvent::ActuationFailed => "_ _ ....  ",
        StatusEvent::ReportConnectionFailed => "_ _ ..___ .",
        StatusEvent::ReportStatusFailed => "_ _ ..___ _",
        StatusEvent::ReportWriteFailed => "_ _ ..__  ",
        StatusEvent::ReportDecodeFailed => "_ _ ..___  ",
    }
}

/// The table is injective: two different events never share a pattern, so a
/// pattern seen in the field identifies its event.
#[verifier::rlimit(100)]
pub proof fn lemma_patterns_distinct(a: StatusEvent, b: StatusEvent)
    requires
        a != b,
    ensures
        spec_pattern(a) != spec_pattern(b),
{
    reveal_strlit(". . .  ");
    reveal_strlit("..  ");
    reveal_strlit(". . _ . _ . _");
    reveal_strlit(". . _ _ _");
    reveal_strlit("_ _ .");
    reveal_strlit("_ _ . .");
    reveal_strlit("_ _ . _ ..");
    reveal_strlit("_  ");
    reveal_strlit(". . _ .  ");
    reveal_strlit(". . ___  ");
    reveal_strlit(". . . ___  ");
    reveal_strlit("_ _ .._.");
    reveal_strlit("_ _ .._ _");
    reveal_strlit("_ _ .._.._  ");
    reveal_strlit("_ _ ....  ");
    reveal_strlit("_ _ ..___ .");
    reveal_strlit("_ _ ..___ _");
    reveal_strlit("_ _ ..__  ");
    reveal_strlit("_ _ ..___  ");
    let p = spec_pattern(a);
    let q = spec_pattern(b);
    if p == q {
        // equal patterns agree at every index; the table's same-length
        // entries all differ at one of these positions
        assert(p.len() == q.len());
        assert(p[0] == q[0]);
        if p.len() > 5 {
            assert(p[5] == q[5]);
        }
        if p.len() > 6 {
            assert(p[6] == q[6]);
        }
        if p.len() > 10 {
            assert(p[10] == q[10]);
        }
        assert(false);
    }
}

/// One timed level on the diagnostic output.
#[derive(Clone, Copy, Debug, PartialEq, Eq, Structural)]
pub struct PulseStep {
    pub high: bool,
    pub millis: u32,
}

/// The two timed levels of one pattern symbol: the symbol itself, then the
/// fixed 100 ms low gap.
pub open spec fn spec_symbol_steps(c: char) -> Seq<PulseStep> {
    let on = if c == '.' {
        PulseStep { high: true, millis: 100 }
    } else if c == ' ' {
        PulseStep { high: false, millis: 300 }
    } else {
        PulseStep { high: true, millis: 300 }
    };
    seq![on, PulseStep { high: false, millis: 100 }]
}

/// The timed levels of a whole pattern, in order.
pub open spec fn spec_pulse_steps(s: Seq<char>) -> Seq<PulseStep>
    decreases s.len(),
{
    if s.len() == 0 {
        Seq::<PulseStep>::empty()
    } else {
        spec_pulse_steps(s.drop_last()) + spec_symbol_steps(s.last())
    }
}

/// Renders a pattern as its timed levels.  The device-side driver plays the
/// steps back on the diagnostic output, sleeping for each duration.
pub fn pulse_steps(pattern: &str) -> (v: Vec<PulseStep>)
    ensures
        v@ == spec_pulse_steps(pattern@),
{
    let n = pattern.unicode_len();
    let mut v: Vec<PulseStep> = Vec::new();
    let mut i: usize = 0;
    proof {
        assert(pattern@.subrange(0, 0) =~= Seq::<char>::empty());
    }
    while i < n
        invariant
            i <= n,
            n == pattern@.len(),
            v@ == spec_pulse_steps(pattern@.subrange(0, i as int)),
        decreases n - i,
    {
        let c = pattern.get_char(i);
        let on = if c == '.' {
            PulseStep { high: true, millis: 100 }
        } else if c == ' ' {
            PulseStep { high: false, millis: 300 }
        } else {
            PulseStep { high: true, millis: 300 }
        };
        v.push(on);
        v.push(PulseStep { high: false, millis: 100 });
        proof {
            let pre = pattern@.subrange(0, i as int);
            let cur = pattern@.subrange(0, i + 1 as int);
            assert(cur.drop_last() =~= pre);
            assert(cur.last() == c);
            assert(v@ =~= spec_pulse_steps(pre) + spec_symbol_steps(c));
        }
        i = i + 1;
    }
    proof {
        assert(pattern@.subrange(0, n as int) =~= pattern@);
    }
    v
}

/// A rendered pattern has two timed levels per symbol, and every second
/// level is the fixed 100 ms low gap, so the output always ends low.
pub proof fn lemma_pulse_steps_shape(s: Seq<char>)
    ensures
        spec_pulse_steps(s).len() == 2 * s.len(),
        forall|i: int|
            0 <= i < spec_pulse_steps(s).len() && i % 2 == 1 ==> #[trigger] spec_pulse_steps(s)[i]
                == (PulseStep { high: false, millis: 100 }),
    decreases s.len(),
{
    if s.len() > 0 {
        lemma_pulse_steps_shape(s.drop_last());
        let whole = spec_pulse_steps(s);
        let pre = spec_pulse_steps(s.drop_last());
        assert forall|i: int| 0 <= i < whole.len() && i % 2 == 1 implies #[trigger] whole[i] == (
        PulseStep { high: false, millis: 100 }) by {
            if i < pre.len() {
                assert(whole[i] == pre[i]);
            } else {
                assert(i == pre.len() + 1);
                assert(whole[i] == spec_symbol_steps(s.last())[1]);
            }
        }
    }
}

} // verus!
