//! The output relay: worker events in, structured log entries out.
//!
//! Events are consumed strictly in receive order until the stream ends or a
//! termination event is observed. Each stdout line becomes an info entry and
//! each stderr line an error entry, both trimmed of surrounding whitespace;
//! a launch error becomes an error entry as-is; termination becomes a
//! warning entry carrying the observed exit code and ends consumption.
//! Entry `k` of the log always belongs to event `k`, so each stream's lines
//! appear in the log in the order the worker emitted them.

use vstd::prelude::*;

verus! {

/// What the launcher's event stream can deliver for the worker.
#[derive(Debug)]
pub enum WorkerEvent {
    /// One line the worker wrote to its standard output.
    Stdout(String),
    /// One line the worker wrote to its standard error.
    Stderr(String),
    /// A launch or runtime error reported by the process machinery.
    LaunchError(String),
    /// The worker exited, with its exit code where the OS reported one.
    Terminated(Option<i32>),
}

/// One entry forwarded to the host's structured log.
#[derive(PartialEq, Debug)]
pub enum LogEntry {
    /// Info level: a trimmed stdout line.
    Info(String),
    /// Error level: a trimmed stderr line, or a process error message.
    Error(String),
    /// Warning level: the worker terminated with this exit code.
    Warning(Option<i32>),
}

/// The characters of a line with surrounding whitespace removed.
pub uninterp spec fn trimmed(line: Seq<char>) -> Seq<char>;

/// Relies on `str::trim`: removes leading and trailing whitespace, a
/// function of the line's characters alone.
#[verifier::external_body]
fn trim_line(line: &String) -> (r: String)
    ensures
        r@ == trimmed(line@),
{
    String::from(line.trim())
}

/// The log entry an event turns into: stream lines keep their level and are
/// trimmed, a process error is logged verbatim, termination carries the exit
/// code.
pub open spec fn entry_matches(event: WorkerEvent, entry: LogEntry) -> bool {
    match (event, entry) {
        (WorkerEvent::Stdout(line), LogEntry::Info(message)) => message@ == trimmed(line@),
        (WorkerEvent::Stderr(line), LogEntry::Error(message)) => message@ == trimmed(line@),
        (WorkerEvent::LaunchError(error), LogEntry::Error(message)) => message@ == error@,
        (WorkerEvent::Terminated(code), LogEntry::Warning(observed)) => observed == code,
        _ => false,
    }
}

/// Turn one received event into its log entry, and say whether consumption
/// must stop (exactly on a termination event).
pub fn relay_event(event: &WorkerEvent) -> (r: (LogEntry, bool))
    ensures
        entry_matches(*event, r.0),
        r.1 == (*event is Terminated),
{
    match event {
        WorkerEvent::Stdout(line) => (LogEntry::Info(trim_line(line)), false),
        WorkerEvent::Stderr(line) => (LogEntry::Error(trim_line(line)), false),
        WorkerEvent::LaunchError(error) => (LogEntry::Error(error.clone()), false),
        WorkerEvent::Terminated(code) => (LogEntry::Warning(*code), true),
    }
}

/// How many of the received events are consumed: everything up to and
/// including the first termination event, or the whole stream if the worker
/// never reported termination.
pub open spec fn relay_len(events: Seq<WorkerEvent>) -> nat
    decreases events.len(),
{
    if events.len() == 0 {
        0
    } else if events[0] is Terminated {
        1
    } else {
        1 + relay_len(events.drop_first())
    }
}

/// A prefix free of termination events is consumed whole; the first
/// termination event is consumed and ends the log there.
proof fn lemma_relay_len_prefix(events: Seq<WorkerEvent>, i: int)
    requires
        0 <= i <= events.len(),
        forall|k: int| 0 <= k < i ==> !(#[trigger] events[k] is Terminated),
    ensures
        relay_len(events) >= i,
        i < events.len() && events[i] is Terminated ==> relay_len(events) == i + 1,
        i == events.len() ==> relay_len(events) == i,
    decreases events.len(),
{
    if events.len() == 0 || i == 0 {
    } else {
        let tail = events.drop_first();
        assert(!(events[0] is Terminated));
        assert(forall|k: int| 0 <= k < i - 1 ==> !(#[trigger] tail[k] is Terminated));
        lemma_relay_len_prefix(tail, i - 1);
    }
}

/// Consumption covers at most the whole stream, never passes a termination
/// event, and ends early only on one.
pub proof fn lemma_relay_stops_at_first_termination(events: Seq<WorkerEvent>)
    ensures
        relay_len(events) <= events.len(),
        forall|k: int| 0 <= k < relay_len(events) - 1 ==> !(#[trigger] events[k] is Terminated),
        relay_len(events) < events.len() ==> events[relay_len(events) - 1] is Terminated,
    decreases events.len(),
{
    if events.len() == 0 {
    } else if events[0] is Terminated {
    } else {
        let tail = events.drop_first();
        lemma_relay_stops_at_first_termination(tail);
        assert forall|k: int| 0 <= k < relay_len(events) - 1 implies !(#[trigger] events[k]
            is Terminated) by {
            if k > 0 {
                assert(events[k] == tail[k - 1]);
            }
        }
        if relay_len(events) < events.len() {
            assert(events[relay_len(events) - 1] == tail[relay_len(tail) - 1]);
        }
    }
}

/// Per-stream order is preserved. Take any log produced under the relay's
/// contract and any two positions `i < j` of it: a stdout line at event
/// position `i` stands in the log at that same position `i`, as the info
/// entry holding its trimmed text, and likewise at `j` — so two lines of one
/// stream can never appear in the log out of the order the worker emitted
/// them. The same holds of stderr lines and their error entries.
pub proof fn lemma_relay_preserves_stream_order(
    events: Seq<WorkerEvent>,
    log: Seq<LogEntry>,
    i: int,
    j: int,
)
    requires
        log.len() == relay_len(events),
        forall|k: int| 0 <= k < log.len() ==> entry_matches(events[k], #[trigger] log[k]),
        0 <= i < j < log.len(),
    ensures
        events[i] is Stdout ==> log[i] is Info && log[i]->Info_0@ == trimmed(
            events[i]->Stdout_0@,
        ),
        events[j] is Stdout ==> log[j] is Info && log[j]->Info_0@ == trimmed(
            events[j]->Stdout_0@,
        ),
        events[i] is Stderr ==> log[i] is Error && log[i]->Error_0@ == trimmed(
            events[i]->Stderr_0@,
        ),
        events[j] is Stderr ==> log[j] is Error && log[j]->Error_0@ == trimmed(
            events[j]->Stderr_0@,
        ),
{
    assert(entry_matches(events[i], log[i]));
    assert(entry_matches(events[j], log[j]));
}

/// Consume a received batch of events in order, stopping after the first
/// termination event, and return the log: entry `k` belongs to event `k`,
/// which is what preserves each stream's per-line order in the log.
pub fn relay_events(events: &Vec<WorkerEvent>) -> (log: Vec<LogEntry>)
    ensures
        log@.len() == relay_len(events@),
        forall|k: int| 0 <= k < log@.len() ==> entry_matches(events@[k], #[trigger] log@[k]),
{
    let mut log: Vec<LogEntry> = Vec::new();
    let mut i: usize = 0;
    let mut stopped = false;
    while i < events.len() && !stopped
        invariant
            i <= events@.len(),
            log@.len() == i as int,
            forall|k: int| 0 <= k < i as int ==> entry_matches(events@[k], #[trigger] log@[k]),
            !stopped ==> forall|k: int| 0 <= k < i as int ==> !(#[trigger] events@[k]
                is Terminated),
            stopped ==> i >= 1 && events@[i as int - 1] is Terminated,
            stopped ==> forall|k: int| 0 <= k < i as int - 1 ==> !(#[trigger] events@[k]
                is Terminated),
        decreases events@.len() - i,
    {
        let (entry, stop) = relay_event(&events[i]);
        log.push(entry);
        stopped = stop;
        i = i + 1;
    }
    proof {
        if stopped {
            lemma_relay_len_prefix(events@, i as int - 1);
        } else {
            lemma_relay_len_prefix(events@, i as int);
        }
    }
    log
}

} // verus!
