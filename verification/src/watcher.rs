//! The watcher loop as a whole: what a run of events leaves in the log.
//!
//! The loop takes one event at a time. It logs what the event calls for,
//! dispatches the file where the event qualifies, logs how the dispatch
//! ended, flushes the log and waits for the next event. It keeps nothing from
//! one turn to the next, and no turn ends it.

use vstd::prelude::*;
use crate::dispatch::{record_message, record_severity};
use crate::event::{message_of, severity_of, step_of, ChangeEvent, WatchedPath};
use crate::record::Severity;

verus! {

/// What the loop does with a run of events, one after the other.
pub open spec fn steps_of(events: Seq<ChangeEvent>) -> Seq<
    (Severity, Seq<char>, Option<WatchedPath>),
>
    decreases events.len(),
{
    if events.len() == 0 {
        Seq::empty()
    } else {
        steps_of(events.drop_last()).push(step_of(events.last()))
    }
}

/// The records that one turn leaves in the log. A turn is an event together
/// with the outcome of its dispatch: no reason for a success, the reason for
/// a failure. The outcome counts only where the event leads to a dispatch.
pub open spec fn records_of(turn: (ChangeEvent, Option<Seq<char>>)) -> Seq<(Severity, Seq<char>)> {
    let noticed = seq![(severity_of(turn.0), message_of(turn.0))];
    match step_of(turn.0).2 {
        Some(path) => noticed.push(
            (record_severity(turn.1), record_message(path.display@, turn.1)),
        ),
        None => noticed,
    }
}

/// The log that a run of turns leaves.
pub open spec fn log_of(turns: Seq<(ChangeEvent, Option<Seq<char>>)>) -> Seq<(Severity, Seq<char>)>
    decreases turns.len(),
{
    if turns.len() == 0 {
        Seq::empty()
    } else {
        log_of(turns.drop_last()) + records_of(turns.last())
    }
}

/// No event ends the loop and none is skipped: however a run of events goes,
/// with watcher errors and discarded events among them, each event gets its
/// own step, and that step is what the event alone calls for.
pub proof fn lemma_every_event_is_handled(events: Seq<ChangeEvent>, i: int)
    requires
        0 <= i < events.len(),
    ensures
        steps_of(events).len() == events.len(),
        steps_of(events)[i] == step_of(events[i]),
    decreases events.len(),
{
    let earlier = events.drop_last();
    if earlier.len() > 0 {
        lemma_every_event_is_handled(
            earlier,
            if i < earlier.len() {
                i
            } else {
                0
            },
        );
    } else {
        assert(steps_of(earlier).len() == 0);
    }
}

/// The loop has no memory: what later turns leave in the log does not depend
/// on how earlier turns went. After a watcher error, an unreadable file, an
/// unknown signature or a rejected upload, the following events are logged and
/// dispatched as they would have been after a success.
pub proof fn lemma_loop_has_no_memory(
    before: Seq<(ChangeEvent, Option<Seq<char>>)>,
    after: Seq<(ChangeEvent, Option<Seq<char>>)>,
)
    ensures
        log_of(before + after) == log_of(before) + log_of(after),
    decreases after.len(),
{
    if after.len() == 0 {
        assert(before + after =~= before);
        assert(log_of(before) + log_of(after) =~= log_of(before));
    } else {
        let whole = before + after;
        assert(whole.drop_last() =~= before + after.drop_last());
        assert(whole.last() == after.last());
        lemma_loop_has_no_memory(before, after.drop_last());
        assert(log_of(whole) =~= log_of(before) + log_of(after));
    }
}

/// Every turn leaves at least one record, and a turn that fails leaves a
/// warning as its last: no failure goes unlogged.
pub proof fn lemma_failures_are_logged(turn: (ChangeEvent, Option<Seq<char>>))
    ensures
        records_of(turn).len() >= 1,
        turn.0 is WatchError ==> records_of(turn).last().0 == Severity::Warn,
        step_of(turn.0).2 is Some && turn.1 is Some ==> records_of(turn).last() == (
            Severity::Warn,
            turn.1->0,
        ),
{
}

} // verus!
