//! Decision logic of the background worker. The worker drains the action
//! queue strictly one item at a time: for each action it emits a start
//! event, performs the one network call, and emits the terminal success or
//! error event. The calls themselves happen outside the library; these
//! functions decide which events frame each call, so the loop that drives
//! them stays a thin shell.

use vstd::prelude::*;

use crate::{Action, Event, Torrent};

verus! {

/// The start event the worker emits before it performs an action's call.
pub open spec fn start_event_of(action: Action) -> Event {
    match action {
        Action::RefreshList => Event::ListUpdateStart,
        Action::RefreshItem(_) => Event::ItemUpdateStart,
        Action::DeleteItem(id, _) => Event::DeleteStart(id),
    }
}

/// Emit the start event for `action`.
pub fn start_event(action: &Action) -> (e: Event)
    ensures
        e == start_event_of(*action),
{
    match action {
        Action::RefreshList => Event::ListUpdateStart,
        Action::RefreshItem(_) => Event::ItemUpdateStart,
        Action::DeleteItem(id, _) => Event::DeleteStart(*id),
    }
}

/// The terminal event for a list refresh: the whole new collection on
/// success, the transport error otherwise.
pub fn list_outcome_event(outcome: Result<Vec<Torrent>, String>) -> (e: Event)
    ensures
        outcome matches Ok(items) ==> e == Event::ListUpdate(items),
        outcome matches Err(err) ==> e == Event::ListUpdateError(err),
{
    match outcome {
        Ok(items) => Event::ListUpdate(items),
        Err(err) => Event::ListUpdateError(err),
    }
}

/// The terminal event for a single-entry refresh. The call answers with a
/// collection; the worker takes its first element, and treats an empty
/// answer — the id is gone from the daemon — as a fetch failure.
pub fn item_outcome_event(id: i64, outcome: Result<Vec<Torrent>, String>) -> (e: Event)
    ensures
        outcome matches Ok(items) ==> (if items@.len() > 0 {
            e == Event::ItemUpdate(items@[0])
        } else {
            e matches Event::ItemUpdateError(eid, msg) && eid == id && msg@
                == "torrent not found"@
        }),
        outcome matches Err(err) ==> e == Event::ItemUpdateError(id, err),
{
    match outcome {
        Ok(mut items) => {
            if items.len() > 0 {
                let first = items.remove(0);
                Event::ItemUpdate(first)
            } else {
                Event::ItemUpdateError(id, "torrent not found".to_owned())
            }
        },
        Err(err) => Event::ItemUpdateError(id, err),
    }
}

/// The terminal event for a delete: completion with the id on success, the
/// transport error otherwise.
pub fn delete_outcome_event(id: i64, outcome: Result<(), String>) -> (e: Event)
    ensures
        outcome is Ok ==> e == Event::DeleteDone(id),
        outcome matches Err(err) ==> e == Event::DeleteError(id, err),
{
    match outcome {
        Ok(()) => Event::DeleteDone(id),
        Err(err) => Event::DeleteError(id, err),
    }
}

/// The event stream a sequential worker produces for `actions` when the
/// call of action `k` terminates with `terminals[k]`: each action's start
/// event immediately followed by its terminal event, action after action,
/// with no interleaving.
pub open spec fn worker_trace(actions: Seq<Action>, terminals: Seq<Event>) -> Seq<Event>
    decreases actions.len(),
{
    if actions.len() == 0 {
        Seq::empty()
    } else {
        seq![start_event_of(actions.first()), terminals.first()] + worker_trace(
            actions.drop_first(),
            terminals.drop_first(),
        )
    }
}

/// Where each action's two events sit in the trace: action `k` starts at
/// position `2k` and terminates at position `2k + 1`.
pub proof fn lemma_worker_trace_index(actions: Seq<Action>, terminals: Seq<Event>, k: int)
    requires
        terminals.len() == actions.len(),
        0 <= k < actions.len(),
    ensures
        worker_trace(actions, terminals).len() == 2 * actions.len(),
        worker_trace(actions, terminals)[2 * k] == start_event_of(actions[k]),
        worker_trace(actions, terminals)[2 * k + 1] == terminals[k],
    decreases actions.len(),
{
    if k == 0 {
        lemma_worker_trace_len(actions.drop_first(), terminals.drop_first());
    } else {
        lemma_worker_trace_index(actions.drop_first(), terminals.drop_first(), k - 1);
    }
}

/// A sequential worker emits two events for each action it completes.
pub proof fn lemma_worker_trace_len(actions: Seq<Action>, terminals: Seq<Event>)
    requires
        terminals.len() == actions.len(),
    ensures
        worker_trace(actions, terminals).len() == 2 * actions.len(),
    decreases actions.len(),
{
    if actions.len() > 0 {
        lemma_worker_trace_len(actions.drop_first(), terminals.drop_first());
    }
}

/// Worker serialization: for any two queued actions, the start events
/// appear in queue order, and the later action's start event never
/// precedes the earlier action's terminal event — at most one call is in
/// flight at a time.
pub proof fn lemma_worker_serialization(
    actions: Seq<Action>,
    terminals: Seq<Event>,
    i: int,
    j: int,
)
    requires
        terminals.len() == actions.len(),
        0 <= i < j < actions.len(),
    ensures
        worker_trace(actions, terminals)[2 * i] == start_event_of(actions[i]),
        worker_trace(actions, terminals)[2 * j] == start_event_of(actions[j]),
        worker_trace(actions, terminals)[2 * i + 1] == terminals[i],
        2 * i < 2 * j,
        2 * i + 1 < 2 * j,
{
    lemma_worker_trace_index(actions, terminals, i);
    lemma_worker_trace_index(actions, terminals, j);
}

} // verus!
