//! Properties that hold across several workspace operations.
use vstd::prelude::*;

use crate::error::TaskError;
use crate::model::{
    completed, is_parent, is_first_parent, metadata_lookup, parent_of, set_metadata_outcome,
    with_metadata, TaskId, TaskMap,
};
use crate::recur::{Blank, Constant, Deadline, Recur, RecurState, Recurrence};
use crate::rules::{all_outcome, available_outcome, Children, Condition, Date, Direct};
use crate::time::{Instant, DAY_MILLIS};

verus! {

/// The tasks after task `id` is completed `n` times.
pub open spec fn completed_times(ws: TaskMap, id: TaskId, n: nat) -> TaskMap
    decreases n,
{
    if n == 0 {
        ws
    } else {
        completed(completed_times(ws, id, (n - 1) as nat), id)
    }
}

proof fn lemma_completed_times_keeps_task(ws: TaskMap, id: TaskId, n: nat)
    requires
        ws.contains_key(id),
    ensures
        completed_times(ws, id, n).contains_key(id),
    decreases n,
{
    if n > 0 {
        lemma_completed_times_keeps_task(ws, id, (n - 1) as nat);
    }
}

/// A task with a fresh blank rule is active until it is completed once, and
/// dead after any number of completions from then on.
pub proof fn lemma_blank_completes_once(ws: TaskMap, id: TaskId, n: nat)
    requires
        ws.contains_key(id),
        ws[id].date == Recurrence::Blank(Blank { done: false }),
    ensures
        completed_times(ws, id, n).contains_key(id),
        completed_times(ws, id, n)[id].date.status() == if n == 0 {
            RecurState::Active
        } else {
            RecurState::Dead
        },
    decreases n,
{
    lemma_completed_times_keeps_task(ws, id, n);
    if n > 0 {
        lemma_blank_completes_once(ws, id, (n - 1) as nat);
    }
}

/// A task with a deadline `due` not yet met is active and reports `due`;
/// after one completion it is dead and reports no due instant.
pub proof fn lemma_deadline_completes_once(ws: TaskMap, id: TaskId, due: Instant)
    requires
        ws.contains_key(id),
        ws[id].date == Recurrence::Deadline(Deadline { due, done: false }),
    ensures
        ws[id].date.status() == RecurState::Active,
        ws[id].date.due_at() == Some(due),
        completed(ws, id)[id].date.status() == RecurState::Dead,
        completed(ws, id)[id].date.due_at() == None::<Instant>,
{
}

/// A constant rule first due two days after `now`, repeating daily and ending
/// four days after `now`, is due three and then four days after `now` after
/// its first and second completions, and dead after the third.
pub proof fn lemma_constant_runs_to_its_end(ws: TaskMap, id: TaskId, now: Instant)
    requires
        now + 4 * DAY_MILLIS < i64::MAX,
        ws.contains_key(id),
        ws[id].date == Recurrence::Constant(
            Constant {
                due: (now + 2 * DAY_MILLIS) as Instant,
                repeat: DAY_MILLIS,
                end_date: Some((now + 4 * DAY_MILLIS) as Instant),
            },
        ),
    ensures
        ws[id].date.status() == RecurState::Active,
        completed_times(ws, id, 1)[id].date.status() == RecurState::Active,
        completed_times(ws, id, 1)[id].date.due_at() == Some((now + 3 * DAY_MILLIS) as Instant),
        completed_times(ws, id, 2)[id].date.status() == RecurState::Active,
        completed_times(ws, id, 2)[id].date.due_at() == Some((now + 4 * DAY_MILLIS) as Instant),
        completed_times(ws, id, 3)[id].date.status() == RecurState::Dead,
{
    reveal_with_fuel(completed_times, 4);
}

/// A task gated by a direct dependency on task `a` and a date `d` is
/// available exactly when `a` is dead and `d` has passed.
pub proof fn lemma_direct_and_date(ws: TaskMap, id: TaskId, a: TaskId, d: Instant, now: Instant)
    requires
        ws.contains_key(id),
        ws.contains_key(a),
        ws[id].dependencies == seq![Condition::Direct(Direct { id: a }), Condition::Date(Date { date: d })],
    ensures
        available_outcome(ws, id, now) == Ok::<bool, TaskError>(
            ws[a].date.status() == RecurState::Dead && now > d,
        ),
{
    let deps = ws[id].dependencies;
    assert(deps.drop_first().drop_first() =~= Seq::<Condition>::empty());
    reveal_with_fuel(all_outcome, 3);
}

/// Where `p` is the only task that lists `c` among its children, `p` is the
/// parent found for `c`.
pub proof fn lemma_single_parent_is_found(ws: TaskMap, p: TaskId, c: TaskId)
    requires
        is_parent(ws, p, c),
        forall|q: TaskId| #[trigger] is_parent(ws, q, c) ==> q == p,
    ensures
        parent_of(ws, c) == Some(p),
{
    assert(is_first_parent(ws, p, c));
}

/// A task gated by its children alone, all of which exist, is available
/// exactly when none of its children is active.
pub proof fn lemma_children_gate(ws: TaskMap, id: TaskId, now: Instant)
    requires
        ws.contains_key(id),
        ws[id].dependencies == seq![Condition::Children(Children {})],
        forall|j: int| 0 <= j < ws[id].children.len() ==> ws.contains_key(#[trigger] ws[id].children[j]),
    ensures
        available_outcome(ws, id, now) == Ok::<bool, TaskError>(
            forall|j: int|
                0 <= j < ws[id].children.len() ==> ws[#[trigger] ws[id].children[j]].date.status()
                    != RecurState::Active,
        ),
{
    let deps = ws[id].dependencies;
    assert(deps.drop_first() =~= Seq::<Condition>::empty());
    reveal_with_fuel(all_outcome, 2);
}

/// A value written under a key is the value read back; overwriting a key
/// that is not there fails with a missing-key error, and succeeds where the
/// key is there.
pub proof fn lemma_metadata_write_then_read(ws: TaskMap, id: TaskId, key: Seq<char>, val: Seq<char>)
    requires
        ws.contains_key(id),
    ensures
        metadata_lookup(with_metadata(ws, id, key, val), id, key) == Ok::<Option<Seq<char>>, TaskError>(Some(val)),
        !ws[id].metadata.contains_key(key) ==> set_metadata_outcome(ws, id, key) == Err::<(), TaskError>(
            TaskError::NonexistentKeyError,
        ),
        ws[id].metadata.contains_key(key) ==> set_metadata_outcome(ws, id, key) == Ok::<(), TaskError>(()),
{
}

} // verus!
