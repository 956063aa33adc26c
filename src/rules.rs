//! Dependency conditions: what must hold before a task may be acted upon.
use vstd::prelude::*;

use crate::error::TaskError;
use crate::model::{done_outcome, parent_of, Task, TaskId, TaskMap, TaskView, Workspace};
use crate::recur::{Recur, RecurState};
use crate::time::{is_past, Instant};

verus! {

/// A condition that gates a task.
pub trait Dependency {
    /// Whether the condition holds for task `id`, which holds `task`, in the
    /// tasks `ws` at the instant `now`, or why it cannot be decided.
    spec fn outcome(&self, ws: TaskMap, id: TaskId, task: TaskView, now: Instant) -> Result<bool, TaskError>;

    /// Decides the condition for task `id`, which holds `task`, in `space`
    /// at the instant `now`.
    fn available(&self, space: &Workspace, id: TaskId, task: &Task, now: Instant) -> (r: Result<bool, TaskError>)
        ensures
            r == self.outcome(space@, id, task@, now),
    ;
}

/// Holds once the current instant lies after a fixed instant.
#[derive(Debug, Clone, Copy, PartialEq, Eq, Structural)]
pub struct Date {
    pub date: Instant,
}

impl Date {
    /// A condition that holds once `date` has passed.
    pub fn new(date: Instant) -> (r: Condition)
        ensures
            r == Condition::Date(Date { date }),
    {
        Condition::Date(Date { date })
    }
}

impl Dependency for Date {
    open spec fn outcome(&self, ws: TaskMap, id: TaskId, task: TaskView, now: Instant) -> Result<bool, TaskError> {
        Ok(now > self.date)
    }

    fn available(&self, space: &Workspace, id: TaskId, task: &Task, now: Instant) -> (r: Result<bool, TaskError>) {
        Ok(is_past(now, self.date))
    }
}

/// Holds once the current instant lies after the task's own due instant
/// less an offset.
#[derive(Debug, Clone, Copy, PartialEq, Eq, Structural)]
pub struct RelativeDate {
    /// The offset, in milliseconds.
    pub off: u64,
}

impl RelativeDate {
    /// A condition that holds from `off` milliseconds before the task is due.
    pub fn new(off: u64) -> (r: Condition)
        ensures
            r == Condition::RelativeDate(RelativeDate { off }),
    {
        Condition::RelativeDate(RelativeDate { off })
    }
}

impl Dependency for RelativeDate {
    open spec fn outcome(&self, ws: TaskMap, id: TaskId, task: TaskView, now: Instant) -> Result<bool, TaskError> {
        match task.date.due_at() {
            Some(due) => Ok(now > due - self.off),
            None => Err(TaskError::NonexistentError),
        }
    }

    fn available(&self, space: &Workspace, id: TaskId, task: &Task, now: Instant) -> (r: Result<bool, TaskError>) {
        match task.date.current() {
            Some(due) => Ok(now as i128 > due as i128 - self.off as i128),
            None => Err(TaskError::NonexistentError),
        }
    }
}

/// Holds once another task is dead.
#[derive(Debug, Clone, Copy, PartialEq, Eq, Structural)]
pub struct Direct {
    pub id: TaskId,
}

impl Direct {
    /// A condition that holds once task `id` is dead.
    pub fn new(id: TaskId) -> (r: Condition)
        ensures
            r == Condition::Direct(Direct { id }),
    {
        Condition::Direct(Direct { id })
    }
}

impl Dependency for Direct {
    open spec fn outcome(&self, ws: TaskMap, id: TaskId, task: TaskView, now: Instant) -> Result<bool, TaskError> {
        done_outcome(ws, self.id)
    }

    fn available(&self, space: &Workspace, id: TaskId, task: &Task, now: Instant) -> (r: Result<bool, TaskError>) {
        space.task_done(self.id)
    }
}

/// Holds once no child of the task is still active.
#[derive(Debug, Clone, Copy, PartialEq, Eq, Structural)]
pub struct Children {}

impl Children {
    /// A condition on the task's children.
    pub fn new() -> (r: Condition)
        ensures
            r == Condition::Children(Children {}),
    {
        Condition::Children(Children {})
    }
}

/// A child missing from `ws` is an error; otherwise the condition holds
/// when no child is active.
pub open spec fn children_outcome(ws: TaskMap, kids: Seq<TaskId>) -> Result<bool, TaskError> {
    if exists|j: int| 0 <= j < kids.len() && !ws.contains_key(#[trigger] kids[j]) {
        Err(TaskError::NonexistentError)
    } else {
        Ok(forall|j: int| 0 <= j < kids.len() ==> ws[#[trigger] kids[j]].date.status() != RecurState::Active)
    }
}

impl Dependency for Children {
    open spec fn outcome(&self, ws: TaskMap, id: TaskId, task: TaskView, now: Instant) -> Result<bool, TaskError> {
        children_outcome(ws, task.children)
    }

    fn available(&self, space: &Workspace, id: TaskId, task: &Task, now: Instant) -> (r: Result<bool, TaskError>) {
        let ghost ws = space@;
        let ghost kids = task.children@;
        let mut none_active = true;
        let mut i: usize = 0;
        while i < task.children.len()
            invariant
                ws == space@,
                kids == task.children@,
                i <= kids.len(),
                forall|j: int| 0 <= j < i ==> ws.contains_key(#[trigger] kids[j]),
                none_active == forall|j: int|
                    0 <= j < i ==> ws[#[trigger] kids[j]].date.status() != RecurState::Active,
            decreases kids.len() - i,
        {
            match space.tasks.get(&task.children[i]) {
                Some(child) => {
                    if child.date.active() == RecurState::Active {
                        none_active = false;
                    }
                },
                None => {
                    assert(!ws.contains_key(kids[i as int]));
                    return Err(TaskError::NonexistentError);
                },
            }
            i = i + 1;
        }
        Ok(none_active)
    }
}

/// Holds once the task's parent is dead.
#[derive(Debug, Clone, Copy, PartialEq, Eq, Structural)]
pub struct Parent {}

impl Parent {
    /// A condition on the task's parent.
    pub fn new() -> (r: Condition)
        ensures
            r == Condition::Parent(Parent {}),
    {
        Condition::Parent(Parent {})
    }
}

impl Dependency for Parent {
    open spec fn outcome(&self, ws: TaskMap, id: TaskId, task: TaskView, now: Instant) -> Result<bool, TaskError> {
        match parent_of(ws, id) {
            Some(p) => done_outcome(ws, p),
            None => Err(TaskError::NonexistentError),
        }
    }

    fn available(&self, space: &Workspace, id: TaskId, task: &Task, now: Instant) -> (r: Result<bool, TaskError>) {
        let parent = space.task_get_parent(id)?;
        space.task_done(parent)
    }
}

/// A dependency condition of a task: one of the conditions above.
#[derive(Debug, Clone, Copy, PartialEq, Eq, Structural)]
pub enum Condition {
    Date(Date),
    RelativeDate(RelativeDate),
    Direct(Direct),
    Children(Children),
    Parent(Parent),
}

impl Dependency for Condition {
    open spec fn outcome(&self, ws: TaskMap, id: TaskId, task: TaskView, now: Instant) -> Result<bool, TaskError> {
        match self {
            Condition::Date(c) => c.outcome(ws, id, task, now),
            Condition::RelativeDate(c) => c.outcome(ws, id, task, now),
            Condition::Direct(c) => c.outcome(ws, id, task, now),
            Condition::Children(c) => c.outcome(ws, id, task, now),
            Condition::Parent(c) => c.outcome(ws, id, task, now),
        }
    }

    fn available(&self, space: &Workspace, id: TaskId, task: &Task, now: Instant) -> (r: Result<bool, TaskError>) {
        match self {
            Condition::Date(c) => c.available(space, id, task, now),
            Condition::RelativeDate(c) => c.available(space, id, task, now),
            Condition::Direct(c) => c.available(space, id, task, now),
            Condition::Children(c) => c.available(space, id, task, now),
            Condition::Parent(c) => c.available(space, id, task, now),
        }
    }
}

/// Checks `deps` in order: the first condition that does not hold, or that
/// reports an error, decides; where all hold, so does the conjunction.
pub open spec fn all_outcome(
    deps: Seq<Condition>,
    ws: TaskMap,
    id: TaskId,
    task: TaskView,
    now: Instant,
) -> Result<bool, TaskError>
    decreases deps.len(),
{
    if deps.len() == 0 {
        Ok(true)
    } else {
        match deps[0].outcome(ws, id, task, now) {
            Ok(true) => all_outcome(deps.drop_first(), ws, id, task, now),
            other => other,
        }
    }
}

/// Whether task `id` of `ws` is available at the instant `now`.
pub open spec fn available_outcome(ws: TaskMap, id: TaskId, now: Instant) -> Result<bool, TaskError> {
    if ws.contains_key(id) {
        all_outcome(ws[id].dependencies, ws, id, ws[id], now)
    } else {
        Err(TaskError::NonexistentError)
    }
}

} // verus!
