//! Tasks and the workspace that owns them.
use std::collections::HashMap;

use vstd::prelude::*;
use vstd::std_specs::hash::spec_hash_map_iter;
use vstd::std_specs::iter::IteratorSpec;

use crate::error::TaskError;
use crate::metadata::Metadata;
use crate::recur::{Recur, RecurState, Recurrence};
use crate::rules::{available_outcome, Condition, Dependency};
use crate::time::{clock_now, Instant};

verus! {

/// The identifier of a task: the 128 bits of a UUID.
pub type TaskId = u128;

/// A task: a title, a recurrence rule, the conditions that gate it, the
/// identifiers of its children and its metadata.
pub struct Task {
    /// A title for the task.
    pub title: String,
    /// The recurrence rule the task follows.
    pub date: Recurrence,
    /// Conditions that must all hold for the task to be available.
    pub dependencies: Vec<Condition>,
    /// Identifiers of the task's children, in the order they were attached.
    pub children: Vec<TaskId>,
    /// Metadata in any form.
    pub metadata: Metadata,
}

/// What a task holds, as mathematical values.
pub struct TaskView {
    pub title: Seq<char>,
    pub date: Recurrence,
    pub dependencies: Seq<Condition>,
    pub children: Seq<TaskId>,
    pub metadata: Map<Seq<char>, Seq<char>>,
}

impl View for Task {
    type V = TaskView;

    open spec fn view(&self) -> TaskView {
        TaskView {
            title: self.title@,
            date: self.date,
            dependencies: self.dependencies@,
            children: self.children@,
            metadata: self.metadata@,
        }
    }
}

/// The tasks of a workspace, by identifier.
pub type TaskMap = Map<TaskId, TaskView>;

/// The store that owns every task, keyed by identifier.
pub struct Workspace {
    pub tasks: HashMap<TaskId, Task>,
}

impl View for Workspace {
    type V = TaskMap;

    open spec fn view(&self) -> TaskMap {
        self.tasks@.map_values(|t: Task| t@)
    }
}

/// Whether `p` is a task of `ws` with `c` among its children.
pub open spec fn is_parent(ws: TaskMap, p: TaskId, c: TaskId) -> bool {
    ws.contains_key(p) && ws[p].children.contains(c)
}

/// Whether `p` is the parent of `c` with the smallest identifier.
pub open spec fn is_first_parent(ws: TaskMap, p: TaskId, c: TaskId) -> bool {
    is_parent(ws, p, c) && forall|q: TaskId| #[trigger] is_parent(ws, q, c) ==> p <= q
}

/// The parent of `c`, if it has one. In a forest a task has at most one
/// parent; where several tasks list `c`, the smallest identifier is taken.
pub open spec fn parent_of(ws: TaskMap, c: TaskId) -> Option<TaskId> {
    if exists|p: TaskId| is_first_parent(ws, p, c) {
        Some(choose|p: TaskId| is_first_parent(ws, p, c))
    } else {
        None
    }
}

/// Whether the task `id` is dead, or an error if there is no such task.
pub open spec fn done_outcome(ws: TaskMap, id: TaskId) -> Result<bool, TaskError> {
    if ws.contains_key(id) {
        Ok(ws[id].date.status() == RecurState::Dead)
    } else {
        Err(TaskError::NonexistentError)
    }
}

/// Succeeds where the task `id` exists.
pub open spec fn found(ws: TaskMap, id: TaskId) -> Result<(), TaskError> {
    if ws.contains_key(id) {
        Ok(())
    } else {
        Err(TaskError::NonexistentError)
    }
}

/// The tasks after the current occurrence of task `id` is completed.
pub open spec fn completed(ws: TaskMap, id: TaskId) -> TaskMap {
    if ws.contains_key(id) {
        ws.insert(id, TaskView { date: ws[id].date.advanced(), ..ws[id] })
    } else {
        ws
    }
}

/// Whether attaching `c` as a child of `p` succeeds, and why not.
pub open spec fn add_child_outcome(ws: TaskMap, p: TaskId, c: TaskId) -> Result<(), TaskError> {
    if !ws.contains_key(c) || !ws.contains_key(p) {
        Err(TaskError::NonexistentError)
    } else if ws[p].children.contains(c) {
        Err(TaskError::DuplicateError)
    } else {
        Ok(())
    }
}

/// The tasks after `c` is attached as a child of `p`.
pub open spec fn with_child(ws: TaskMap, p: TaskId, c: TaskId) -> TaskMap {
    if add_child_outcome(ws, p, c) is Ok {
        ws.insert(p, TaskView { children: ws[p].children.push(c), ..ws[p] })
    } else {
        ws
    }
}

/// The tasks after `val` is stored under `key` in the metadata of task `id`.
pub open spec fn with_metadata(ws: TaskMap, id: TaskId, key: Seq<char>, val: Seq<char>) -> TaskMap {
    if ws.contains_key(id) {
        ws.insert(id, TaskView { metadata: ws[id].metadata.insert(key, val), ..ws[id] })
    } else {
        ws
    }
}

/// Whether overwriting `key` in the metadata of task `id` succeeds, and why
/// not.
pub open spec fn set_metadata_outcome(ws: TaskMap, id: TaskId, key: Seq<char>) -> Result<(), TaskError> {
    if !ws.contains_key(id) {
        Err(TaskError::NonexistentError)
    } else if !ws[id].metadata.contains_key(key) {
        Err(TaskError::NonexistentKeyError)
    } else {
        Ok(())
    }
}

/// The value under `key` in the metadata of task `id`.
pub open spec fn metadata_lookup(ws: TaskMap, id: TaskId, key: Seq<char>) -> Result<Option<Seq<char>>, TaskError> {
    if !ws.contains_key(id) {
        Err(TaskError::NonexistentError)
    } else if ws[id].metadata.contains_key(key) {
        Ok(Some(ws[id].metadata[key]))
    } else {
        Ok(None)
    }
}

/// A metadata read result, with the string as its view.
pub open spec fn lookup_view(r: Result<Option<&String>, TaskError>) -> Result<Option<Seq<char>>, TaskError> {
    match r {
        Ok(Some(v)) => Ok(Some(v@)),
        Ok(None) => Ok(None),
        Err(e) => Err(e),
    }
}

/// The `j`-th identifier tried after `start`, counting on from the largest
/// identifier to zero.
spec fn probe(start: TaskId, j: int) -> TaskId {
    if start + j <= u128::MAX {
        (start + j) as TaskId
    } else {
        (start + j - u128::MAX - 1) as TaskId
    }
}

/// Relies on `uuid::Uuid::new_v4` for a random version-4 UUID, read as its
/// 128 bits by `Uuid::as_u128`. Nothing is promised of the value.
#[verifier::external_body]
fn draw_id() -> (r: TaskId) {
    uuid::Uuid::new_v4().as_u128()
}

/// Whether `id` is among `ids`.
fn holds_id(ids: &Vec<TaskId>, id: TaskId) -> (r: bool)
    ensures
        r == ids@.contains(id),
{
    let mut i: usize = 0;
    while i < ids.len()
        invariant
            i <= ids@.len(),
            forall|j: int| 0 <= j < i ==> ids@[j] != id,
        decreases ids@.len() - i,
    {
        if ids[i] == id {
            return true;
        }
        i = i + 1;
    }
    false
}

impl Workspace {
    /// An empty workspace.
    pub fn new() -> (r: Workspace)
        ensures
            r@ == TaskMap::empty(),
    {
        let r = Workspace { tasks: HashMap::new() };
        assert(r@ =~= TaskMap::empty());
        r
    }

    /// An identifier that no task of the workspace has: a fresh random one,
    /// or, should that be taken, the first free one after it.
    fn fresh_id(&self) -> (r: TaskId)
        ensures
            !self@.contains_key(r),
    {
        let start = draw_id();
        let mut id = start;
        let n = self.tasks.len();
        let mut tries: usize = 0;
        proof {
            vstd::std_specs::hash::axiom_hashmap_view_finite_dom(self.tasks);
        }
        while self.tasks.contains_key(&id)
            invariant
                n == self.tasks@.dom().len(),
                self.tasks@.dom().finite(),
                tries <= n,
                id == probe(start, tries as int),
                forall|j: int| 0 <= j < tries ==> self.tasks@.contains_key(#[trigger] probe(start, j)),
            decreases n - tries,
        {
            proof {
                let tried = Seq::new((tries + 1) as nat, |j: int| probe(start, j));
                assert(tried.no_duplicates());
                assert(tried.to_set().subset_of(self.tasks@.dom())) by {
                    assert forall|k: TaskId| tried.to_set().contains(k) implies self.tasks@.dom().contains(k) by {
                        let j = choose|j: int| 0 <= j < tried.len() && tried[j] == k;
                        assert(tried[j] == probe(start, j));
                    }
                }
                tried.unique_seq_to_set();
                vstd::set_lib::lemma_len_subset(tried.to_set(), self.tasks@.dom());
            }
            id = if id == u128::MAX { 0 } else { id + 1 };
            tries = tries + 1;
        }
        id
    }

    /// Adds a task with a fresh identifier and returns that identifier.
    pub fn add_task(&mut self, title: &str, date: Recurrence, deps: Vec<Condition>) -> (id: TaskId)
        ensures
            !old(self)@.contains_key(id),
            final(self)@ == old(self)@.insert(
                id,
                TaskView {
                    title: title@,
                    date,
                    dependencies: deps@,
                    children: Seq::empty(),
                    metadata: Map::empty(),
                },
            ),
    {
        let id = self.fresh_id();
        let task = Task {
            title: title.to_owned(),
            date,
            children: Vec::new(),
            metadata: Metadata::new(),
            dependencies: deps,
        };
        self.tasks.insert(id, task);
        proof {
            assert(task@.children =~= Seq::empty());
        }
        assert(self@ =~= old(self)@.insert(id, task@));
        id
    }

    /// Whether every condition of task `id` holds at the instant `now`. The
    /// conditions are checked in order; the first that fails, or reports an
    /// error, decides.
    pub fn task_available_at(&self, id: TaskId, now: Instant) -> (r: Result<bool, TaskError>)
        ensures
            r == available_outcome(self@, id, now),
    {
        let task = match self.tasks.get(&id) {
            Some(t) => t,
            None => {
                return Err(TaskError::NonexistentError);
            },
        };
        let ghost ws = self@;
        let ghost deps = task.dependencies@;
        let mut i: usize = 0;
        assert(deps.subrange(0, deps.len() as int) =~= deps);
        while i < task.dependencies.len()
            invariant
                ws == self@,
                ws.contains_key(id),
                ws[id] == task@,
                deps == task.dependencies@,
                i <= deps.len(),
                available_outcome(ws, id, now) == crate::rules::all_outcome(
                    deps.subrange(i as int, deps.len() as int),
                    ws,
                    id,
                    task@,
                    now,
                ),
            decreases deps.len() - i,
        {
            let out = task.dependencies[i].available(self, id, task, now);
            assert(deps.subrange(i as int, deps.len() as int).drop_first() =~= deps.subrange(
                i + 1,
                deps.len() as int,
            ));
            match out {
                Err(e) => {
                    return Err(e);
                },
                Ok(false) => {
                    return Ok(false);
                },
                Ok(true) => {},
            }
            i = i + 1;
        }
        Ok(true)
    }

    /// Whether every condition of task `id` holds now, by the system clock.
    pub fn task_available(&self, id: TaskId) -> (r: Result<bool, TaskError>)
        ensures
            exists|now: Instant| r == available_outcome(self@, id, now),
    {
        let now = clock_now();
        self.task_available_at(id, now)
    }

    /// Whether task `id` is dead.
    pub fn task_done(&self, id: TaskId) -> (r: Result<bool, TaskError>)
        ensures
            r == done_outcome(self@, id),
    {
        match self.tasks.get(&id) {
            Some(task) => Ok(task.date.active() == RecurState::Dead),
            None => Err(TaskError::NonexistentError),
        }
    }

    /// Completes the current occurrence of task `id`.
    pub fn task_complete(&mut self, id: TaskId) -> (r: Result<(), TaskError>)
        ensures
            r == found(old(self)@, id),
            final(self)@ == completed(old(self)@, id),
    {
        match self.tasks.remove(&id) {
            Some(mut task) => {
                task.date.next();
                self.tasks.insert(id, task);
                assert(self@ =~= completed(old(self)@, id));
                Ok(())
            },
            None => {
                assert(self@ =~= old(self)@);
                Err(TaskError::NonexistentError)
            },
        }
    }

    /// Attaches `child_id` as the last child of `parent_id`.
    pub fn task_add_child(&mut self, parent_id: TaskId, child_id: TaskId) -> (r: Result<(), TaskError>)
        ensures
            r == add_child_outcome(old(self)@, parent_id, child_id),
            final(self)@ == with_child(old(self)@, parent_id, child_id),
    {
        if !self.tasks.contains_key(&child_id) {
            return Err(TaskError::NonexistentError);
        }
        match self.tasks.remove(&parent_id) {
            Some(mut task) => {
                if holds_id(&task.children, child_id) {
                    self.tasks.insert(parent_id, task);
                    assert(self@ =~= old(self)@);
                    return Err(TaskError::DuplicateError);
                }
                task.children.push(child_id);
                self.tasks.insert(parent_id, task);
                assert(self@ =~= with_child(old(self)@, parent_id, child_id));
                Ok(())
            },
            None => {
                assert(self@ =~= old(self)@);
                Err(TaskError::NonexistentError)
            },
        }
    }

    /// Stores `val` under `key` in the metadata of task `id`, replacing any
    /// value already there.
    pub fn task_add_metadata(&mut self, id: TaskId, key: String, val: String) -> (r: Result<(), TaskError>)
        ensures
            r == found(old(self)@, id),
            final(self)@ == with_metadata(old(self)@, id, key@, val@),
    {
        match self.tasks.remove(&id) {
            Some(mut task) => {
                task.metadata.insert(key, val);
                self.tasks.insert(id, task);
                assert(self@ =~= with_metadata(old(self)@, id, key@, val@));
                Ok(())
            },
            None => {
                assert(self@ =~= old(self)@);
                Err(TaskError::NonexistentError)
            },
        }
    }

    /// Returns the value under `key` in the metadata of task `id`.
    pub fn task_get_metadata(&self, id: TaskId, key: String) -> (r: Result<Option<&String>, TaskError>)
        ensures
            lookup_view(r) == metadata_lookup(self@, id, key@),
    {
        match self.tasks.get(&id) {
            Some(task) => Ok(task.metadata.get(&key)),
            None => Err(TaskError::NonexistentError),
        }
    }

    /// Overwrites the value under `key` in the metadata of task `id`; the key
    /// must already be there.
    pub fn task_set_metadata(&mut self, id: TaskId, key: String, val: String) -> (r: Result<(), TaskError>)
        ensures
            r == set_metadata_outcome(old(self)@, id, key@),
            final(self)@ == if r is Ok {
                with_metadata(old(self)@, id, key@, val@)
            } else {
                old(self)@
            },
    {
        match self.tasks.remove(&id) {
            Some(mut task) => {
                let ghost k = key@;
                let ghost v = val@;
                let replaced = task.metadata.update(key, val);
                self.tasks.insert(id, task);
                if replaced {
                    assert(self@ =~= with_metadata(old(self)@, id, k, v));
                    Ok(())
                } else {
                    assert(self@ =~= old(self)@);
                    Err(TaskError::NonexistentKeyError)
                }
            },
            None => {
                assert(self@ =~= old(self)@);
                Err(TaskError::NonexistentError)
            },
        }
    }

    /// Finds the task that lists `id` among its children. Every task's
    /// children are examined once, so the search ends whatever shape the
    /// hierarchy has.
    pub fn task_get_parent(&self, id: TaskId) -> (r: Result<TaskId, TaskError>)
        ensures
            r == match parent_of(self@, id) {
                Some(p) => Ok(p),
                None => Err::<TaskId, TaskError>(TaskError::NonexistentError),
            },
    {
        let ghost ws = self@;
        let mut best: Option<TaskId> = None;
        for (k, task) in it: self.tasks.iter()
            invariant
                ws == self@,
                it.seq() == spec_hash_map_iter(&self.tasks).remaining(),
                match best {
                    Some(b) => is_parent(ws, b, id) && forall|j: int|
                        0 <= j < it.index() && #[trigger] is_parent(ws, *it.seq()[j].0, id) ==> b
                            <= *it.seq()[j].0,
                    None => forall|j: int|
                        0 <= j < it.index() ==> !#[trigger] is_parent(ws, *it.seq()[j].0, id),
                },
        {
            if holds_id(&task.children, id) {
                let better = match best {
                    Some(b) => *k < b,
                    None => true,
                };
                if better {
                    best = Some(*k);
                }
            }
        }
        let ghost s = spec_hash_map_iter(&self.tasks).remaining();
        match best {
            Some(b) => {
                assert(is_first_parent(ws, b, id)) by {
                    assert forall|q: TaskId| #[trigger] is_parent(ws, q, id) implies b <= q by {
                        assert(s.contains((&q, &self.tasks@[q])));
                        let j = choose|j: int| 0 <= j < s.len() && s[j] == (&q, &self.tasks@[q]);
                        assert(is_parent(ws, *s[j].0, id));
                    }
                }
                Ok(b)
            },
            None => {
                assert forall|p: TaskId| !#[trigger] is_first_parent(ws, p, id) by {
                    if is_parent(ws, p, id) {
                        assert(s.contains((&p, &self.tasks@[p])));
                        let j = choose|j: int| 0 <= j < s.len() && s[j] == (&p, &self.tasks@[p]);
                        assert(is_parent(ws, *s[j].0, id));
                    }
                }
                Err(TaskError::NonexistentError)
            },
        }
    }
}

} // verus!
