//! Recurrence rules: when a task is due, and whether it will come due again.
use vstd::prelude::*;

use crate::time::{add_span, is_past, later_by, Instant};

verus! {

/// The state a recurrence rule is in.
#[derive(Debug, Clone, Copy, PartialEq, Eq, Structural)]
pub enum RecurState {
    /// Finished for good: no operation makes the rule active again.
    Dead,
    /// Waiting until the given instant before it opens.
    Pending(Instant),
    /// Held back for now.
    Held,
    /// Open, and can be completed.
    Active,
}

/// The capabilities every recurrence rule offers.
pub trait Recur: Sized {
    /// The due instant the rule reports, if any.
    spec fn due_at(&self) -> Option<Instant>;

    /// The state the rule is in.
    spec fn status(&self) -> RecurState;

    /// The rule after its current occurrence is completed.
    spec fn advanced(&self) -> Self;

    /// Returns the due instant of the current occurrence, if there is one.
    fn current(&self) -> (r: Option<Instant>)
        ensures
            r == self.due_at(),
    ;

    /// Completes the current occurrence. On a dead rule this changes nothing.
    fn next(&mut self)
        ensures
            *final(self) == old(self).advanced(),
            old(self).status() == RecurState::Dead ==> *final(self) == *old(self),
    ;

    /// Returns the state the rule is in.
    fn active(&self) -> (r: RecurState)
        ensures
            r == self.status(),
    ;
}

/// A rule with no due date: active until completed once, then dead.
#[derive(Debug, Clone, Copy, PartialEq, Eq, Structural)]
pub struct Blank {
    /// Whether the task has been completed.
    pub done: bool,
}

impl Blank {
    /// A fresh, not yet completed rule.
    pub fn new() -> (r: Recurrence)
        ensures
            r == Recurrence::Blank(Blank { done: false }),
    {
        Recurrence::Blank(Blank { done: false })
    }
}

impl Recur for Blank {
    open spec fn due_at(&self) -> Option<Instant> {
        None
    }

    open spec fn status(&self) -> RecurState {
        if self.done {
            RecurState::Dead
        } else {
            RecurState::Active
        }
    }

    open spec fn advanced(&self) -> Blank {
        Blank { done: true }
    }

    fn current(&self) -> (r: Option<Instant>) {
        None
    }

    fn next(&mut self) {
        self.done = true;
    }

    fn active(&self) -> (r: RecurState) {
        if self.done {
            RecurState::Dead
        } else {
            RecurState::Active
        }
    }
}

/// A single due date: active until completed, then dead.
#[derive(Debug, Clone, Copy, PartialEq, Eq, Structural)]
pub struct Deadline {
    /// The due date.
    pub due: Instant,
    /// Whether the task has been completed.
    pub done: bool,
}

impl Deadline {
    /// A rule due at `due`, not yet completed.
    pub fn new(due: Instant) -> (r: Recurrence)
        ensures
            r == Recurrence::Deadline(Deadline { due, done: false }),
    {
        Recurrence::Deadline(Deadline { due, done: false })
    }
}

impl Recur for Deadline {
    open spec fn due_at(&self) -> Option<Instant> {
        if self.done {
            None
        } else {
            Some(self.due)
        }
    }

    open spec fn status(&self) -> RecurState {
        if self.done {
            RecurState::Dead
        } else {
            RecurState::Active
        }
    }

    open spec fn advanced(&self) -> Deadline {
        Deadline { done: true, ..*self }
    }

    fn current(&self) -> (r: Option<Instant>) {
        if !self.done {
            Some(self.due)
        } else {
            None
        }
    }

    fn next(&mut self) {
        self.done = true;
    }

    fn active(&self) -> (r: RecurState) {
        if self.done {
            RecurState::Dead
        } else {
            RecurState::Active
        }
    }
}

/// A due date that moves on by a fixed interval at each completion, until it
/// passes an optional end date.
#[derive(Debug, Clone, Copy, PartialEq, Eq, Structural)]
pub struct Constant {
    /// The due date of the current occurrence.
    pub due: Instant,
    /// The repeat interval, in milliseconds.
    pub repeat: u64,
    /// The rule is dead once the due date lies after this one.
    pub end_date: Option<Instant>,
}

impl Constant {
    /// A rule first due at `due`, repeating every `repeat` milliseconds, and
    /// ending once it passes `end_date`, if given.
    pub fn new(due: Instant, end_date: Option<Instant>, repeat: u64) -> (r: Recurrence)
        ensures
            r == Recurrence::Constant(Constant { due, repeat, end_date }),
    {
        Recurrence::Constant(Constant { due, repeat, end_date })
    }

    /// Whether the due date has passed the end date.
    pub open spec fn ended(&self) -> bool {
        match self.end_date {
            Some(end) => self.due > end,
            None => false,
        }
    }

    fn is_ended(&self) -> (r: bool)
        ensures
            r == self.ended(),
    {
        match self.end_date {
            Some(end) => is_past(self.due, end),
            None => false,
        }
    }
}

impl Recur for Constant {
    open spec fn due_at(&self) -> Option<Instant> {
        if self.ended() {
            None
        } else {
            Some(self.due)
        }
    }

    open spec fn status(&self) -> RecurState {
        if self.ended() {
            RecurState::Dead
        } else {
            RecurState::Active
        }
    }

    open spec fn advanced(&self) -> Constant {
        if self.ended() {
            *self
        } else {
            Constant { due: later_by(self.due, self.repeat), ..*self }
        }
    }

    fn current(&self) -> (r: Option<Instant>) {
        if self.is_ended() {
            None
        } else {
            Some(self.due)
        }
    }

    fn next(&mut self) {
        if !self.is_ended() {
            self.due = add_span(self.due, self.repeat);
        }
    }

    fn active(&self) -> (r: RecurState) {
        if self.is_ended() {
            RecurState::Dead
        } else {
            RecurState::Active
        }
    }
}

/// The recurrence rule of a task: one of the rules above.
#[derive(Debug, Clone, Copy, PartialEq, Eq, Structural)]
pub enum Recurrence {
    Blank(Blank),
    Deadline(Deadline),
    Constant(Constant),
}

impl Recur for Recurrence {
    open spec fn due_at(&self) -> Option<Instant> {
        match self {
            Recurrence::Blank(b) => b.due_at(),
            Recurrence::Deadline(d) => d.due_at(),
            Recurrence::Constant(c) => c.due_at(),
        }
    }

    open spec fn status(&self) -> RecurState {
        match self {
            Recurrence::Blank(b) => b.status(),
            Recurrence::Deadline(d) => d.status(),
            Recurrence::Constant(c) => c.status(),
        }
    }

    open spec fn advanced(&self) -> Recurrence {
        match self {
            Recurrence::Blank(b) => Recurrence::Blank(b.advanced()),
            Recurrence::Deadline(d) => Recurrence::Deadline(d.advanced()),
            Recurrence::Constant(c) => Recurrence::Constant(c.advanced()),
        }
    }

    fn current(&self) -> (r: Option<Instant>) {
        match self {
            Recurrence::Blank(b) => b.current(),
            Recurrence::Deadline(d) => d.current(),
            Recurrence::Constant(c) => c.current(),
        }
    }

    fn next(&mut self) {
        match self {
            Recurrence::Blank(b) => b.next(),
            Recurrence::Deadline(d) => d.next(),
            Recurrence::Constant(c) => c.next(),
        }
    }

    fn active(&self) -> (r: RecurState) {
        match self {
            Recurrence::Blank(b) => b.active(),
            Recurrence::Deadline(d) => d.active(),
            Recurrence::Constant(c) => c.active(),
        }
    }
}

} // verus!
