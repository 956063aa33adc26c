//! A task store in which each task carries a recurrence rule, a list of
//! dependency conditions, child links and free-form metadata.
pub mod completable;
pub mod error;
pub mod laws;
pub mod metadata;
pub mod model;
pub mod recur;
pub mod rules;
pub mod time;

pub use completable::Completable;
pub use error::TaskError;
pub use metadata::Metadata;
pub use model::{Task, TaskId, Workspace};
pub use recur::{Blank, Constant, Deadline, Recur, RecurState, Recurrence};
pub use rules::{Children, Condition, Date, Dependency, Direct, Parent, RelativeDate};
pub use time::Instant;
