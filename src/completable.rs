//! Things that can be completed.
use vstd::prelude::*;

use crate::error::TaskError;

verus! {

/// Represents any completable object, so that projects, tasks and the like
/// can share the same features.
pub trait Completable: Sized {
    /// Completes `item`, saying whether it was completed.
    fn complete(item: Self) -> bool;

    /// Renames the object.
    fn rename(&self) -> Result<(), TaskError>;
}

} // verus!
