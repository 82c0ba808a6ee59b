//! What becomes of each path named on the command line.
use vstd::prelude::*;

verus! {

#[derive(Clone, Copy, Debug, PartialEq, Eq, Structural)]
pub enum PathAction {
    /// The file exists: overwrite its timestamps.
    Touch,
    /// The file is missing: create it empty, leaving its fresh timestamps.
    Create,
    /// The file is missing and creation is off: do nothing, and report nothing.
    Skip,
}

/// The action for a path, from whether it exists and whether `-c` was given.
pub fn plan_for_path(exists: bool, no_create: bool) -> (r: PathAction)
    ensures
        exists ==> r == PathAction::Touch,
        !exists && !no_create ==> r == PathAction::Create,
        !exists && no_create ==> r == PathAction::Skip,
{
    if exists {
        PathAction::Touch
    } else if no_create {
        PathAction::Skip
    } else {
        PathAction::Create
    }
}

} // verus!
