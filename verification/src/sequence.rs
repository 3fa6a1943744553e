//! Drawing as a sequence of steps, one at a time.

use vstd::prelude::*;

verus! {

/// What comes next in a drawing, after the steps done so far.
#[derive(Debug, PartialEq)]
pub enum Next<T, E> {
    /// This step is to be painted, and its outcome reported.
    Paint(T),
    /// Every step was painted; the drawing succeeded.
    Finished,
    /// The drawing failed, with this error; no step is painted any more.
    Failed(E),
}

} // verus!
