//! A window of two consecutive rows of a trace segment.

use vstd::prelude::*;

verus! {

/// The current and the next row of a trace segment, as consumed by one step of
/// constraint evaluation.
pub struct EvaluationFrame<T> {
    current: Vec<T>,
    next: Vec<T>,
}

impl<T> EvaluationFrame<T> {
    /// The row at the evaluated step.
    pub closed spec fn current_row(&self) -> Seq<T> {
        self.current@
    }

    /// The row one trace step after the evaluated step.
    pub closed spec fn next_row(&self) -> Seq<T> {
        self.next@
    }

    /// Builds a frame from its two rows.
    pub fn from_rows(current: Vec<T>, next: Vec<T>) -> (r: Self)
        ensures
            r.current_row() == current@,
            r.next_row() == next@,
    {
        EvaluationFrame { current, next }
    }

    /// Returns the row at the evaluated step.
    pub fn current(&self) -> (r: &[T])
        ensures
            r@ == self.current_row(),
    {
        self.current.as_slice()
    }

    /// Returns the row one trace step after the evaluated step.
    pub fn next(&self) -> (r: &[T])
        ensures
            r@ == self.next_row(),
    {
        self.next.as_slice()
    }

    /// Replaces both rows of the frame.
    pub fn set_data(&mut self, current: Vec<T>, next: Vec<T>)
        ensures
            final(self).current_row() == current@,
            final(self).next_row() == next@,
    {
        self.current = current;
        self.next = next;
    }
}

} // verus!
