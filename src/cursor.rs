use vstd::prelude::*;

verus! {

/// One step of a selection cursor: towards the end of the list (`Next`,
/// the "down" key) or towards its start (`Prev`, the "up" key).
#[derive(Clone, Copy, Debug, PartialEq, Eq, Structural)]
pub enum Step {
    Next,
    Prev,
}

/// The index a stale cursor is read as: an index past the end of the list
/// falls back to the first element.
pub open spec fn clamped(index: int, length: int) -> int {
    if index >= length {
        0
    } else {
        index
    }
}

/// The index after one step on a list of `length` elements, wrapping at
/// both ends; on an empty list the index is left as it is.
pub open spec fn advanced(index: int, step: Step, length: int) -> int {
    if length <= 0 {
        index
    } else {
        let i = clamped(index, length);
        match step {
            Step::Next => if i + 1 == length { 0 } else { i + 1 },
            Step::Prev => if i == 0 { length - 1 } else { i - 1 },
        }
    }
}

/// Moves `index` one step over a list of `length` elements: a stale index
/// (at or past `length`) is first read as 0, then the step wraps past
/// either end. On an empty list nothing moves.
pub fn advance(index: usize, step: Step, length: usize) -> (r: usize)
    ensures
        r == advanced(index as int, step, length as int),
        length > 0 ==> r < length,
        length == 0 ==> r == index,
{
    if length == 0 {
        return index;
    }
    let i: usize = if index >= length { 0 } else { index };
    match step {
        Step::Next => if i + 1 == length { 0 } else { i + 1 },
        Step::Prev => if i == 0 { length - 1 } else { i - 1 },
    }
}

/// A selection cursor: an index paired with the length of the list it was
/// last checked against. The index only means something while that length
/// is positive; a cursor over an empty list is inactive.
#[derive(Clone, Copy, Debug, PartialEq, Eq, Structural)]
pub struct Cursor {
    pub index: usize,
    pub length: usize,
}

impl Cursor {
    /// The index lies inside the last-known list whenever that list is
    /// not empty.
    pub open spec fn wf(&self) -> bool {
        self.length > 0 ==> self.index < self.length
    }

    /// The cursor after one step over a list of `length` elements.
    pub open spec fn spec_stepped(self, step: Step, length: int) -> Cursor {
        Cursor { index: advanced(self.index as int, step, length) as usize, length: length as usize }
    }

    /// The cursor checked against a list of `length` elements.
    pub open spec fn spec_revalidated(self, length: int) -> Cursor {
        Cursor { index: clamped(self.index as int, length) as usize, length: length as usize }
    }

    /// A fresh cursor: on the first element, with no list seen yet.
    pub fn new() -> (r: Cursor)
        ensures
            r.index == 0,
            r.length == 0,
            r.wf(),
    {
        Cursor { index: 0, length: 0 }
    }

    /// The cursor after one step over a list that now has `length`
    /// elements. On an empty list the index stays where it was and the
    /// cursor becomes inactive.
    pub fn stepped(self, step: Step, length: usize) -> (r: Cursor)
        ensures
            r == self.spec_stepped(step, length as int),
            r.index == advanced(self.index as int, step, length as int),
            r.length == length,
            r.wf(),
    {
        Cursor { index: advance(self.index, step, length), length }
    }

    /// The cursor checked against a list that now has `length` elements:
    /// an index that no longer fits goes back to the first element.
    pub fn revalidated(self, length: usize) -> (r: Cursor)
        ensures
            r == self.spec_revalidated(length as int),
            r.index == clamped(self.index as int, length as int),
            r.length == length,
            r.wf(),
    {
        let index: usize = if self.index >= length { 0 } else { self.index };
        Cursor { index, length }
    }

    /// The selected position, if the cursor is active.
    pub fn selected(&self) -> (r: Option<usize>)
        ensures
            r == (if self.length > 0 { Some(self.index) } else { None::<usize> }),
    {
        if self.length > 0 {
            Some(self.index)
        } else {
            None
        }
    }
}

/// On any non-empty list, a step from any starting index, stale ones
/// included, lands inside the list.
pub proof fn lemma_advance_in_bounds(index: usize, step: Step, length: usize)
    requires
        length > 0,
    ensures
        0 <= advanced(index as int, step, length as int) < length,
{
}

/// A step forward from the last element wraps to the first, and a step
/// back from the first wraps to the last.
pub proof fn lemma_advance_wraps(length: usize)
    requires
        length > 0,
    ensures
        advanced(length - 1, Step::Next, length as int) == 0,
        advanced(0, Step::Prev, length as int) == length - 1,
{
}

/// On a one-element list every step, from any index, lands on that
/// element.
pub proof fn lemma_advance_single(index: usize, step: Step)
    ensures
        advanced(index as int, step, 1) == 0,
{
}

} // verus!
