use vstd::prelude::*;

verus! {

/// A one-shot slot for a value (in practice, a mutable borrow handed to the
/// left-most consumer of a split).
///
/// The slot starts out full or empty; `take` empties it and hands out what it
/// held, so the value is handed out at most once.
pub struct CellOptRefMut<T> {
    slot: Option<T>,
}

impl<T> CellOptRefMut<T> {
    /// What the cell currently holds.
    pub closed spec fn view_opt(&self) -> Option<T> {
        self.slot
    }

    /// Creates a cell holding `reference`.
    pub fn from(reference: Option<T>) -> (cell: Self)
        ensures
            cell.view_opt() == reference,
    {
        CellOptRefMut { slot: reference }
    }

    /// Creates an empty cell.
    pub fn default() -> (cell: Self)
        ensures
            cell.view_opt() is None,
    {
        Self::from(None)
    }

    /// Takes the value out of this cell if it is still there,
    /// leaving the cell empty.
    pub fn take(&mut self) -> (taken: Option<T>)
        ensures
            taken == old(self).view_opt(),
            final(self).view_opt() is None,
    {
        let mut slot = None;
        std::mem::swap(&mut slot, &mut self.slot);
        slot
    }

    /// Destroys this cell and returns the value if it is still there.
    pub fn into_inner(self) -> (inner: Option<T>)
        ensures
            inner == self.view_opt(),
    {
        self.slot
    }
}

} // verus!
