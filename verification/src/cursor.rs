//! The highlighted position within a displayed list.

use vstd::prelude::*;

verus! {

/// Mathematical model of a [`Cursor`]: a position within a list of `bound` entries.
pub struct CursorView {
    pub index: nat,
    pub bound: nat,
}

impl CursorView {
    /// The position lies within the list; in particular the list is not empty.
    pub open spec fn wf(self) -> bool {
        self.index < self.bound
    }

    /// One entry towards the start, staying on the first entry.
    pub open spec fn up(self) -> CursorView {
        CursorView { index: if self.index == 0 { 0 } else { (self.index - 1) as nat }, bound: self.bound }
    }

    /// One entry towards the end, staying on the last entry.
    pub open spec fn down(self) -> CursorView {
        CursorView {
            index: if self.index + 1 >= self.bound { (self.bound - 1) as nat } else { self.index + 1 },
            bound: self.bound,
        }
    }
}

/// A selection cursor. Its index is always a valid position: `index < bound`.
#[derive(Clone, Copy, Debug, PartialEq, Eq, Structural)]
pub struct Cursor {
    index: usize,
    bound: usize,
}

impl View for Cursor {
    type V = CursorView;

    closed spec fn view(&self) -> CursorView {
        CursorView { index: self.index as nat, bound: self.bound as nat }
    }
}

impl Cursor {
    #[verifier::type_invariant]
    spec fn inv(self) -> bool {
        self.index < self.bound
    }

    /// A cursor on the first of `bound` entries, or `None` for an empty list.
    pub fn new(bound: usize) -> (res: Option<Cursor>)
        ensures
            bound == 0 <==> res is None,
            res matches Some(c) ==> c@ == (CursorView { index: 0, bound: bound as nat }) && c@.wf(),
    {
        if bound == 0 {
            None
        } else {
            Some(Cursor { index: 0, bound })
        }
    }

    /// A cursor on the first entry of a list that is known to have entries.
    pub(crate) fn first(bound: usize) -> (res: Cursor)
        requires
            bound > 0,
        ensures
            res@ == (CursorView { index: 0, bound: bound as nat }),
    {
        Cursor { index: 0, bound }
    }

    /// A cursor on entry `index` of `bound`, or `None` when `index` is no position of the list.
    pub fn at(index: usize, bound: usize) -> (res: Option<Cursor>)
        ensures
            index < bound <==> res is Some,
            res matches Some(c) ==> c@ == (CursorView { index: index as nat, bound: bound as nat }) && c@.wf(),
    {
        if index < bound {
            Some(Cursor { index, bound })
        } else {
            None
        }
    }

    /// The highlighted position.
    pub fn index(&self) -> (res: usize)
        ensures
            res == self@.index,
            self@.wf(),
    {
        proof {
            use_type_invariant(self);
        }
        self.index
    }

    /// The length of the list the cursor moves in.
    pub fn bound(&self) -> (res: usize)
        ensures
            res == self@.bound,
            self@.wf(),
    {
        proof {
            use_type_invariant(self);
        }
        self.bound
    }

    /// Moves one entry up; on the first entry the cursor stays.
    pub fn up(self) -> (res: Cursor)
        ensures
            res@ == self@.up(),
            self@.wf(),
            res@.wf(),
    {
        proof {
            use_type_invariant(self);
        }
        if self.index < 1 {
            Cursor { index: 0, bound: self.bound }
        } else {
            Cursor { index: self.index - 1, bound: self.bound }
        }
    }

    /// Moves one entry down; on the last entry the cursor stays.
    pub fn down(self) -> (res: Cursor)
        ensures
            res@ == self@.down(),
            self@.wf(),
            res@.wf(),
    {
        proof {
            use_type_invariant(self);
        }
        if self.index + 1 >= self.bound {
            Cursor { index: self.bound - 1, bound: self.bound }
        } else {
            Cursor { index: self.index + 1, bound: self.bound }
        }
    }
}

/// Moving up on the first entry and moving down on the last entry both
/// leave the cursor where it is.
pub proof fn lemma_cursor_stays_at_ends(cursor: CursorView)
    requires
        cursor.wf(),
    ensures
        cursor.index == 0 ==> cursor.up() == cursor,
        cursor.index + 1 == cursor.bound ==> cursor.down() == cursor,
{
}

/// A move never leaves the list: a valid cursor stays valid, over the same list.
pub proof fn lemma_moves_stay_in_list(cursor: CursorView)
    requires
        cursor.wf(),
    ensures
        cursor.up().wf(),
        cursor.down().wf(),
        cursor.up().bound == cursor.bound,
        cursor.down().bound == cursor.bound,
{
}

} // verus!
