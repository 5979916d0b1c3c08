//! A cursor over the records of a range.
//!
//! The records that a range matches stand in ascending order of their keys,
//! and a record is known by its place in that order. A cursor walks them in
//! one direction, from the first in that direction to the last, and is
//! exhausted after the last.

use vstd::prelude::*;

verus! {

/// The direction in which a cursor walks.
#[derive(Clone, Copy, Debug, PartialEq, Eq, Structural)]
pub enum Direction {
    /// Ascending.
    Next,
    /// Ascending, one record for each key.
    NextUnique,
    /// Descending.
    Prev,
    /// Descending, one record for each key.
    PrevUnique,
}

impl Direction {
    /// The direction is a descending one.
    pub open spec fn spec_is_backward(self) -> bool {
        self == Direction::Prev || self == Direction::PrevUnique
    }

    /// Whether the direction is a descending one.
    pub fn is_backward(self) -> (out: bool)
        ensures
            out == self.spec_is_backward(),
    {
        match self {
            Direction::Prev | Direction::PrevUnique => true,
            _ => false,
        }
    }
}

/// The direction of a walk for which none is given: ascending.
pub open spec fn direction_or_default(direction: Option<Direction>) -> Direction {
    match direction {
        Some(direction) => direction,
        None => Direction::Next,
    }
}

/// The place, in ascending order, of the record that a walk over `len`
/// records reaches after `steps` steps.
pub open spec fn place_after(len: int, direction: Direction, steps: int) -> int {
    if direction.spec_is_backward() {
        len - 1 - steps
    } else {
        steps
    }
}

/// A cursor over the records of a range.
#[derive(Debug, PartialEq, Eq)]
pub struct Cursor {
    len: usize,
    direction: Direction,
    steps: usize,
}

impl Cursor {
    #[verifier::type_invariant]
    spec fn within(self) -> bool {
        self.steps <= self.len
    }

    /// The number of records that the range matches.
    pub closed spec fn len(self) -> nat {
        self.len as nat
    }

    /// The direction of the walk.
    pub closed spec fn spec_direction(self) -> Direction {
        self.direction
    }

    /// The number of records that the cursor has left behind.
    pub closed spec fn steps(self) -> nat {
        self.steps as nat
    }

    /// The cursor has left every record behind.
    pub open spec fn spec_exhausted(self) -> bool {
        self.steps() >= self.len()
    }

    /// The place of the record at the cursor, in ascending order.
    pub open spec fn spec_key(self) -> Option<int> {
        if self.spec_exhausted() {
            None
        } else {
            Some(place_after(self.len() as int, self.spec_direction(), self.steps() as int))
        }
    }

    /// Opens a cursor over `len` records: it stands at the first record in
    /// the direction of the walk. There is no cursor over no records.
    pub fn open(len: usize, direction: Option<Direction>) -> (out: Option<Cursor>)
        ensures
            out is Some <==> len > 0,
            out is Some ==> out->Some_0.len() == len && out->Some_0.steps() == 0
                && out->Some_0.spec_direction() == direction_or_default(direction),
    {
        if len == 0 {
            None
        } else {
            let direction = match direction {
                Some(direction) => direction,
                None => Direction::Next,
            };
            Some(Cursor { len, direction, steps: 0 })
        }
    }

    /// The direction of the walk.
    pub fn direction(&self) -> (out: Direction)
        ensures
            out == self.spec_direction(),
    {
        self.direction
    }

    /// Whether the cursor has left every record behind.
    pub fn is_exhausted(&self) -> (out: bool)
        ensures
            out == self.spec_exhausted(),
    {
        self.steps >= self.len
    }

    /// The place of the record at the cursor, in ascending order; none once
    /// the cursor is exhausted.
    pub fn key(&self) -> (out: Option<usize>)
        ensures
            out is Some <==> !self.spec_exhausted(),
            out is Some ==> self.spec_key() == Some(out->Some_0 as int),
            out is Some ==> out->Some_0 < self.len(),
    {
        proof {
            use_type_invariant(self);
        }
        if self.steps >= self.len {
            None
        } else if self.direction.is_backward() {
            Some(self.len - 1 - self.steps)
        } else {
            Some(self.steps)
        }
    }

    /// Moves the cursor on by `count` records in its direction. It is
    /// exhausted afterwards where fewer than `count` records were ahead of
    /// the one it stood at.
    pub fn advance(&mut self, count: u32)
        requires
            !old(self).spec_exhausted(),
            count > 0,
        ensures
            final(self).len() == old(self).len(),
            final(self).spec_direction() == old(self).spec_direction(),
            final(self).steps() == if old(self).steps() + count <= old(self).len() {
                old(self).steps() + count
            } else {
                old(self).len() as int
            },
    {
        proof {
            use_type_invariant(&*self);
        }
        let ahead: usize = self.len - self.steps;
        if (count as usize) <= ahead {
            self.steps = self.steps + count as usize;
        } else {
            self.steps = self.len;
        }
    }

    /// Moves the cursor on to the record at the place `key`, which lies
    /// ahead of it, or by one record where no place is given.
    pub fn next(&mut self, key: Option<usize>)
        requires
            !old(self).spec_exhausted(),
            key is Some ==> key->Some_0 < old(self).len() && (if old(
                self,
            ).spec_direction().spec_is_backward() {
                key->Some_0 < old(self).spec_key()->Some_0
            } else {
                key->Some_0 > old(self).spec_key()->Some_0
            }),
        ensures
            final(self).len() == old(self).len(),
            final(self).spec_direction() == old(self).spec_direction(),
            key is Some ==> final(self).spec_key() == Some(key->Some_0 as int),
            key is None ==> final(self).steps() == old(self).steps() + 1,
    {
        proof {
            use_type_invariant(&*self);
        }
        match key {
            None => {
                self.steps = self.steps + 1;
            },
            Some(place) => {
                if self.direction.is_backward() {
                    self.steps = self.len - 1 - place;
                } else {
                    self.steps = place;
                }
            },
        }
    }
}

} // verus!
