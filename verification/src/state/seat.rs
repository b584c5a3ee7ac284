//! What the window manager asks of a seat beyond its own fields.

use vstd::prelude::*;

use crate::input::Seat;

verus! {

pub trait SeatExt {
    spec fn id_spec(&self) -> usize;

    /// The number the seat is known by.
    fn id(&self) -> (r: usize)
        ensures
            r == self.id_spec(),
    ;
}

impl SeatExt for Seat {
    open spec fn id_spec(&self) -> usize {
        self.id.0
    }

    fn id(&self) -> (r: usize) {
        self.id.0
    }
}

} // verus!
