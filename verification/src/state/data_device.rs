//! The icon of a drag-and-drop.

use vstd::prelude::*;

use crate::desktop::SurfaceId;
use crate::input::Seat;

verus! {

/// The surface that is drawn at the pointer while a seat drags something.
#[derive(Clone, Copy, Debug, PartialEq, Eq, Structural)]
pub struct DnDIcon {
    pub surface: Option<SurfaceId>,
}

/// A drag started on the seat, with the icon given, or with none.
pub fn started(icon: Option<SurfaceId>, seat: &mut Seat)
    ensures
        *final(seat) == (Seat { dnd_icon: DnDIcon { surface: icon }, ..*old(seat) }),
{
    seat.dnd_icon = DnDIcon { surface: icon };
}

/// The drag of the seat ended: its icon is gone.
pub fn dropped(seat: &mut Seat)
    ensures
        *final(seat) == (Seat { dnd_icon: DnDIcon { surface: None }, ..*old(seat) }),
{
    seat.dnd_icon = DnDIcon { surface: None };
}

} // verus!
