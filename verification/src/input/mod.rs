//! Seats and input: per-seat device registry and state, and the
//! dispatch of input events.

use vstd::prelude::*;

use crate::desktop::{SurfaceHit, SurfaceId};
use crate::shell::grab::{MoveSurfaceGrab, SeatMoveGrabState};
use crate::shell::layout::grab::ResizeSurfaceGrab;
use crate::state::output::ActiveOutput;
use crate::utils::Point;

pub mod devices;
pub mod event;
pub mod hit;

pub use devices::{DeviceCapability, Devices};
pub use event::{ButtonState, Delivery, DeviceInfo, InputEvent};
pub use hit::{focus_under, surface_under};

verus! {

/// Identity of a seat.
#[derive(Clone, Copy, Debug, PartialEq, Eq, Structural)]
pub struct SeatId(pub usize);

/// The keys of a seat whose release is not passed on.
pub struct SupressedKeys(pub Vec<u32>);

impl Default for SupressedKeys {
    fn default() -> (keys: SupressedKeys)
        ensures
            keys.0@ == Seq::<u32>::empty(),
    {
        SupressedKeys(Vec::new())
    }
}

/// What the cursor of a seat shows.
#[derive(Clone, Copy, Debug, PartialEq, Eq, Structural)]
pub enum CursorImageStatus {
    Hidden,
    Default,
    Surface(SurfaceId),
}

/// What a grab remembers of the moment it started.
#[derive(Clone, Copy, Debug, PartialEq, Eq, Structural)]
pub struct PointerGrabStartData {
    /// The surface that had pointer focus, with its origin.
    pub focus: Option<SurfaceHit>,
    /// The button that started the grab.
    pub button: u32,
    /// Where the pointer was.
    pub location: Point,
}

/// The grab that owns a pointer.
#[derive(Clone, Copy, Debug, PartialEq, Eq, Structural)]
pub enum PointerGrab {
    Move(MoveSurfaceGrab),
    Resize(ResizeSurfaceGrab),
}

/// The pointer of a seat.
pub struct PointerState {
    pub location: Point,
    /// The surface that receives the pointer's events, with its origin;
    /// none while a grab owns the pointer.
    pub focus: Option<SurfaceHit>,
    /// The buttons that are down, in the order they went down.
    pub pressed: Vec<u32>,
    pub grab: Option<PointerGrab>,
}

/// A named input focus group.
pub struct Seat {
    pub id: SeatId,
    pub name: String,
    pub devices: Devices,
    pub suppressed_keys: SupressedKeys,
    pub move_grab_state: SeatMoveGrabState,
    pub cursor_status: CursorImageStatus,
    pub dnd_icon: crate::state::data_device::DnDIcon,
    pub active_output: Option<ActiveOutput>,
    pub pointer: PointerState,
    pub keyboard_focus: Option<SurfaceId>,
    pub keyboard_grabbed: bool,
}

impl Seat {
    pub open spec fn wf(self) -> bool {
        self.devices.wf()
    }
}

/// Whether a seat is as it is made: no device, no grab, no cached output,
/// no focus, the pointer at the origin and the default cursor.
pub open spec fn fresh(seat: Seat) -> bool {
    &&& seat.wf()
    &&& seat.devices@ == Map::<Seq<char>, Seq<DeviceCapability>>::empty()
    &&& seat.suppressed_keys.0@ == Seq::<u32>::empty()
    &&& seat.move_grab_state is None
    &&& seat.cursor_status == CursorImageStatus::Default
    &&& seat.dnd_icon.surface is None
    &&& seat.active_output is None
    &&& seat.pointer.location == (Point { x: 0, y: 0 })
    &&& seat.pointer.focus is None
    &&& seat.pointer.pressed@ == Seq::<u32>::empty()
    &&& seat.pointer.grab is None
    &&& seat.keyboard_focus is None
    &&& !seat.keyboard_grabbed
}

/// Makes a seat with a pointer and nothing else.
pub fn add_seat(id: SeatId, name: String) -> (seat: Seat)
    ensures
        fresh(seat),
        seat.id == id,
        seat.name == name,
{
    Seat {
        id,
        name,
        devices: Devices::new(),
        suppressed_keys: SupressedKeys(Vec::new()),
        move_grab_state: None,
        cursor_status: CursorImageStatus::Default,
        dnd_icon: crate::state::data_device::DnDIcon { surface: None },
        active_output: None,
        pointer: PointerState {
            location: Point { x: 0, y: 0 },
            focus: None,
            pressed: Vec::new(),
            grab: None,
        },
        keyboard_focus: None,
        keyboard_grabbed: false,
    }
}

/// The index of the first seat at or after `from` with the identity `id`.
pub open spec fn seat_with_id_from(seats: Seq<Seat>, id: SeatId, from: int) -> Option<int>
    decreases seats.len() - from,
{
    if from < 0 || from >= seats.len() {
        None
    } else if seats[from].id == id {
        Some(from)
    } else {
        seat_with_id_from(seats, id, from + 1)
    }
}

/// The index of the first seat with the identity `id`.
pub open spec fn seat_with_id(seats: Seq<Seat>, id: SeatId) -> Option<int> {
    seat_with_id_from(seats, id, 0)
}

pub fn find_seat(seats: &Vec<Seat>, id: SeatId) -> (r: Option<usize>)
    ensures
        r is Some == seat_with_id(seats@, id) is Some,
        r matches Some(i) ==> i < seats.len() && seat_with_id(seats@, id) == Some(i as int),
{
    let mut i: usize = 0;
    while i < seats.len()
        invariant
            i <= seats.len(),
            seat_with_id_from(seats@, id, 0) == seat_with_id_from(seats@, id, i as int),
        decreases seats.len() - i,
    {
        if seats[i].id.0 == id.0 {
            return Some(i);
        }
        i += 1;
    }
    None
}

} // verus!
