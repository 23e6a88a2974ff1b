use vstd::prelude::*;

use crate::space::{Point, Rectangle, SurfaceHandle, SurfaceId};

verus! {

/// Correlates a request with the input event that allows it.
pub type Serial = u32;

/// The edges of a window that a resize moves.
#[derive(Clone, Copy, Debug, PartialEq, Eq, Structural)]
pub struct ResizeEdges {
    pub top: bool,
    pub bottom: bool,
    pub left: bool,
    pub right: bool,
}

/// What was known when a pointer grab began: the surface under the pointer (if
/// any), the button pressed and where the pointer stood.
#[derive(Clone, Copy, Debug, PartialEq, Eq, Structural)]
pub struct GrabStartData {
    pub focus: Option<SurfaceHandle>,
    pub button: u32,
    pub location: Point,
}

/// What a pointer grab does with the pointer's motion.
#[derive(Clone, Copy, Debug, PartialEq, Eq, Structural)]
pub enum GrabKind {
    /// The implicit grab of a pressed button.
    Click,
    /// Moves a window from where it stood when the grab began.
    Move { window: SurfaceId, initial_location: Point },
    /// Resizes a window on the given edges, from the rectangle it had when the
    /// grab began.
    Resize { window: SurfaceId, edges: ResizeEdges, initial_rect: Rectangle },
}

/// A pointer grab and the serial of the event that began it.
#[derive(Clone, Copy, Debug, PartialEq, Eq, Structural)]
pub struct PointerGrab {
    pub serial: Serial,
    pub start_data: GrabStartData,
    pub kind: GrabKind,
}

/// A seat's pointer and its active grab, if any.
#[derive(Clone, Copy, Debug, PartialEq, Eq, Structural)]
pub struct Pointer {
    pub grab: Option<PointerGrab>,
}

/// A seat, as far as grabs go: it may lack a pointer.
#[derive(Clone, Copy, Debug, PartialEq, Eq, Structural)]
pub struct Seat {
    pub pointer: Option<Pointer>,
}

/// The start data of the grab that allows `surface` to begin an interactive
/// operation with `serial` on `seat`: the seat has a pointer, whose active grab
/// has that serial, began with a focused surface, and that surface belongs to the
/// same client as `surface`. Otherwise nothing.
pub open spec fn grab_authorization(seat: Seat, surface: SurfaceHandle, serial: Serial) -> Option<
    GrabStartData,
> {
    match seat.pointer {
        None => None,
        Some(pointer) => match pointer.grab {
            None => None,
            Some(grab) => if grab.serial != serial {
                None
            } else {
                match grab.start_data.focus {
                    None => None,
                    Some(focus) => if focus.client == surface.client {
                        Some(grab.start_data)
                    } else {
                        None
                    },
                }
            },
        },
    }
}

/// Whether `seat` has a pointer whose active grab has serial `serial`.
pub open spec fn has_grab(seat: Seat, serial: Serial) -> bool {
    &&& seat.pointer is Some
    &&& seat.pointer->Some_0.grab is Some
    &&& seat.pointer->Some_0.grab->Some_0.serial == serial
}

/// The start data of the active grab of `seat`'s pointer, if there is one.
pub open spec fn grab_start_data(seat: Seat) -> Option<GrabStartData> {
    match seat.pointer {
        Some(Pointer { grab: Some(g) }) => Some(g.start_data),
        _ => None,
    }
}

/// Checks that `surface` may begin a move or resize with `serial` on `seat`, and
/// returns the start data of the grab that allows it.
pub fn check_grab(seat: &Seat, surface: SurfaceHandle, serial: Serial) -> (r: Option<GrabStartData>)
    ensures
        r == grab_authorization(*seat, surface, serial),
{
    let pointer = match seat.pointer {
        Some(p) => p,
        None => return None,
    };
    let grab = match pointer.grab {
        Some(g) => g,
        None => return None,
    };
    if grab.serial != serial {
        return None;
    }
    let focus = match grab.start_data.focus {
        Some(f) => f,
        None => return None,
    };
    if focus.client != surface.client {
        return None;
    }
    Some(grab.start_data)
}

/// A grab is granted exactly when all of these hold: the seat has a pointer, its
/// active grab has the request's serial, that grab has start data, the start data
/// names a focused surface, and that surface's client is the requester's. What is
/// granted is then that start data.
pub proof fn authorization_needs_every_check(seat: Seat, surface: SurfaceHandle, serial: Serial)
    ensures
        grab_authorization(seat, surface, serial) is Some <==> {
            &&& seat.pointer is Some
            &&& has_grab(seat, serial)
            &&& grab_start_data(seat) is Some
            &&& grab_start_data(seat)->Some_0.focus is Some
            &&& grab_start_data(seat)->Some_0.focus->Some_0.client == surface.client
        },
        grab_authorization(seat, surface, serial) is Some ==> grab_authorization(seat, surface, serial)
            == grab_start_data(seat),
{
}

} // verus!
