use vstd::prelude::*;

use crate::grab::{
    check_grab, grab_authorization, GrabKind, Pointer, PointerGrab, ResizeEdges, Seat, Serial,
};
use crate::space::{
    has_surface, index_of, surfaces_unique, lemma_index_of_unique, window_of, with_window, without_surface,
    Configure, DecorationMode, Point, Rectangle, Size, Space, SurfaceHandle, SurfaceId,
    ToplevelState, Window,
};

verus! {

/// The pending state of a new toplevel: tiled on all four edges, so that it fills
/// the area it is given.
pub open spec fn initial_toplevel_state() -> ToplevelState {
    ToplevelState {
        tiled_left: true,
        tiled_right: true,
        tiled_top: true,
        tiled_bottom: true,
        resizing: false,
        decoration_mode: None,
    }
}

/// Where a new window is placed.
pub open spec fn default_location() -> Point {
    Point { x: 0, y: 0 }
}

/// The window made for a new toplevel, once its first configure has been sent.
pub open spec fn new_toplevel_window(surface: SurfaceHandle) -> Window {
    Window {
        surface,
        location: default_location(),
        pending: initial_toplevel_state(),
        initial_configure_sent: true,
    }
}

/// `w` after a configure with its pending state has been sent.
pub open spec fn configured(w: Window) -> Window {
    Window { initial_configure_sent: true, ..w }
}

/// The configure that sends `w`'s pending state.
pub open spec fn configure_of(w: Window) -> Configure {
    Configure { surface: w.surface.id, state: w.pending }
}

/// `w` with its pending state marked as resizing.
pub open spec fn marked_resizing(w: Window) -> Window {
    Window { pending: ToplevelState { resizing: true, ..w.pending }, ..w }
}

/// `w` with server-side decorations pending.
pub open spec fn decorated_by_server(w: Window) -> Window {
    Window {
        pending: ToplevelState { decoration_mode: Some(DecorationMode::ServerSide), ..w.pending },
        ..w
    }
}

/// A seat whose pointer has `grab` as its active grab.
pub open spec fn grabbed_by(grab: PointerGrab) -> Seat {
    Seat { pointer: Some(Pointer { grab: Some(grab) }) }
}

/// The compositor state that the shell handlers work on: the arrangement of
/// windows and the configure events waiting to be sent, oldest first.
pub struct Corrosion {
    pub space: Space,
    pub configures: Vec<Configure>,
}

impl Corrosion {
    pub open spec fn wf(&self) -> bool {
        self.space.wf()
    }

    /// A compositor with no window and nothing to send.
    pub fn new() -> (r: Corrosion)
        ensures
            r.wf(),
            r.space@ == Seq::<Window>::empty(),
            r.configures@ == Seq::<Configure>::empty(),
    {
        Corrosion { space: Space::new(), configures: Vec::new() }
    }

    /// Sends the pending state of the window at `i` and records that its first
    /// configure has gone out.
    fn send_configure(&mut self, i: usize)
        requires
            old(self).wf(),
            i < old(self).space@.len(),
        ensures
            final(self).wf(),
            final(self).space@ == old(self).space@.update(
                i as int,
                configured(old(self).space@[i as int]),
            ),
            final(self).configures@ == old(self).configures@.push(
                configure_of(old(self).space@[i as int]),
            ),
    {
        let w = self.space.elements()[i];
        self.configures.push(Configure { surface: w.surface.id, state: w.pending });
        self.space.set_element(i, Window { initial_configure_sent: true, ..w });
    }

    /// A client made a new toplevel: it gets a window tiled on all edges at the
    /// default location, on top of the others, and a configure with that state.
    pub fn new_toplevel(&mut self, surface: SurfaceHandle)
        requires
            old(self).wf(),
        ensures
            final(self).wf(),
            final(self).space@ == without_surface(old(self).space@, surface.id).push(
                new_toplevel_window(surface),
            ),
            final(self).configures@ == old(self).configures@.push(
                configure_of(new_toplevel_window(surface)),
            ),
    {
        let window = Window {
            surface,
            location: Point { x: 0, y: 0 },
            pending: ToplevelState {
                tiled_left: true,
                tiled_right: true,
                tiled_top: true,
                tiled_bottom: true,
                resizing: false,
                decoration_mode: None,
            },
            initial_configure_sent: false,
        };
        self.space.map_element(window, Point { x: 0, y: 0 });
        let last = self.space.elements().len() - 1;
        self.send_configure(last);
        assert(final(self).space@ =~= without_surface(old(self).space@, surface.id).push(
            new_toplevel_window(surface),
        ));
    }

    /// A popup was made. Popups are not handled yet: nothing changes.
    pub fn new_popup(&mut self, surface: SurfaceHandle)
        ensures
            *final(self) == *old(self),
    {
    }

    /// A client asks to move `surface` with the grab of `serial`. Where the grab
    /// allows it, a move grab of the window from where it stands now replaces the
    /// seat's pointer grab; otherwise nothing changes.
    pub fn move_request(&mut self, seat: &mut Seat, surface: SurfaceHandle, serial: Serial)
        requires
            old(self).wf(),
            grab_authorization(*old(seat), surface, serial) is Some ==> has_surface(
                old(self).space@,
                surface.id,
            ),
        ensures
            final(self).wf(),
            final(self).space@ == old(self).space@,
            final(self).configures@ == old(self).configures@,
            match grab_authorization(*old(seat), surface, serial) {
                None => *final(seat) == *old(seat),
                Some(start_data) => *final(seat) == grabbed_by(
                    PointerGrab {
                        serial,
                        start_data,
                        kind: GrabKind::Move {
                            window: surface.id,
                            initial_location: window_of(old(self).space@, surface.id).location,
                        },
                    },
                ),
            },
    {
        if let Some(start_data) = check_grab(seat, surface, serial) {
            let i = match self.space.find(surface.id) {
                Some(i) => i,
                None => return,
            };
            let initial_location = self.space.elements()[i].location;
            seat.pointer = Some(
                Pointer {
                    grab: Some(
                        PointerGrab {
                            serial,
                            start_data,
                            kind: GrabKind::Move { window: surface.id, initial_location },
                        },
                    ),
                },
            );
        }
    }

    /// A client asks to resize `surface` on `edges` with the grab of `serial`;
    /// `size` is the window's current size. Where the grab allows it, the window's
    /// pending state is marked as resizing, a configure with it is sent, and a
    /// resize grab from the window's current rectangle replaces the seat's pointer
    /// grab; otherwise nothing changes.
    pub fn resize_request(
        &mut self,
        seat: &mut Seat,
        surface: SurfaceHandle,
        serial: Serial,
        edges: ResizeEdges,
        size: Size,
    )
        requires
            old(self).wf(),
            grab_authorization(*old(seat), surface, serial) is Some ==> has_surface(
                old(self).space@,
                surface.id,
            ),
        ensures
            final(self).wf(),
            match grab_authorization(*old(seat), surface, serial) {
                None => {
                    &&& *final(seat) == *old(seat)
                    &&& final(self).space@ == old(self).space@
                    &&& final(self).configures@ == old(self).configures@
                },
                Some(start_data) => {
                    let w = window_of(old(self).space@, surface.id);
                    &&& final(self).space@ == with_window(
                        old(self).space@,
                        surface.id,
                        configured(marked_resizing(w)),
                    )
                    &&& final(self).configures@ == old(self).configures@.push(
                        configure_of(marked_resizing(w)),
                    )
                    &&& *final(seat) == grabbed_by(
                        PointerGrab {
                            serial,
                            start_data,
                            kind: GrabKind::Resize {
                                window: surface.id,
                                edges,
                                initial_rect: Rectangle { loc: w.location, size },
                            },
                        },
                    )
                },
            },
    {
        if let Some(start_data) = check_grab(seat, surface, serial) {
            let i = match self.space.find(surface.id) {
                Some(i) => i,
                None => return,
            };
            let w = self.space.elements()[i];
            let initial_rect = Rectangle { loc: w.location, size };
            self.space.set_element(
                i,
                Window { pending: ToplevelState { resizing: true, ..w.pending }, ..w },
            );
            self.send_configure(i);
            seat.pointer = Some(
                Pointer {
                    grab: Some(
                        PointerGrab {
                            serial,
                            start_data,
                            kind: GrabKind::Resize { window: surface.id, edges, initial_rect },
                        },
                    ),
                },
            );
        }
    }

    /// A popup asks for a grab. Popup grabs are not handled yet: nothing changes.
    pub fn grab(&mut self, seat: &mut Seat, surface: SurfaceHandle, serial: Serial)
        ensures
            *final(self) == *old(self),
            *final(seat) == *old(seat),
    {
    }

    /// A toplevel asks for decorations: they are always drawn by the server. The
    /// window's pending mode becomes server-side and a configure with it is sent.
    /// A surface without a window has no state here, and nothing changes.
    pub fn new_decoration(&mut self, surface: SurfaceHandle)
        requires
            old(self).wf(),
        ensures
            final(self).wf(),
            has_surface(old(self).space@, surface.id) ==> {
                let w = decorated_by_server(window_of(old(self).space@, surface.id));
                &&& final(self).space@ == with_window(old(self).space@, surface.id, configured(w))
                &&& final(self).configures@ == old(self).configures@.push(configure_of(w))
            },
            !has_surface(old(self).space@, surface.id) ==> final(self).space@ == old(self).space@
                && final(self).configures@ == old(self).configures@,
    {
        if let Some(i) = self.space.find(surface.id) {
            let w = self.space.elements()[i];
            self.space.set_element(
                i,
                Window {
                    pending: ToplevelState {
                        decoration_mode: Some(DecorationMode::ServerSide),
                        ..w.pending
                    },
                    ..w
                },
            );
            self.send_configure(i);
        }
    }

    /// A client asks for a decoration mode. Decorations stay server-side: nothing
    /// changes.
    pub fn request_mode(&mut self, surface: SurfaceHandle, mode: DecorationMode)
        ensures
            *final(self) == *old(self),
    {
    }

    /// A client withdraws its decoration mode. Decorations stay server-side:
    /// nothing changes.
    pub fn unset_mode(&mut self, surface: SurfaceHandle)
        ensures
            *final(self) == *old(self),
    {
    }
}

/// After a new toplevel, its surface has exactly one window: at the default
/// location, on top, with all four tiled edges pending.
pub proof fn new_toplevel_is_tiled_and_placed(
    before: Seq<Window>,
    after: Seq<Window>,
    surface: SurfaceHandle,
)
    requires
        surfaces_unique(before),
        after == without_surface(before, surface.id).push(new_toplevel_window(surface)),
    ensures
        surfaces_unique(after),
        has_surface(after, surface.id),
        index_of(after, surface.id) == after.len() - 1,
        window_of(after, surface.id).location == default_location(),
        window_of(after, surface.id).pending.tiled_left,
        window_of(after, surface.id).pending.tiled_right,
        window_of(after, surface.id).pending.tiled_top,
        window_of(after, surface.id).pending.tiled_bottom,
{
    let rest = without_surface(before, surface.id);
    assert forall|k: int| 0 <= k < rest.len() implies rest[k].surface.id != surface.id
        && exists|m: int| 0 <= m < before.len() && before[m] == rest[k] && (
        has_surface(before, surface.id) ==> m != index_of(before, surface.id)) by {
        if has_surface(before, surface.id) {
            let j = index_of(before, surface.id);
            if k < j {
                assert(before[k] == rest[k]);
            } else {
                assert(before[k + 1] == rest[k]);
            }
        } else {
            assert(before[k] == rest[k]);
        }
    }
    assert forall|a: int, b: int|
        0 <= a < rest.len() && 0 <= b < rest.len() && a != b implies rest[a].surface.id
        != rest[b].surface.id by {
        if has_surface(before, surface.id) {
            let j = index_of(before, surface.id);
            let ma = if a < j { a } else { a + 1 };
            let mb = if b < j { b } else { b + 1 };
            assert(before[ma] == rest[a]);
            assert(before[mb] == rest[b]);
        } else {
            assert(before[a] == rest[a]);
            assert(before[b] == rest[b]);
        }
    }
    assert(surfaces_unique(after));
    lemma_index_of_unique(after, surface.id, after.len() - 1);
}

/// What a surface commit led to.
#[derive(Clone, Copy, Debug, PartialEq, Eq, Structural)]
pub enum CommitOutcome {
    /// No window belongs to the surface: nothing to do.
    Untracked,
    /// The window's initial configure had already been sent.
    AlreadyConfigured,
    /// The window's initial configure is due now: this one is to be sent.
    SendInitialConfigure(Configure),
}

/// How a commit of surface `id` takes the windows `before` to `after`, with
/// outcome `r`.
pub open spec fn commit_step(
    before: Seq<Window>,
    id: SurfaceId,
    after: Seq<Window>,
    r: CommitOutcome,
) -> bool {
    if !has_surface(before, id) {
        r == CommitOutcome::Untracked && after == before
    } else if window_of(before, id).initial_configure_sent {
        r == CommitOutcome::AlreadyConfigured && after == before
    } else {
        &&& r == CommitOutcome::SendInitialConfigure(configure_of(window_of(before, id)))
        &&& after == with_window(before, id, configured(window_of(before, id)))
    }
}

/// Handles a commit of `surface`: a tracked window whose initial configure has not
/// gone out gets it now, and only then.
pub fn handle_commit(space: &mut Space, surface: SurfaceId) -> (r: CommitOutcome)
    requires
        old(space).wf(),
    ensures
        final(space).wf(),
        commit_step(old(space)@, surface, final(space)@, r),
{
    let i = match space.find(surface) {
        Some(i) => i,
        None => return CommitOutcome::Untracked,
    };
    let w = space.elements()[i];
    if w.initial_configure_sent {
        return CommitOutcome::AlreadyConfigured;
    }
    space.set_element(i, Window { initial_configure_sent: true, ..w });
    CommitOutcome::SendInitialConfigure(Configure { surface: w.surface.id, state: w.pending })
}

/// A second commit never sends an initial configure and changes nothing, whatever
/// the first did.
pub proof fn commit_twice_sends_at_most_once(
    s0: Seq<Window>,
    s1: Seq<Window>,
    s2: Seq<Window>,
    id: SurfaceId,
    r1: CommitOutcome,
    r2: CommitOutcome,
)
    requires
        surfaces_unique(s0),
        commit_step(s0, id, s1, r1),
        commit_step(s1, id, s2, r2),
    ensures
        !(r2 is SendInitialConfigure),
        s2 == s1,
{
    if has_surface(s0, id) && !window_of(s0, id).initial_configure_sent {
        let i = index_of(s0, id);
        lemma_index_of_unique(s1, id, i);
    }
}

} // verus!
