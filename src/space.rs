use vstd::prelude::*;

verus! {

/// Identity of a surface, unique among all live surfaces.
pub type SurfaceId = u64;

/// Identity of a client connection.
pub type ClientId = u64;

/// A point in logical coordinates.
#[derive(Clone, Copy, Debug, PartialEq, Eq, Structural)]
pub struct Point {
    pub x: i32,
    pub y: i32,
}

/// A size in logical coordinates.
#[derive(Clone, Copy, Debug, PartialEq, Eq, Structural)]
pub struct Size {
    pub w: i32,
    pub h: i32,
}

/// A rectangle given by its top-left corner and its size.
#[derive(Clone, Copy, Debug, PartialEq, Eq, Structural)]
pub struct Rectangle {
    pub loc: Point,
    pub size: Size,
}

/// A handle on a client's surface: its identity and the client that owns it.
#[derive(Clone, Copy, Debug, PartialEq, Eq, Structural)]
pub struct SurfaceHandle {
    pub id: SurfaceId,
    pub client: ClientId,
}

/// Who draws a window's borders and title bar.
#[derive(Clone, Copy, Debug, PartialEq, Eq, Structural)]
pub enum DecorationMode {
    ClientSide,
    ServerSide,
}

/// The state the compositor proposes to a toplevel surface.
#[derive(Clone, Copy, Debug, PartialEq, Eq, Structural)]
pub struct ToplevelState {
    pub tiled_left: bool,
    pub tiled_right: bool,
    pub tiled_top: bool,
    pub tiled_bottom: bool,
    pub resizing: bool,
    pub decoration_mode: Option<DecorationMode>,
}

/// A configure event: the state sent to a surface for it to acknowledge.
#[derive(Clone, Copy, Debug, PartialEq, Eq, Structural)]
pub struct Configure {
    pub surface: SurfaceId,
    pub state: ToplevelState,
}

/// A mapped window: one toplevel surface, where it stands, its pending state and
/// whether its initial configure has gone out.
#[derive(Clone, Copy, Debug, PartialEq, Eq, Structural)]
pub struct Window {
    pub surface: SurfaceHandle,
    pub location: Point,
    pub pending: ToplevelState,
    pub initial_configure_sent: bool,
}

/// No two windows of `s` belong to the same surface.
pub open spec fn surfaces_unique(s: Seq<Window>) -> bool {
    forall|i: int, j: int|
        0 <= i < s.len() && 0 <= j < s.len() && i != j ==> s[i].surface.id != s[j].surface.id
}

/// Some window of `s` belongs to surface `id`.
pub open spec fn has_surface(s: Seq<Window>, id: SurfaceId) -> bool {
    exists|i: int| 0 <= i < s.len() && s[i].surface.id == id
}

/// The position of the window of surface `id` in `s`, where there is one.
pub open spec fn index_of(s: Seq<Window>, id: SurfaceId) -> int {
    choose|i: int| 0 <= i < s.len() && s[i].surface.id == id
}

/// The window of surface `id` in `s`, where there is one.
pub open spec fn window_of(s: Seq<Window>, id: SurfaceId) -> Window {
    s[index_of(s, id)]
}

/// `s` without the window of surface `id`, the others kept in order.
pub open spec fn without_surface(s: Seq<Window>, id: SurfaceId) -> Seq<Window> {
    if has_surface(s, id) {
        s.remove(index_of(s, id))
    } else {
        s
    }
}

/// `s` with the window of surface `id` replaced by `w`.
pub open spec fn with_window(s: Seq<Window>, id: SurfaceId, w: Window) -> Seq<Window> {
    s.update(index_of(s, id), w)
}

/// In a sequence without repeated surfaces, the window found at `i` is the one
/// that `index_of` names.
pub proof fn lemma_index_of_unique(s: Seq<Window>, id: SurfaceId, i: int)
    requires
        surfaces_unique(s),
        0 <= i < s.len(),
        s[i].surface.id == id,
    ensures
        has_surface(s, id),
        index_of(s, id) == i,
{
    assert(has_surface(s, id));
    let k = index_of(s, id);
    assert(0 <= k < s.len() && s[k].surface.id == id);
}

/// The arrangement of windows. Their order is the stacking order, the last on
/// top; no surface has two windows.
pub struct Space {
    windows: Vec<Window>,
}

impl View for Space {
    type V = Seq<Window>;

    closed spec fn view(&self) -> Seq<Window> {
        self.windows@
    }
}

impl Space {
    pub open spec fn wf(&self) -> bool {
        surfaces_unique(self@)
    }

    /// An arrangement with no window.
    pub fn new() -> (r: Space)
        ensures
            r.wf(),
            r@ == Seq::<Window>::empty(),
    {
        Space { windows: Vec::new() }
    }

    /// The windows, bottom first.
    pub fn elements(&self) -> (r: &Vec<Window>)
        ensures
            r@ == self@,
    {
        &self.windows
    }

    /// The position of the window of surface `id`, if one is mapped.
    pub fn find(&self, id: SurfaceId) -> (r: Option<usize>)
        requires
            self.wf(),
        ensures
            r is None <==> !has_surface(self@, id),
            r matches Some(i) ==> i == index_of(self@, id) && i < self@.len(),
    {
        let mut i: usize = 0;
        while i < self.windows.len()
            invariant
                self.wf(),
                i <= self@.len(),
                forall|k: int| 0 <= k < i ==> self@[k].surface.id != id,
            decreases self@.len() - i,
        {
            if self.windows[i].surface.id == id {
                proof {
                    lemma_index_of_unique(self@, id, i as int);
                }
                return Some(i);
            }
            i = i + 1;
        }
        None
    }

    /// Puts `window` on top at `location`. A window of the same surface that was
    /// mapped before is taken out first.
    pub fn map_element(&mut self, window: Window, location: Point)
        requires
            old(self).wf(),
        ensures
            final(self).wf(),
            final(self)@ == without_surface(old(self)@, window.surface.id).push(
                Window { location, ..window },
            ),
    {
        let id = window.surface.id;
        match self.find(id) {
            Some(i) => {
                self.windows.remove(i);
            },
            None => {},
        }
        let ghost before = self@;
        assert(forall|k: int| 0 <= k < before.len() ==> before[k].surface.id != id) by {
            if has_surface(old(self)@, id) {
                let j = index_of(old(self)@, id);
                assert forall|k: int| 0 <= k < before.len() implies before[k].surface.id != id by {
                    if k < j {
                        assert(before[k] == old(self)@[k]);
                    } else {
                        assert(before[k] == old(self)@[k + 1]);
                    }
                }
            }
        }
        self.windows.push(Window { location, ..window });
    }

    /// Replaces the window at `i` by `w`, a window of the same surface.
    pub fn set_element(&mut self, i: usize, w: Window)
        requires
            old(self).wf(),
            i < old(self)@.len(),
            w.surface.id == old(self)@[i as int].surface.id,
        ensures
            final(self).wf(),
            final(self)@ == old(self)@.update(i as int, w),
    {
        self.windows.set(i, w);
    }
}

} // verus!
