use corrosion_shell::grab::{
    check_grab, GrabKind, GrabStartData, Pointer, PointerGrab, ResizeEdges, Seat,
};
use corrosion_shell::space::{
    Configure, DecorationMode, Point, Rectangle, Size, Space, SurfaceHandle, ToplevelState, Window,
};
use corrosion_shell::xdg_shell::{handle_commit, CommitOutcome, Corrosion};

const A: SurfaceHandle = SurfaceHandle { id: 10, client: 1 };
const B: SurfaceHandle = SurfaceHandle { id: 20, client: 2 };
const A_CHILD: SurfaceHandle = SurfaceHandle { id: 11, client: 1 };

fn tiled() -> ToplevelState {
    ToplevelState {
        tiled_left: true,
        tiled_right: true,
        tiled_top: true,
        tiled_bottom: true,
        resizing: false,
        decoration_mode: None,
    }
}

fn start(focus: Option<SurfaceHandle>) -> GrabStartData {
    GrabStartData { focus, button: 272, location: Point { x: 5, y: 7 } }
}

fn clicked(serial: u32, focus: Option<SurfaceHandle>) -> Seat {
    Seat {
        pointer: Some(Pointer {
            grab: Some(PointerGrab { serial, start_data: start(focus), kind: GrabKind::Click }),
        }),
    }
}

fn plain_window(surface: SurfaceHandle, sent: bool) -> Window {
    Window {
        surface,
        location: Point { x: 0, y: 0 },
        pending: tiled(),
        initial_configure_sent: sent,
    }
}

#[test]
fn grab_denied_without_pointer() {
    let seat = Seat { pointer: None };
    assert_eq!(check_grab(&seat, A, 3), None);
}

#[test]
fn grab_denied_without_active_grab() {
    let seat = Seat { pointer: Some(Pointer { grab: None }) };
    assert_eq!(check_grab(&seat, A, 3), None);
}

#[test]
fn grab_denied_for_other_serial() {
    assert_eq!(check_grab(&clicked(4, Some(A)), A, 3), None);
}

#[test]
fn grab_denied_without_focus() {
    assert_eq!(check_grab(&clicked(3, None), A, 3), None);
}

#[test]
fn grab_denied_for_other_client() {
    assert_eq!(check_grab(&clicked(3, Some(B)), A, 3), None);
}

#[test]
fn grab_granted_for_same_client() {
    assert_eq!(check_grab(&clicked(3, Some(A)), A, 3), Some(start(Some(A))));
    assert_eq!(check_grab(&clicked(3, Some(A_CHILD)), A, 3), Some(start(Some(A_CHILD))));
}

#[test]
fn new_toplevel_is_tiled_at_origin_and_configured() {
    let mut c = Corrosion::new();
    c.new_toplevel(A);
    assert_eq!(c.space.elements().clone(), vec![plain_window(A, true)]);
    assert_eq!(c.configures, vec![Configure { surface: A.id, state: tiled() }]);
    c.new_toplevel(B);
    assert_eq!(c.space.elements().len(), 2);
    assert_eq!(c.space.elements()[1].surface, B);
    assert_eq!(c.configures.len(), 2);
}

#[test]
fn new_toplevel_again_keeps_one_window_on_top() {
    let mut c = Corrosion::new();
    c.new_toplevel(A);
    c.new_toplevel(B);
    c.new_toplevel(A);
    let ids: Vec<u64> = c.space.elements().iter().map(|w| w.surface.id).collect();
    assert_eq!(ids, vec![B.id, A.id]);
}

#[test]
fn map_element_places_and_replaces() {
    let mut s = Space::new();
    s.map_element(plain_window(A, false), Point { x: 30, y: 40 });
    s.map_element(plain_window(B, false), Point { x: 1, y: 2 });
    s.map_element(plain_window(A, true), Point { x: -5, y: 6 });
    assert_eq!(s.elements().len(), 2);
    assert_eq!(s.elements()[0].surface, B);
    assert_eq!(s.elements()[1].location, Point { x: -5, y: 6 });
    assert!(s.elements()[1].initial_configure_sent);
    assert_eq!(s.find(A.id), Some(1));
    assert_eq!(s.find(99), None);
}

#[test]
fn move_request_unauthorized_changes_nothing() {
    let mut c = Corrosion::new();
    c.new_toplevel(A);
    let before_windows = c.space.elements().clone();
    let before_configures = c.configures.clone();
    for mut seat in [clicked(8, Some(A)), clicked(7, Some(B)), clicked(7, None), Seat { pointer: None }] {
        let seat_before = seat;
        c.move_request(&mut seat, A, 7);
        assert_eq!(seat, seat_before);
        assert_eq!(c.space.elements().clone(), before_windows);
        assert_eq!(c.configures, before_configures);
    }
}

#[test]
fn move_request_installs_move_grab() {
    let mut c = Corrosion::new();
    c.new_toplevel(A);
    c.space.map_element(plain_window(A, true), Point { x: 12, y: 34 });
    let mut seat = clicked(7, Some(A));
    c.move_request(&mut seat, A, 7);
    let grab = seat.pointer.unwrap().grab.unwrap();
    assert_eq!(grab.serial, 7);
    assert_eq!(grab.start_data, start(Some(A)));
    assert_eq!(
        grab.kind,
        GrabKind::Move { window: A.id, initial_location: Point { x: 12, y: 34 } }
    );
    assert_eq!(c.configures.len(), 1);
}

#[test]
fn resize_request_marks_resizing_and_installs_grab() {
    let mut c = Corrosion::new();
    c.new_toplevel(A);
    let mut seat = clicked(9, Some(A));
    let edges = ResizeEdges { top: false, bottom: true, left: false, right: true };
    c.resize_request(&mut seat, A, 9, edges, Size { w: 640, h: 480 });
    let resizing = ToplevelState { resizing: true, ..tiled() };
    assert!(c.space.elements()[0].pending.resizing);
    assert_eq!(c.configures.len(), 2);
    assert_eq!(c.configures[1], Configure { surface: A.id, state: resizing });
    let grab = seat.pointer.unwrap().grab.unwrap();
    assert_eq!(
        grab.kind,
        GrabKind::Resize {
            window: A.id,
            edges,
            initial_rect: Rectangle { loc: Point { x: 0, y: 0 }, size: Size { w: 640, h: 480 } },
        }
    );
}

#[test]
fn resize_request_unauthorized_changes_nothing() {
    let mut c = Corrosion::new();
    c.new_toplevel(A);
    let mut seat = clicked(9, Some(B));
    let edges = ResizeEdges { top: true, bottom: false, left: true, right: false };
    c.resize_request(&mut seat, A, 9, edges, Size { w: 1, h: 1 });
    assert!(!c.space.elements()[0].pending.resizing);
    assert_eq!(c.configures.len(), 1);
    assert_eq!(seat, clicked(9, Some(B)));
}

#[test]
fn decoration_is_always_server_side() {
    let mut c = Corrosion::new();
    c.new_toplevel(A);
    c.request_mode(A, DecorationMode::ClientSide);
    assert_eq!(c.configures.len(), 1);
    c.new_decoration(A);
    let state = ToplevelState { decoration_mode: Some(DecorationMode::ServerSide), ..tiled() };
    assert_eq!(c.space.elements()[0].pending, state);
    assert_eq!(c.configures[1], Configure { surface: A.id, state });
    c.unset_mode(A);
    assert_eq!(c.space.elements()[0].pending, state);
    c.new_decoration(B);
    assert_eq!(c.configures.len(), 2);
}

#[test]
fn popups_change_nothing() {
    let mut c = Corrosion::new();
    c.new_toplevel(A);
    c.new_popup(B);
    let mut seat = clicked(1, Some(B));
    c.grab(&mut seat, B, 1);
    assert_eq!(seat, clicked(1, Some(B)));
    assert_eq!(c.space.elements().len(), 1);
    assert_eq!(c.configures.len(), 1);
}

#[test]
fn commit_of_untracked_surface_does_nothing() {
    let mut s = Space::new();
    assert_eq!(handle_commit(&mut s, A.id), CommitOutcome::Untracked);
    assert!(s.elements().is_empty());
}

#[test]
fn commit_sends_initial_configure_once() {
    let mut s = Space::new();
    s.map_element(plain_window(A, false), Point { x: 0, y: 0 });
    assert_eq!(
        handle_commit(&mut s, A.id),
        CommitOutcome::SendInitialConfigure(Configure { surface: A.id, state: tiled() })
    );
    assert!(s.elements()[0].initial_configure_sent);
    assert_eq!(handle_commit(&mut s, A.id), CommitOutcome::AlreadyConfigured);
    assert_eq!(handle_commit(&mut s, A.id), CommitOutcome::AlreadyConfigured);
}

#[test]
fn commit_after_new_toplevel_is_already_configured() {
    let mut c = Corrosion::new();
    c.new_toplevel(A);
    assert_eq!(handle_commit(&mut c.space, A.id), CommitOutcome::AlreadyConfigured);
}
