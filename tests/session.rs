use window_session::capability::Capability;
use window_session::session::{
    Command, Event, Session, BIND_VERSION, BUTTON_PRIMARY, BUTTON_SECONDARY, KEY_ESCAPE,
};
use window_session::states::WindowState;

fn global(name: u32, interface: &str) -> Event {
    Event::Global { name, interface: interface.to_string() }
}

fn bind(capability: Capability, name: u32) -> Command {
    Command::Bind { capability, name, version: BIND_VERSION }
}

const NAMES: [&str; 4] = ["wl_compositor", "wl_shm", "wl_seat", "xdg_wm_base"];

fn ready_session() -> Session {
    let mut s = Session::new();
    for (i, n) in NAMES.iter().enumerate() {
        s.handle(global(i as u32 + 1, n));
    }
    s
}

fn configured_session() -> Session {
    let mut s = ready_session();
    s.handle(Event::ToplevelConfigure { width: 0, height: 0, states: vec![] });
    s.handle(Event::SurfaceConfigure { serial: 1 });
    s
}

fn press(s: &mut Session, x: i32, y: i32, serial: u32) -> Vec<Command> {
    s.handle(Event::PointerMotion { x: x * 256, y: y * 256 });
    s.handle(Event::PointerButton { serial, button: BUTTON_PRIMARY, pressed: true })
}

fn permutations(items: Vec<usize>) -> Vec<Vec<usize>> {
    if items.len() <= 1 {
        return vec![items];
    }
    let mut out = Vec::new();
    for i in 0..items.len() {
        let mut rest = items.clone();
        let first = rest.remove(i);
        for mut p in permutations(rest) {
            p.insert(0, first);
            out.push(p);
        }
    }
    out
}

#[test]
fn new_session_defaults() {
    let s = Session::new();
    assert!(s.running);
    assert!(!s.configured);
    assert!(s.resize_ready);
    assert_eq!((s.width, s.height), (640, 480));
    assert_eq!((s.pending_width, s.pending_height), (640, 480));
    assert_eq!(s.handle_size, 40);
    assert!(!s.role_created);
}

#[test]
fn setup_commands_in_one_order() {
    let mut s = Session::new();
    assert_eq!(s.handle(global(1, "wl_compositor")), vec![bind(Capability::Compositor, 1), Command::CreateSurface]);
    assert_eq!(
        s.handle(global(2, "wl_shm")),
        vec![bind(Capability::SharedMemory, 2), Command::CreateBuffer { width: 640, height: 480 }]
    );
    assert_eq!(s.handle(global(3, "wl_seat")), vec![bind(Capability::Seat, 3)]);
    assert_eq!(
        s.handle(global(4, "xdg_wm_base")),
        vec![bind(Capability::Shell, 4), Command::CreateWindowRole, Command::CommitSurface]
    );
    assert!(s.role_created);
}

#[test]
fn every_advertisement_order_ends_alike() {
    let expected = ready_session();
    for order in permutations(vec![0, 1, 2, 3]) {
        let mut s = Session::new();
        let mut all = Vec::new();
        for &i in &order {
            all.extend(s.handle(global(i as u32 + 10, NAMES[i])));
        }
        assert_eq!(s, expected);
        assert_eq!(all.iter().filter(|c| **c == Command::CreateSurface).count(), 1);
        assert_eq!(all.iter().filter(|c| **c == Command::CreateWindowRole).count(), 1);
        assert_eq!(all.iter().filter(|c| matches!(c, Command::CreateBuffer { .. })).count(), 1);
    }
}

#[test]
fn role_waits_for_both_prerequisites() {
    let mut s = Session::new();
    assert_eq!(s.handle(global(4, "xdg_wm_base")), vec![bind(Capability::Shell, 4)]);
    assert!(!s.role_created);
    assert_eq!(
        s.handle(global(1, "wl_compositor")),
        vec![bind(Capability::Compositor, 1), Command::CreateSurface, Command::CreateWindowRole, Command::CommitSurface]
    );
    assert!(s.role_created);
}

#[test]
fn readvertised_capability_is_ignored() {
    let mut s = ready_session();
    let before = s;
    for n in NAMES {
        assert_eq!(s.handle(global(99, n)), vec![]);
    }
    assert_eq!(s, before);
}

#[test]
fn unknown_global_is_ignored() {
    let mut s = Session::new();
    assert_eq!(s.handle(global(7, "wl_output")), vec![]);
    assert_eq!(s, Session::new());
}

#[test]
fn configure_before_role_is_ignored() {
    let mut s = Session::new();
    assert_eq!(s.handle(Event::SurfaceConfigure { serial: 3 }), vec![]);
    assert!(!s.configured);
}

#[test]
fn first_configure_attaches_initial_buffer() {
    let mut s = ready_session();
    s.handle(Event::ToplevelConfigure { width: 0, height: 0, states: vec![] });
    assert_eq!(
        s.handle(Event::SurfaceConfigure { serial: 5 }),
        vec![Command::AckConfigure { serial: 5 }, Command::AttachBuffer, Command::CommitSurface]
    );
    assert!(s.configured);
}

#[test]
fn configure_without_shared_memory_only_acknowledges() {
    let mut s = Session::new();
    s.handle(global(1, "wl_compositor"));
    s.handle(global(2, "xdg_wm_base"));
    assert_eq!(s.handle(Event::SurfaceConfigure { serial: 5 }), vec![Command::AckConfigure { serial: 5 }]);
}

#[test]
fn shared_memory_after_configure_attaches() {
    let mut s = Session::new();
    s.handle(global(1, "wl_compositor"));
    s.handle(global(2, "xdg_wm_base"));
    s.handle(Event::SurfaceConfigure { serial: 5 });
    assert_eq!(
        s.handle(global(3, "wl_shm")),
        vec![
            bind(Capability::SharedMemory, 3),
            Command::CreateBuffer { width: 640, height: 480 },
            Command::AttachBuffer,
            Command::CommitSurface
        ]
    );
}

#[test]
fn unflagged_proposal_is_applied() {
    let mut s = configured_session();
    assert_eq!(s.handle(Event::ToplevelConfigure { width: 800, height: 600, states: vec![] }), vec![]);
    assert_eq!((s.pending_width, s.pending_height), (800, 600));
    assert_eq!((s.width, s.height), (640, 480));
    assert_eq!(
        s.handle(Event::SurfaceConfigure { serial: 7 }),
        vec![
            Command::CreateBuffer { width: 800, height: 600 },
            Command::AckConfigure { serial: 7 },
            Command::AttachBuffer,
            Command::CommitSurface
        ]
    );
    assert_eq!((s.width, s.height), (800, 600));
    assert!(s.resize_ready);
}

#[test]
fn proposal_without_resizing_state_is_applied() {
    let mut s = configured_session();
    s.handle(Event::ToplevelConfigure { width: 300, height: 200, states: vec![WindowState::Other(4)] });
    assert_eq!((s.pending_width, s.pending_height), (300, 200));
    let cmds = s.handle(Event::SurfaceConfigure { serial: 8 });
    assert_eq!(cmds[0], Command::CreateBuffer { width: 300, height: 200 });
}

#[test]
fn same_size_proposal_makes_no_buffer() {
    let mut s = configured_session();
    s.handle(Event::ToplevelConfigure { width: 640, height: 480, states: vec![] });
    assert_eq!(
        s.handle(Event::SurfaceConfigure { serial: 9 }),
        vec![Command::AckConfigure { serial: 9 }, Command::AttachBuffer, Command::CommitSurface]
    );
}

#[test]
fn degenerate_proposal_is_ignored() {
    let mut s = configured_session();
    let before = s;
    s.handle(Event::ToplevelConfigure { width: 0, height: 600, states: vec![] });
    s.handle(Event::ToplevelConfigure { width: 800, height: 0, states: vec![] });
    s.handle(Event::ToplevelConfigure { width: -5, height: 600, states: vec![] });
    assert_eq!(s, before);
}

#[test]
fn proposal_held_during_own_resize() {
    let mut s = configured_session();
    assert_eq!(press(&mut s, 635, 475, 11), vec![Command::StartResize { serial: 11 }]);
    assert!(!s.resize_ready);
    s.handle(Event::ToplevelConfigure { width: 700, height: 500, states: vec![WindowState::Resizing] });
    assert_eq!((s.width, s.height), (640, 480));
    assert_eq!((s.pending_width, s.pending_height), (700, 500));
    assert_eq!(
        s.handle(Event::SurfaceConfigure { serial: 12 }),
        vec![Command::AckConfigure { serial: 12 }, Command::AttachBuffer, Command::CommitSurface]
    );
    assert_eq!((s.width, s.height), (640, 480));
    s.handle(Event::PointerButton { serial: 13, button: BUTTON_PRIMARY, pressed: false });
    assert!(s.resize_ready);
    assert_eq!(
        s.handle(Event::SurfaceConfigure { serial: 14 }),
        vec![
            Command::CreateBuffer { width: 700, height: 500 },
            Command::AckConfigure { serial: 14 },
            Command::AttachBuffer,
            Command::CommitSurface
        ]
    );
    assert_eq!((s.width, s.height), (700, 500));
}

#[test]
fn resizing_proposal_dropped_when_not_holding() {
    let mut s = configured_session();
    s.handle(Event::ToplevelConfigure { width: 700, height: 500, states: vec![WindowState::Resizing] });
    assert_eq!((s.pending_width, s.pending_height), (640, 480));
    assert!(s.resize_ready);
}

#[test]
fn presses_on_handles() {
    let mut s = configured_session();
    assert_eq!(press(&mut s, 5, 5, 21), vec![Command::StartMove { serial: 21 }]);
    assert!(s.resize_ready);
    assert_eq!(press(&mut s, 320, 240, 22), vec![]);
    assert!(s.resize_ready);
    assert_eq!(press(&mut s, 635, 475, 23), vec![Command::StartResize { serial: 23 }]);
    assert!(!s.resize_ready);
}

#[test]
fn press_without_seat_is_ignored() {
    let mut s = Session::new();
    s.handle(global(1, "wl_compositor"));
    s.handle(global(2, "xdg_wm_base"));
    assert_eq!(press(&mut s, 5, 5, 21), vec![]);
}

#[test]
fn enter_records_position_without_grab() {
    let mut s = configured_session();
    assert_eq!(s.handle(Event::PointerEnter { serial: 31, x: 1280, y: 2560 }), vec![]);
    assert_eq!((s.pointer_x, s.pointer_y, s.pointer_serial), (1280, 2560, 31));
    assert!(s.pointer_entered);
}

#[test]
fn secondary_press_opens_menu() {
    let mut s = configured_session();
    s.handle(Event::PointerMotion { x: 100 * 256 + 192, y: 50 * 256 + 5 });
    assert_eq!(
        s.handle(Event::PointerButton { serial: 41, button: BUTTON_SECONDARY, pressed: true }),
        vec![Command::ShowWindowMenu { serial: 41, x: 100, y: 50 }]
    );
    assert_eq!(s.handle(Event::PointerButton { serial: 42, button: BUTTON_SECONDARY, pressed: false }), vec![]);
}

#[test]
fn release_always_restores_resize() {
    let mut s = Session::new();
    s.resize_ready = false;
    s.handle(Event::PointerButton { serial: 1, button: BUTTON_PRIMARY, pressed: false });
    assert!(s.resize_ready);
    let mut closed = configured_session();
    closed.resize_ready = false;
    closed.running = false;
    closed.handle(Event::PointerButton { serial: 2, button: BUTTON_PRIMARY, pressed: false });
    assert!(closed.resize_ready);
}

#[test]
fn escape_closes_and_stops_attaching() {
    let mut s = configured_session();
    s.handle(Event::Key { key: KEY_ESCAPE, pressed: true });
    assert!(!s.running);
    s.handle(Event::ToplevelConfigure { width: 800, height: 600, states: vec![] });
    assert_eq!(s.handle(Event::SurfaceConfigure { serial: 50 }), vec![]);
    assert_eq!(s.handle(global(60, "wl_shm")), vec![]);
}

#[test]
fn close_request_closes_and_stops_attaching() {
    let mut s = configured_session();
    s.handle(Event::ToplevelClose);
    assert!(!s.running);
    assert_eq!(s.handle(Event::SurfaceConfigure { serial: 51 }), vec![]);
}

#[test]
fn other_keys_do_not_close() {
    let mut s = configured_session();
    s.handle(Event::Key { key: 12, pressed: true });
    s.handle(Event::Key { key: KEY_ESCAPE, pressed: false });
    assert!(s.running);
}

#[test]
fn ping_is_answered() {
    let mut s = Session::new();
    assert_eq!(s.handle(Event::Ping { serial: 77 }), vec![Command::Pong { serial: 77 }]);
}

#[test]
fn seat_devices_are_requested() {
    let mut s = ready_session();
    assert_eq!(
        s.handle(Event::SeatCapabilities { keyboard: true, pointer: true }),
        vec![Command::GetKeyboard, Command::GetPointer]
    );
    assert_eq!(s.handle(Event::SeatCapabilities { keyboard: false, pointer: true }), vec![Command::GetPointer]);
}
