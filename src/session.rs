use vstd::prelude::*;
use crate::capability::{Capability, capability_of, spec_capability_of};
use crate::input::{Region, hit_region, region_of, truncate_fixed, whole_pixels};
use crate::states::{WindowState, has_resizing};

verus! {

/// Title given to the window when it takes the top-level role.
pub const WINDOW_TITLE: &'static str = "A fantastic window!";

/// Width of a new session's window, in pixels.
pub const DEFAULT_WIDTH: u32 = 640;

/// Height of a new session's window, in pixels.
pub const DEFAULT_HEIGHT: u32 = 480;

/// Side of the move and resize corner squares, in pixels.
pub const DEFAULT_HANDLE_SIZE: u32 = 40;

/// Protocol version asked for when binding a global.
pub const BIND_VERSION: u32 = 1;

/// Evdev code of the primary (left) pointer button.
pub const BUTTON_PRIMARY: u32 = 272;

/// Evdev code of the secondary (right) pointer button.
pub const BUTTON_SECONDARY: u32 = 273;

/// Evdev code of the escape key.
pub const KEY_ESCAPE: u32 = 1;

/// A request that the session asks its transport to make, in order.
#[derive(Clone, Copy, Debug, PartialEq, Eq, Structural)]
pub enum Command {
    /// Bind the advertised global `name` as `capability`.
    Bind { capability: Capability, name: u32, version: u32 },
    /// Create the surface from the compositor global.
    CreateSurface,
    /// Give the surface the top-level role and set its title to `WINDOW_TITLE`.
    CreateWindowRole,
    /// Commit the surface.
    CommitSurface,
    /// Provision a new shared-memory buffer of this size, replacing the old one.
    CreateBuffer { width: u32, height: u32 },
    /// Attach the current buffer to the surface.
    AttachBuffer,
    /// Acknowledge the configure with this serial.
    AckConfigure { serial: u32 },
    /// Answer the shell's keep-alive ping.
    Pong { serial: u32 },
    /// Ask the seat for its keyboard.
    GetKeyboard,
    /// Ask the seat for its pointer.
    GetPointer,
    /// Start an interactive move.
    StartMove { serial: u32 },
    /// Start an interactive resize from the bottom-right edge.
    StartResize { serial: u32 },
    /// Show the window menu at a whole-pixel position.
    ShowWindowMenu { serial: u32, x: i32, y: i32 },
}

/// An event that the transport hands to the session.
#[derive(Debug)]
pub enum Event {
    /// The server advertises a global.
    Global { name: u32, interface: String },
    /// The shell pings the client.
    Ping { serial: u32 },
    /// The surface's configure: the end of a configure sequence.
    SurfaceConfigure { serial: u32 },
    /// The top-level's proposed geometry and states.
    ToplevelConfigure { width: i32, height: i32, states: Vec<WindowState> },
    /// The server asks the window to close.
    ToplevelClose,
    /// The seat's devices.
    SeatCapabilities { keyboard: bool, pointer: bool },
    /// The pointer enters the surface at a fixed-point position.
    PointerEnter { serial: u32, x: i32, y: i32 },
    /// The pointer moves to a fixed-point position.
    PointerMotion { x: i32, y: i32 },
    /// A pointer button is pressed or released.
    PointerButton { serial: u32, button: u32, pressed: bool },
    /// A key is pressed or released.
    Key { key: u32, pressed: bool },
}

/// The state of one window session.
#[derive(Clone, Copy, Debug, PartialEq, Eq, Structural)]
pub struct Session {
    /// False once the session is closed.
    pub running: bool,
    /// True once a configure has been acknowledged.
    pub configured: bool,
    /// False while an interactive resize that this client started is in progress.
    pub resize_ready: bool,
    /// Current geometry, the size of the current buffer.
    pub width: u32,
    pub height: u32,
    /// Geometry proposed by the compositor and not yet applied.
    pub pending_width: u32,
    pub pending_height: u32,
    /// Side of the corner handles, in pixels.
    pub handle_size: u32,
    /// Bound globals; the surface exists once the compositor is bound, the
    /// buffer once shared memory is.
    pub compositor_bound: bool,
    pub shm_bound: bool,
    pub seat_bound: bool,
    pub shell_bound: bool,
    /// The surface has the top-level role.
    pub role_created: bool,
    /// Last pointer position, fixed-point.
    pub pointer_x: i32,
    pub pointer_y: i32,
    /// Serial of the last pointer entry.
    pub pointer_serial: u32,
    pub pointer_entered: bool,
}

pub open spec fn attach_commands(s: Session) -> Seq<Command> {
    if s.shm_bound {
        seq![Command::AttachBuffer, Command::CommitSurface]
    } else {
        seq![]
    }
}

pub open spec fn can_grab(s: Session) -> bool {
    s.role_created && s.seat_bound
}

impl Session {
    /// The role exists exactly when the surface and the shell do, and only a
    /// window with a role is ever configured.
    pub open spec fn wf(self) -> bool {
        &&& self.role_created == (self.compositor_bound && self.shell_bound)
        &&& self.configured ==> self.role_created
    }

    pub open spec fn is_bound(self, k: Capability) -> bool {
        match k {
            Capability::Compositor => self.compositor_bound,
            Capability::SharedMemory => self.shm_bound,
            Capability::Seat => self.seat_bound,
            Capability::Shell => self.shell_bound,
        }
    }

    /// The session before any event.
    pub open spec fn initial() -> Session {
        Session {
            running: true,
            configured: false,
            resize_ready: true,
            width: DEFAULT_WIDTH,
            height: DEFAULT_HEIGHT,
            pending_width: DEFAULT_WIDTH,
            pending_height: DEFAULT_HEIGHT,
            handle_size: DEFAULT_HANDLE_SIZE,
            compositor_bound: false,
            shm_bound: false,
            seat_bound: false,
            shell_bound: false,
            role_created: false,
            pointer_x: 0,
            pointer_y: 0,
            pointer_serial: 0,
            pointer_entered: false,
        }
    }

    /// Creates the role once both the surface and the shell exist.
    pub open spec fn role_step(self) -> (Session, Seq<Command>) {
        if self.compositor_bound && self.shell_bound && !self.role_created {
            (Session { role_created: true, ..self }, seq![Command::CreateWindowRole, Command::CommitSurface])
        } else {
            (self, seq![])
        }
    }

    /// Binding a recognised global; a kind already bound is ignored.
    pub open spec fn bind_step(self, name: u32, k: Capability) -> (Session, Seq<Command>) {
        let bind = Command::Bind { capability: k, name, version: BIND_VERSION };
        if self.is_bound(k) {
            (self, seq![])
        } else {
            match k {
                Capability::Compositor => {
                    let r = Session { compositor_bound: true, ..self }.role_step();
                    (r.0, seq![bind, Command::CreateSurface] + r.1)
                },
                Capability::Shell => {
                    let r = Session { shell_bound: true, ..self }.role_step();
                    (r.0, seq![bind] + r.1)
                },
                Capability::SharedMemory => {
                    let provision = seq![bind, Command::CreateBuffer { width: self.width, height: self.height }];
                    if self.configured {
                        (Session { shm_bound: true, ..self }, provision + seq![Command::AttachBuffer, Command::CommitSurface])
                    } else {
                        (Session { shm_bound: true, ..self }, provision)
                    }
                },
                Capability::Seat => (Session { seat_bound: true, ..self }, seq![bind]),
            }
        }
    }

    /// An advertised global: unknown interfaces are ignored.
    pub open spec fn global_step(self, name: u32, interface: Seq<char>) -> (Session, Seq<Command>) {
        match spec_capability_of(interface) {
            Some(k) => self.bind_step(name, k),
            None => (self, seq![]),
        }
    }

    /// A geometry proposal. Sizes that are not positive are ignored. Without
    /// the "resizing" state the proposal is taken as pending and resizing is
    /// allowed again; with it, the proposal is held as pending only while this
    /// client's own resize is in progress, and dropped otherwise.
    pub open spec fn proposal_step(self, width: i32, height: i32, states: Seq<WindowState>) -> Session {
        if width <= 0 || height <= 0 {
            self
        } else if !states.contains(WindowState::Resizing) {
            Session { resize_ready: true, pending_width: width as u32, pending_height: height as u32, ..self }
        } else if self.resize_ready {
            self
        } else {
            Session { pending_width: width as u32, pending_height: height as u32, ..self }
        }
    }

    /// Whether an acknowledge applies the pending geometry.
    pub open spec fn applies_pending(self) -> bool {
        (self.pending_width != self.width || self.pending_height != self.height) && self.resize_ready
    }

    /// The end of a configure sequence: apply the pending geometry when
    /// allowed (with a new buffer of that size), acknowledge, and attach the
    /// buffer. Ignored before the window has its role.
    pub open spec fn acknowledge_step(self, serial: u32) -> (Session, Seq<Command>) {
        if !self.role_created {
            (self, seq![])
        } else if self.applies_pending() {
            let provision = if self.shm_bound {
                seq![Command::CreateBuffer { width: self.pending_width, height: self.pending_height }]
            } else {
                seq![]
            };
            (
                Session { width: self.pending_width, height: self.pending_height, configured: true, ..self },
                provision + seq![Command::AckConfigure { serial }] + attach_commands(self),
            )
        } else {
            (Session { configured: true, ..self }, seq![Command::AckConfigure { serial }] + attach_commands(self))
        }
    }

    /// A pointer button. Pressing the primary button on a handle starts a move
    /// or a resize (the latter holds back geometry changes); releasing it
    /// allows them again. Pressing the secondary button opens the window menu.
    pub open spec fn button_step(self, serial: u32, button: u32, pressed: bool) -> (Session, Seq<Command>) {
        if button == BUTTON_PRIMARY && !pressed {
            (Session { resize_ready: true, ..self }, seq![])
        } else if !can_grab(self) || !pressed {
            (self, seq![])
        } else if button == BUTTON_PRIMARY {
            match region_of(self.width as int, self.height as int, self.handle_size as int, self.pointer_x as int, self.pointer_y as int) {
                Region::MoveHandle => (self, seq![Command::StartMove { serial }]),
                Region::ResizeHandle => (Session { resize_ready: false, ..self }, seq![Command::StartResize { serial }]),
                Region::Body => (self, seq![]),
            }
        } else if button == BUTTON_SECONDARY {
            (self, seq![Command::ShowWindowMenu {
                serial,
                x: truncate_fixed(self.pointer_x as int) as i32,
                y: truncate_fixed(self.pointer_y as int) as i32,
            }])
        } else {
            (self, seq![])
        }
    }

    /// Whether an event releases the primary button.
    pub open spec fn is_primary_release(e: Event) -> bool {
        match e {
            Event::PointerButton { button, pressed, .. } => button == BUTTON_PRIMARY && !pressed,
            _ => false,
        }
    }

    /// One event. A closed session ignores every event but the release of the
    /// primary button.
    pub open spec fn step(self, e: Event) -> (Session, Seq<Command>) {
        if !self.running && !Self::is_primary_release(e) {
            (self, seq![])
        } else {
            match e {
                Event::Global { name, interface } => self.global_step(name, interface@),
                Event::Ping { serial } => (self, seq![Command::Pong { serial }]),
                Event::SurfaceConfigure { serial } => self.acknowledge_step(serial),
                Event::ToplevelConfigure { width, height, states } => (self.proposal_step(width, height, states@), seq![]),
                Event::ToplevelClose => (Session { running: false, ..self }, seq![]),
                Event::SeatCapabilities { keyboard, pointer } => (
                    self,
                    (if keyboard { seq![Command::GetKeyboard] } else { seq![] })
                        + (if pointer { seq![Command::GetPointer] } else { seq![] }),
                ),
                Event::PointerEnter { serial, x, y } => (
                    Session { pointer_x: x, pointer_y: y, pointer_serial: serial, pointer_entered: true, ..self },
                    seq![],
                ),
                Event::PointerMotion { x, y } => (Session { pointer_x: x, pointer_y: y, ..self }, seq![]),
                Event::PointerButton { serial, button, pressed } => self.button_step(serial, button, pressed),
                Event::Key { key, pressed } => if pressed && key == KEY_ESCAPE {
                    (Session { running: false, ..self }, seq![])
                } else {
                    (self, seq![])
                },
            }
        }
    }

    /// A session at the default geometry with nothing bound yet.
    pub fn new() -> (r: Session)
        ensures
            r == Session::initial(),
            r.wf(),
    {
        Session {
            running: true,
            configured: false,
            resize_ready: true,
            width: DEFAULT_WIDTH,
            height: DEFAULT_HEIGHT,
            pending_width: DEFAULT_WIDTH,
            pending_height: DEFAULT_HEIGHT,
            handle_size: DEFAULT_HANDLE_SIZE,
            compositor_bound: false,
            shm_bound: false,
            seat_bound: false,
            shell_bound: false,
            role_created: false,
            pointer_x: 0,
            pointer_y: 0,
            pointer_serial: 0,
            pointer_entered: false,
        }
    }

    fn create_role(&mut self, out: &mut Vec<Command>)
        ensures
            *final(self) == old(self).role_step().0,
            final(out)@ == old(out)@ + old(self).role_step().1,
    {
        if self.compositor_bound && self.shell_bound && !self.role_created {
            self.role_created = true;
            out.push(Command::CreateWindowRole);
            out.push(Command::CommitSurface);
        }
    }

    /// Binds a recognised global the first time it is advertised.
    pub fn bind(&mut self, name: u32, k: Capability) -> (r: Vec<Command>)
        ensures
            (*final(self), r@) == old(self).bind_step(name, k),
    {
        let mut out: Vec<Command> = Vec::new();
        let bind = Command::Bind { capability: k, name, version: BIND_VERSION };
        match k {
            Capability::Compositor => {
                if !self.compositor_bound {
                    self.compositor_bound = true;
                    out.push(bind);
                    out.push(Command::CreateSurface);
                    self.create_role(&mut out);
                }
            },
            Capability::Shell => {
                if !self.shell_bound {
                    self.shell_bound = true;
                    out.push(bind);
                    self.create_role(&mut out);
                }
            },
            Capability::SharedMemory => {
                if !self.shm_bound {
                    self.shm_bound = true;
                    out.push(bind);
                    out.push(Command::CreateBuffer { width: self.width, height: self.height });
                    if self.configured {
                        out.push(Command::AttachBuffer);
                        out.push(Command::CommitSurface);
                    }
                }
            },
            Capability::Seat => {
                if !self.seat_bound {
                    self.seat_bound = true;
                    out.push(bind);
                }
            },
        }
        assert(out@ =~= old(self).bind_step(name, k).1);
        out
    }

    /// Handles an advertised global by its interface name.
    pub fn on_global(&mut self, name: u32, interface: &str) -> (r: Vec<Command>)
        ensures
            (*final(self), r@) == old(self).global_step(name, interface@),
    {
        match capability_of(interface) {
            Some(k) => self.bind(name, k),
            None => {
                let out: Vec<Command> = Vec::new();
                assert(out@ =~= seq![]);
                out
            },
        }
    }

    /// Handles a geometry proposal.
    pub fn on_proposal(&mut self, width: i32, height: i32, states: &[WindowState])
        ensures
            *final(self) == old(self).proposal_step(width, height, states@),
    {
        if width <= 0 || height <= 0 {
            return;
        }
        if !has_resizing(states) {
            self.resize_ready = true;
            self.pending_width = width as u32;
            self.pending_height = height as u32;
        } else if !self.resize_ready {
            self.pending_width = width as u32;
            self.pending_height = height as u32;
        }
    }

    /// Handles the end of a configure sequence.
    pub fn on_acknowledge(&mut self, serial: u32) -> (r: Vec<Command>)
        ensures
            (*final(self), r@) == old(self).acknowledge_step(serial),
    {
        let mut out: Vec<Command> = Vec::new();
        if !self.role_created {
            assert(out@ =~= seq![]);
            return out;
        }
        if (self.pending_width != self.width || self.pending_height != self.height) && self.resize_ready {
            self.width = self.pending_width;
            self.height = self.pending_height;
            if self.shm_bound {
                out.push(Command::CreateBuffer { width: self.width, height: self.height });
            }
        }
        out.push(Command::AckConfigure { serial });
        self.configured = true;
        if self.shm_bound {
            out.push(Command::AttachBuffer);
            out.push(Command::CommitSurface);
        }
        assert(out@ =~= old(self).acknowledge_step(serial).1);
        out
    }

    /// Handles a pointer button.
    pub fn on_button(&mut self, serial: u32, button: u32, pressed: bool) -> (r: Vec<Command>)
        ensures
            (*final(self), r@) == old(self).button_step(serial, button, pressed),
    {
        let mut out: Vec<Command> = Vec::new();
        if button == BUTTON_PRIMARY && !pressed {
            self.resize_ready = true;
        } else if !(self.role_created && self.seat_bound) || !pressed {
        } else if button == BUTTON_PRIMARY {
            match hit_region(self.width, self.height, self.handle_size, self.pointer_x, self.pointer_y) {
                Region::MoveHandle => out.push(Command::StartMove { serial }),
                Region::ResizeHandle => {
                    self.resize_ready = false;
                    out.push(Command::StartResize { serial });
                },
                Region::Body => {},
            }
        } else if button == BUTTON_SECONDARY {
            out.push(
                Command::ShowWindowMenu {
                    serial,
                    x: whole_pixels(self.pointer_x),
                    y: whole_pixels(self.pointer_y),
                },
            );
        }
        assert(out@ =~= old(self).button_step(serial, button, pressed).1);
        out
    }

    /// Handles one event and returns the requests to make, in order.
    pub fn handle(&mut self, event: Event) -> (r: Vec<Command>)
        ensures
            (*final(self), r@) == old(self).step(event),
            old(self).wf() ==> final(self).wf(),
    {
        let mut out: Vec<Command> = Vec::new();
        let release = match &event {
            Event::PointerButton { button, pressed, .. } => *button == BUTTON_PRIMARY && !*pressed,
            _ => false,
        };
        if !self.running && !release {
            assert(out@ =~= seq![]);
            return out;
        }
        match event {
            Event::Global { name, interface } => {
                out = self.on_global(name, interface.as_str());
            },
            Event::Ping { serial } => {
                out.push(Command::Pong { serial });
            },
            Event::SurfaceConfigure { serial } => {
                out = self.on_acknowledge(serial);
            },
            Event::ToplevelConfigure { width, height, states } => {
                self.on_proposal(width, height, states.as_slice());
            },
            Event::ToplevelClose => {
                self.running = false;
            },
            Event::SeatCapabilities { keyboard, pointer } => {
                if keyboard {
                    out.push(Command::GetKeyboard);
                }
                if pointer {
                    out.push(Command::GetPointer);
                }
            },
            Event::PointerEnter { serial, x, y } => {
                self.pointer_x = x;
                self.pointer_y = y;
                self.pointer_serial = serial;
                self.pointer_entered = true;
            },
            Event::PointerMotion { x, y } => {
                self.pointer_x = x;
                self.pointer_y = y;
            },
            Event::PointerButton { serial, button, pressed } => {
                out = self.on_button(serial, button, pressed);
            },
            Event::Key { key, pressed } => {
                if pressed && key == KEY_ESCAPE {
                    self.running = false;
                }
            },
        }
        assert(out@ =~= old(self).step(event).1);
        out
    }
}

} // verus!
