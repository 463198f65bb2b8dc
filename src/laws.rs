use vstd::prelude::*;
use crate::capability::{Capability, spec_capability_of};
use crate::session::{
    BIND_VERSION, BUTTON_PRIMARY, Command, DEFAULT_HANDLE_SIZE, Event, KEY_ESCAPE, Session, attach_commands,
    can_grab,
};
use crate::states::WindowState;

verus! {

/// The session and the commands after a sequence of events, in order.
pub open spec fn run(s: Session, es: Seq<Event>) -> (Session, Seq<Command>)
    decreases es.len(),
{
    if es.len() == 0 {
        (s, seq![])
    } else {
        let first = s.step(es[0]);
        let rest = run(first.0, es.drop_first());
        (rest.0, first.1 + rest.1)
    }
}

/// How many commands satisfy `f`.
pub open spec fn count_where(cs: Seq<Command>, f: spec_fn(Command) -> bool) -> nat
    decreases cs.len(),
{
    if cs.len() == 0 {
        0
    } else {
        (if f(cs[0]) { 1nat } else { 0nat }) + count_where(cs.drop_first(), f)
    }
}

pub open spec fn is_create_surface(c: Command) -> bool {
    c == Command::CreateSurface
}

pub open spec fn is_create_role(c: Command) -> bool {
    c == Command::CreateWindowRole
}

pub open spec fn is_create_buffer(c: Command) -> bool {
    c is CreateBuffer
}

/// The capability that an event advertises, if it is a recognised global.
pub open spec fn advertised(e: Event) -> Option<Capability> {
    match e {
        Event::Global { interface, .. } => spec_capability_of(interface@),
        _ => None,
    }
}

pub open spec fn is_global(e: Event) -> bool {
    e is Global
}

/// Whether some event of the sequence advertises `k`.
pub open spec fn seen(es: Seq<Event>, k: Capability) -> bool {
    exists|i: int| 0 <= i < es.len() && advertised(es[i]) == Some(k)
}

proof fn lemma_count_concat(a: Seq<Command>, b: Seq<Command>, f: spec_fn(Command) -> bool)
    ensures
        count_where(a + b, f) == count_where(a, f) + count_where(b, f),
    decreases a.len(),
{
    if a.len() == 0 {
        assert(a + b =~= b);
    } else {
        lemma_count_concat(a.drop_first(), b, f);
        assert((a + b).drop_first() =~= a.drop_first() + b);
    }
}

proof fn lemma_seen_split(es: Seq<Event>, k: Capability)
    requires
        es.len() > 0,
    ensures
        seen(es, k) == (advertised(es[0]) == Some(k) || seen(es.drop_first(), k)),
{
    if seen(es.drop_first(), k) {
        let i = choose|i: int| 0 <= i < es.len() - 1 && advertised(es.drop_first()[i]) == Some(k);
        assert(advertised(es[i + 1]) == Some(k));
    }
    if seen(es, k) && advertised(es[0]) != Some(k) {
        let i = choose|i: int| 0 <= i < es.len() && advertised(es[i]) == Some(k);
        assert(advertised(es.drop_first()[i - 1]) == Some(k));
    }
}

proof fn lemma_global_step_counts(s: Session, e: Event)
    requires
        s.running,
        s.wf(),
        is_global(e),
    ensures
        ({
            let r = s.step(e);
            let k = advertised(e);
            &&& r.0 == (Session {
                compositor_bound: s.compositor_bound || k == Some(Capability::Compositor),
                shm_bound: s.shm_bound || k == Some(Capability::SharedMemory),
                seat_bound: s.seat_bound || k == Some(Capability::Seat),
                shell_bound: s.shell_bound || k == Some(Capability::Shell),
                role_created: (s.compositor_bound || k == Some(Capability::Compositor)) && (s.shell_bound
                    || k == Some(Capability::Shell)),
                ..s
            })
            &&& count_where(r.1, |c: Command| is_create_surface(c)) == if !s.compositor_bound && k == Some(
                Capability::Compositor,
            ) {
                1nat
            } else {
                0nat
            }
            &&& count_where(r.1, |c: Command| is_create_buffer(c)) == if !s.shm_bound && k == Some(
                Capability::SharedMemory,
            ) {
                1nat
            } else {
                0nat
            }
            &&& count_where(r.1, |c: Command| is_create_role(c)) == if !s.role_created && r.0.role_created {
                1nat
            } else {
                0nat
            }
        }),
{
    reveal_with_fuel(count_where, 5);
    match e {
        Event::Global { name, interface } => {
            match spec_capability_of(interface@) {
                Some(k) => {
                    if !s.is_bound(k) {
                        let bind = Command::Bind { capability: k, name, version: BIND_VERSION };
                        match k {
                            Capability::Compositor => {
                                let rr = Session { compositor_bound: true, ..s }.role_step();
                                lemma_count_concat(seq![bind, Command::CreateSurface], rr.1, |c: Command| is_create_surface(c));
                                lemma_count_concat(seq![bind, Command::CreateSurface], rr.1, |c: Command| is_create_buffer(c));
                                lemma_count_concat(seq![bind, Command::CreateSurface], rr.1, |c: Command| is_create_role(c));
                            },
                            Capability::Shell => {
                                let rr = Session { shell_bound: true, ..s }.role_step();
                                lemma_count_concat(seq![bind], rr.1, |c: Command| is_create_surface(c));
                                lemma_count_concat(seq![bind], rr.1, |c: Command| is_create_buffer(c));
                                lemma_count_concat(seq![bind], rr.1, |c: Command| is_create_role(c));
                            },
                            Capability::SharedMemory => {
                                let p = seq![bind, Command::CreateBuffer { width: s.width, height: s.height }];
                                let a = seq![Command::AttachBuffer, Command::CommitSurface];
                                lemma_count_concat(p, a, |c: Command| is_create_surface(c));
                                lemma_count_concat(p, a, |c: Command| is_create_buffer(c));
                                lemma_count_concat(p, a, |c: Command| is_create_role(c));
                            },
                            Capability::Seat => {},
                        }
                    }
                },
                None => {},
            }
        },
        _ => {},
    }
}

/// Advertising globals, in any order, repeated or mixed with unknown ones,
/// binds each recognised kind once: the surface, the window role and the
/// initial buffer are each created exactly when their prerequisites have
/// first been advertised.
pub proof fn lemma_globals_bind_once(s: Session, es: Seq<Event>)
    requires
        s.running,
        s.wf(),
        forall|i: int| 0 <= i < es.len() ==> is_global(#[trigger] es[i]),
    ensures
        ({
            let r = run(s, es);
            let comp = s.compositor_bound || seen(es, Capability::Compositor);
            let shell = s.shell_bound || seen(es, Capability::Shell);
            &&& r.0 == (Session {
                compositor_bound: comp,
                shm_bound: s.shm_bound || seen(es, Capability::SharedMemory),
                seat_bound: s.seat_bound || seen(es, Capability::Seat),
                shell_bound: shell,
                role_created: comp && shell,
                ..s
            })
            &&& count_where(r.1, |c: Command| is_create_surface(c)) == if comp && !s.compositor_bound {
                1nat
            } else {
                0nat
            }
            &&& count_where(r.1, |c: Command| is_create_buffer(c)) == if !s.shm_bound && seen(
                es,
                Capability::SharedMemory,
            ) {
                1nat
            } else {
                0nat
            }
            &&& count_where(r.1, |c: Command| is_create_role(c)) == if comp && shell && !s.role_created {
                1nat
            } else {
                0nat
            }
        }),
    decreases es.len(),
{
    if es.len() == 0 {
        assert(!seen(es, Capability::Compositor));
        assert(!seen(es, Capability::Shell));
        assert(!seen(es, Capability::Seat));
        assert(!seen(es, Capability::SharedMemory));
        assert(count_where(seq![], |c: Command| is_create_surface(c)) == 0);
        assert(count_where(seq![], |c: Command| is_create_buffer(c)) == 0);
        assert(count_where(seq![], |c: Command| is_create_role(c)) == 0);
    } else {
        let first = s.step(es[0]);
        let rest = es.drop_first();
        assert(is_global(es[0]));
        lemma_global_step_counts(s, es[0]);
        assert forall|i: int| 0 <= i < rest.len() implies is_global(#[trigger] rest[i]) by {
            assert(is_global(es[i + 1]));
        }
        lemma_globals_bind_once(first.0, rest);
        lemma_seen_split(es, Capability::Compositor);
        lemma_seen_split(es, Capability::Shell);
        lemma_seen_split(es, Capability::Seat);
        lemma_seen_split(es, Capability::SharedMemory);
        let tail = run(first.0, rest);
        lemma_count_concat(first.1, tail.1, |c: Command| is_create_surface(c));
        lemma_count_concat(first.1, tail.1, |c: Command| is_create_buffer(c));
        lemma_count_concat(first.1, tail.1, |c: Command| is_create_role(c));
    }
}

/// Whatever the order in which the four capabilities are advertised, a new
/// session ends in the same state, with all four bound and the role created,
/// having created the surface, the role and the initial buffer exactly once.
pub proof fn lemma_advertisement_order_irrelevant(es: Seq<Event>)
    requires
        forall|i: int| 0 <= i < es.len() ==> is_global(#[trigger] es[i]),
        seen(es, Capability::Compositor),
        seen(es, Capability::SharedMemory),
        seen(es, Capability::Seat),
        seen(es, Capability::Shell),
    ensures
        run(Session::initial(), es).0 == (Session {
            compositor_bound: true,
            shm_bound: true,
            seat_bound: true,
            shell_bound: true,
            role_created: true,
            ..Session::initial()
        }),
        count_where(run(Session::initial(), es).1, |c: Command| is_create_surface(c)) == 1,
        count_where(run(Session::initial(), es).1, |c: Command| is_create_role(c)) == 1,
        count_where(run(Session::initial(), es).1, |c: Command| is_create_buffer(c)) == 1,
{
    lemma_globals_bind_once(Session::initial(), es);
}

/// Advertising a capability that is already bound changes nothing and
/// requests nothing; in particular, no second window role is created.
pub proof fn lemma_readvertised_ignored(s: Session, name: u32, interface: String)
    requires
        s.running,
        spec_capability_of(interface@) is Some,
        s.is_bound(spec_capability_of(interface@).unwrap()),
    ensures
        s.step(Event::Global { name, interface }) == (s, Seq::<Command>::empty()),
{
}

/// Once the window has its role, no advertisement creates another.
pub proof fn lemma_role_created_once(s: Session, name: u32, interface: String)
    requires
        s.role_created,
    ensures
        s.step(Event::Global { name, interface }).0.role_created,
        count_where(s.step(Event::Global { name, interface }).1, |c: Command| is_create_role(c)) == 0,
{
    reveal_with_fuel(count_where, 5);
    let e = Event::Global { name, interface };
    if s.running {
        match spec_capability_of(interface@) {
            Some(k) => {
                if !s.is_bound(k) {
                    let bind = Command::Bind { capability: k, name, version: BIND_VERSION };
                    let f = |c: Command| is_create_role(c);
                    match k {
                        Capability::Compositor => {
                            let rr = Session { compositor_bound: true, ..s }.role_step();
                            lemma_count_concat(seq![bind, Command::CreateSurface], rr.1, f);
                        },
                        Capability::Shell => {
                            let rr = Session { shell_bound: true, ..s }.role_step();
                            lemma_count_concat(seq![bind], rr.1, f);
                        },
                        Capability::SharedMemory => {
                            let p = seq![bind, Command::CreateBuffer { width: s.width, height: s.height }];
                            lemma_count_concat(p, seq![Command::AttachBuffer, Command::CommitSurface], f);
                        },
                        Capability::Seat => {},
                    }
                }
            },
            None => {},
        }
    }
}

/// A geometry proposal without states, followed by the end of its configure
/// sequence, makes the proposal both the current and the pending geometry,
/// provisions exactly one buffer of that size when the size changed, then
/// acknowledges and attaches.
pub proof fn lemma_unflagged_proposal_applied(
    s: Session,
    width: i32,
    height: i32,
    states: Vec<WindowState>,
    serial: u32,
)
    requires
        s.running,
        s.role_created,
        width > 0,
        height > 0,
        states@.len() == 0,
    ensures
        ({
            let r = run(
                s,
                seq![Event::ToplevelConfigure { width, height, states }, Event::SurfaceConfigure { serial }],
            );
            let changed = width as u32 != s.width || height as u32 != s.height;
            &&& r.0.width == width as u32 && r.0.height == height as u32
            &&& r.0.pending_width == width as u32 && r.0.pending_height == height as u32
            &&& r.0.resize_ready
            &&& r.0.configured
            &&& r.1 == (if changed && s.shm_bound {
                seq![Command::CreateBuffer { width: width as u32, height: height as u32 }]
            } else {
                Seq::<Command>::empty()
            }) + seq![Command::AckConfigure { serial }] + attach_commands(s)
        }),
{
    reveal_with_fuel(run, 3);
    let es = seq![Event::ToplevelConfigure { width, height, states }, Event::SurfaceConfigure { serial }];
    assert(!states@.contains(WindowState::Resizing));
    let s1 = s.step(es[0]).0;
    assert(es.drop_first() =~= seq![Event::SurfaceConfigure { serial }]);
    assert(es.drop_first().drop_first() =~= Seq::<Event>::empty());
    let r = run(s, es);
    assert(r.1 =~= s.step(es[0]).1 + (s1.step(es[1]).1 + Seq::<Command>::empty()));
    assert(r.1 =~= (if width as u32 != s.width || height as u32 != s.height {
        if s.shm_bound {
            seq![Command::CreateBuffer { width: width as u32, height: height as u32 }]
        } else {
            Seq::<Command>::empty()
        }
    } else {
        Seq::<Command>::empty()
    }) + seq![Command::AckConfigure { serial }] + attach_commands(s));
}

/// While this client's own resize is in progress, a proposal that carries
/// the "resizing" state is held as pending: the current geometry stays and
/// nothing is requested.
pub proof fn lemma_proposal_held_while_resizing(s: Session, width: i32, height: i32, states: Vec<WindowState>)
    requires
        s.running,
        !s.resize_ready,
        width > 0,
        height > 0,
        states@.contains(WindowState::Resizing),
    ensures
        ({
            let r = s.step(Event::ToplevelConfigure { width, height, states });
            &&& r.0 == (Session { pending_width: width as u32, pending_height: height as u32, ..s })
            &&& r.1.len() == 0
        }),
{
}

/// Whether resizing stays held back at every step of the sequence.
pub open spec fn stays_unready(s: Session, es: Seq<Event>) -> bool
    decreases es.len(),
{
    es.len() == 0 || (!s.step(es[0]).0.resize_ready && stays_unready(s.step(es[0]).0, es.drop_first()))
}

/// As long as resizing stays held back, the current geometry does not change
/// and every buffer requested has the current size: no buffer of a pending
/// size is provisioned.
pub proof fn lemma_no_buffer_while_unready(s: Session, es: Seq<Event>)
    requires
        !s.resize_ready,
        stays_unready(s, es),
    ensures
        run(s, es).0.width == s.width,
        run(s, es).0.height == s.height,
        forall|i: int|
            0 <= i < run(s, es).1.len() && is_create_buffer(#[trigger] run(s, es).1[i]) ==> run(s, es).1[i]
                == (Command::CreateBuffer { width: s.width, height: s.height }),
    decreases es.len(),
{
    if es.len() > 0 {
        let first = s.step(es[0]);
        lemma_no_buffer_while_unready(first.0, es.drop_first());
        assert(first.0.width == s.width && first.0.height == s.height);
        assert forall|i: int| 0 <= i < first.1.len() && is_create_buffer(#[trigger] first.1[i]) implies first.1[i]
            == (Command::CreateBuffer { width: s.width, height: s.height }) by {}
        let tail = run(first.0, es.drop_first());
        let all = run(s, es).1;
        assert(all == first.1 + tail.1);
        assert forall|i: int| 0 <= i < all.len() && is_create_buffer(#[trigger] all[i]) implies all[i]
            == (Command::CreateBuffer { width: s.width, height: s.height }) by {
            if i >= first.1.len() {
                assert(all[i] == tail.1[i - first.1.len()]);
            }
        }
    }
}

/// Pressing the primary button near the top-left corner starts a move, near
/// the bottom-right corner a resize (holding back geometry changes), and in
/// the middle of the window nothing, for 40-pixel handles.
pub proof fn lemma_handle_presses(s: Session, serial: u32)
    requires
        s.running,
        can_grab(s),
        s.handle_size == DEFAULT_HANDLE_SIZE,
        s.width <= 8388607,
        s.height <= 8388607,
    ensures
        ({
            let at_move = Session { pointer_x: 1280i32, pointer_y: 1280i32, ..s };
            at_move.step(Event::PointerButton { serial, button: BUTTON_PRIMARY, pressed: true }) == (
                at_move,
                seq![Command::StartMove { serial }],
            )
        }),
        s.width > 45 || s.height > 45 ==> ({
            let at_resize = Session {
                pointer_x: ((s.width - 5) * 256) as i32,
                pointer_y: ((s.height - 5) * 256) as i32,
                ..s
            };
            at_resize.step(Event::PointerButton { serial, button: BUTTON_PRIMARY, pressed: true }) == (
                Session { resize_ready: false, ..at_resize },
                seq![Command::StartResize { serial }],
            )
        }),
        s.width / 2 > 40 || s.height / 2 > 40 ==> ({
            let at_middle = Session {
                pointer_x: (s.width / 2 * 256) as i32,
                pointer_y: (s.height / 2 * 256) as i32,
                ..s
            };
            at_middle.step(Event::PointerButton { serial, button: BUTTON_PRIMARY, pressed: true }) == (
                at_middle,
                Seq::<Command>::empty(),
            )
        }),
{
}

/// Releasing the primary button always allows resizing again and requests nothing.
pub proof fn lemma_release_restores_resize(s: Session, serial: u32)
    ensures
        s.step(Event::PointerButton { serial, button: BUTTON_PRIMARY, pressed: false }) == (
            Session { resize_ready: true, ..s },
            Seq::<Command>::empty(),
        ),
{
}

/// The escape key and the server's close request both end the session.
pub proof fn lemma_close_ends_session(s: Session)
    ensures
        !s.step(Event::Key { key: KEY_ESCAPE, pressed: true }).0.running,
        !s.step(Event::ToplevelClose).0.running,
{
}

/// A closed session stays closed and requests nothing more: in particular no
/// buffer is attached.
pub proof fn lemma_closed_is_quiet(s: Session, es: Seq<Event>)
    requires
        !s.running,
    ensures
        !run(s, es).0.running,
        run(s, es).1.len() == 0,
    decreases es.len(),
{
    if es.len() > 0 {
        lemma_closed_is_quiet(s.step(es[0]).0, es.drop_first());
    }
}

} // verus!
