use vstd::prelude::*;

verus! {

/// A server-advertised global that the session knows how to use.
#[derive(Clone, Copy, Debug, PartialEq, Eq, Structural)]
pub enum Capability {
    /// `wl_compositor`: creates surfaces.
    Compositor,
    /// `wl_shm`: creates shared-memory pools.
    SharedMemory,
    /// `wl_seat`: the input seat.
    Seat,
    /// `xdg_wm_base`: gives surfaces the top-level window role.
    Shell,
}

/// The capability that a global interface name stands for, if any.
pub open spec fn spec_capability_of(interface: Seq<char>) -> Option<Capability> {
    if interface == "wl_compositor"@ {
        Some(Capability::Compositor)
    } else if interface == "wl_shm"@ {
        Some(Capability::SharedMemory)
    } else if interface == "wl_seat"@ {
        Some(Capability::Seat)
    } else if interface == "xdg_wm_base"@ {
        Some(Capability::Shell)
    } else {
        None
    }
}

/// Character-wise equality of two strings.
pub fn text_equals(a: &str, b: &str) -> (r: bool)
    ensures
        r == (a@ == b@),
{
    let n = a.unicode_len();
    if n != b.unicode_len() {
        return false;
    }
    let mut i: usize = 0;
    while i < n
        invariant
            n == a@.len(),
            n == b@.len(),
            i <= n,
            forall|j: int| 0 <= j < i ==> a@[j] == b@[j],
        decreases n - i,
    {
        if a.get_char(i) != b.get_char(i) {
            return false;
        }
        i = i + 1;
    }
    assert(a@ =~= b@);
    true
}

/// Recognizes the interface name of an advertised global; unknown names give `None`.
pub fn capability_of(interface: &str) -> (r: Option<Capability>)
    ensures
        r == spec_capability_of(interface@),
{
    if text_equals(interface, "wl_compositor") {
        Some(Capability::Compositor)
    } else if text_equals(interface, "wl_shm") {
        Some(Capability::SharedMemory)
    } else if text_equals(interface, "wl_seat") {
        Some(Capability::Seat)
    } else if text_equals(interface, "xdg_wm_base") {
        Some(Capability::Shell)
    } else {
        None
    }
}

} // verus!
