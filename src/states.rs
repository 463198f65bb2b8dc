use vstd::prelude::*;

verus! {

/// Protocol value of the top-level state "being resized interactively".
pub const RESIZING_CODE: u32 = 3;

/// One state that the compositor asserts of the top-level window.
#[derive(Clone, Copy, Debug, PartialEq, Eq, Structural)]
pub enum WindowState {
    /// The window is being resized interactively.
    Resizing,
    /// Any other state, by its protocol value.
    Other(u32),
}

/// The state that a protocol value stands for.
pub open spec fn state_of_code(code: u32) -> WindowState {
    if code == RESIZING_CODE {
        WindowState::Resizing
    } else {
        WindowState::Other(code)
    }
}

/// The little-endian 32-bit value whose bytes start at `at`.
pub open spec fn le_u32(raw: Seq<u8>, at: int) -> int {
    raw[at] + raw[at + 1] * 256 + raw[at + 2] * 65536 + raw[at + 3] * 16777216
}

/// The states listed in a raw array of little-endian 32-bit values; bytes
/// after the last whole value are ignored.
pub open spec fn decoded_states(raw: Seq<u8>) -> Seq<WindowState> {
    Seq::new(raw.len() / 4, |i: int| state_of_code(le_u32(raw, 4 * i) as u32))
}

/// Decodes the raw state array that comes with a top-level configure.
pub fn decode_states(raw: &[u8]) -> (r: Vec<WindowState>)
    ensures
        r@ == decoded_states(raw@),
{
    let n = raw.len() / 4;
    let mut out: Vec<WindowState> = Vec::new();
    let mut i: usize = 0;
    while i < n
        invariant
            n == raw@.len() / 4,
            raw@.len() <= usize::MAX,
            i <= n,
            out@ == decoded_states(raw@).subrange(0, i as int),
        decreases n - i,
    {
        let at = 4 * i;
        let code: u32 = raw[at] as u32 + raw[at + 1] as u32 * 256 + raw[at + 2] as u32 * 65536
            + raw[at + 3] as u32 * 16777216;
        let state = if code == RESIZING_CODE {
            WindowState::Resizing
        } else {
            WindowState::Other(code)
        };
        out.push(state);
        assert(out@ =~= decoded_states(raw@).subrange(0, i + 1));
        i = i + 1;
    }
    assert(out@ =~= decoded_states(raw@));
    out
}

/// Whether the list holds the "resizing" state.
pub fn has_resizing(states: &[WindowState]) -> (r: bool)
    ensures
        r == states@.contains(WindowState::Resizing),
{
    let mut i: usize = 0;
    while i < states.len()
        invariant
            i <= states@.len(),
            forall|j: int| 0 <= j < i ==> states@[j] != WindowState::Resizing,
        decreases states@.len() - i,
    {
        if states[i] == WindowState::Resizing {
            assert(states@[i as int] == WindowState::Resizing);
            return true;
        }
        i = i + 1;
    }
    false
}

} // verus!
