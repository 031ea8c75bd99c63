//! Which terminal modes a session enters.
use vstd::prelude::*;

verus! {

/// The writer stack over the raw terminal. Each name lists the layers from
/// the innermost out: `RawMouseAltScreen` is mouse capture around the
/// alternate screen around raw mode.
#[derive(Clone, Copy, Debug, PartialEq, Eq, Structural)]
pub enum ModeStack {
    Raw,
    RawAltScreen,
    RawMouse,
    RawMouseAltScreen,
    RawAltScreenMouse,
}

/// The stack a mode code selects: codes 1 to 4 pick one each; every other
/// code, 0 included, is raw mode alone.
pub open spec fn mode_of(k: u16) -> ModeStack {
    if k == 1 {
        ModeStack::RawAltScreen
    } else if k == 2 {
        ModeStack::RawMouse
    } else if k == 3 {
        ModeStack::RawMouseAltScreen
    } else if k == 4 {
        ModeStack::RawAltScreenMouse
    } else {
        ModeStack::Raw
    }
}

impl ModeStack {
    /// The stack that mode code `k` selects.
    pub fn from_code(k: u16) -> (m: ModeStack)
        ensures
            m == mode_of(k),
    {
        match k {
            4 => ModeStack::RawAltScreenMouse,
            3 => ModeStack::RawMouseAltScreen,
            2 => ModeStack::RawMouse,
            1 => ModeStack::RawAltScreen,
            _ => ModeStack::Raw,
        }
    }
}

/// A code outside 0 to 4 selects what code 0 selects: raw mode alone.
pub proof fn lemma_unknown_code_is_raw(k: u16)
    requires
        k > 4,
    ensures
        mode_of(k) == mode_of(0),
        mode_of(k) == ModeStack::Raw,
{
}

} // verus!
