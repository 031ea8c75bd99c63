//! A terminal session: its size, its mode stack, and the output it has
//! composed but not yet handed to the terminal.
use vstd::prelude::*;
use vstd::string::StringExecFns;

use crate::mode::{mode_of, ModeStack};
use crate::tokens::{
    bg_seq, bg_token, bold_seq, bold_token, clear_all_seq, clear_all_token, fg_seq, fg_token,
    goto_seq, goto_token, hide_seq, hide_token, italic_seq, italic_token, reset_seq, reset_token,
    show_seq, show_token, Rgb,
};

verus! {

/// What `begin` emits: hide the cursor, then clear the whole screen.
pub open spec fn begin_seq() -> Seq<char> {
    hide_seq() + clear_all_seq()
}

/// What `fin` emits: show the cursor.
pub open spec fn fin_seq() -> Seq<char> {
    show_seq()
}

/// The style tokens that the flags select: bold for bit 0, then italic for
/// bit 1. Other bits select nothing.
pub open spec fn style_prefix(st: u16) -> Seq<char> {
    (if st & 1 != 0 { bold_seq() } else { Seq::empty() })
        + (if st & 2 != 0 { italic_seq() } else { Seq::empty() })
}

/// What `wr` emits: the selected styles, the cursor move, the background and
/// foreground colors, the message itself, and a style reset.
pub open spec fn wr_seq(x: u16, y: u16, st: u16, bg: Rgb, fg: Rgb, msg: Seq<char>) -> Seq<char> {
    style_prefix(st) + goto_seq(x, y) + bg_seq(bg) + fg_seq(fg) + msg + reset_seq()
}

/// `begin` followed at once by `fin` leaves, after what was there before, the
/// cursor-hide directive, then the screen clear, and last the cursor-show
/// directive: no drawing is needed in between.
pub proof fn lemma_begin_then_fin(out: Seq<char>)
    ensures
        ({
            let s = out + begin_seq() + fin_seq();
            let a = out.len() as int;
            let b = a + hide_seq().len();
            let c = a + begin_seq().len();
            &&& s.subrange(0, a) == out
            &&& s.subrange(a, b) == hide_seq()
            &&& s.subrange(b, c) == clear_all_seq()
            &&& s.subrange(c, s.len() as int) == show_seq()
        }),
{
    let s = out + begin_seq() + fin_seq();
    let a = out.len() as int;
    let b = a + hide_seq().len();
    let c = a + begin_seq().len();
    assert(s.subrange(0, a) =~= out);
    assert(s.subrange(a, b) =~= hide_seq());
    assert(s.subrange(b, c) =~= clear_all_seq());
    assert(s.subrange(c, s.len() as int) =~= show_seq());
}

/// Bits of the style flags above bit 1 change nothing that `wr` emits.
pub proof fn lemma_high_style_bits_ignored(
    x: u16,
    y: u16,
    st: u16,
    bg: Rgb,
    fg: Rgb,
    msg: Seq<char>,
)
    ensures
        wr_seq(x, y, st, bg, fg, msg) == wr_seq(x, y, st & 3, bg, fg, msg),
{
    assert((st & 3) & 1 == st & 1) by (bit_vector);
    assert((st & 3) & 2 == st & 2) by (bit_vector);
}

/// A terminal session. `w` and `h` are the terminal's columns and rows as
/// reported when the session was made; `out` holds what the session has
/// composed and the caller has not yet taken to write to the terminal.
pub struct Termioff {
    pub w: u16,
    pub h: u16,
    pub mode: ModeStack,
    pub out: String,
}

impl Termioff {
    /// The session keeps its size and mode stack; only its output changes.
    pub open spec fn same_terminal(&self, other: &Termioff) -> bool {
        self.w == other.w && self.h == other.h && self.mode == other.mode
    }

    /// A session over a terminal of `w` columns and `h` rows, in the mode
    /// stack that code `k` selects, with nothing composed yet. The size is
    /// kept as given, zero included.
    pub fn new(k: u16, w: u16, h: u16) -> (t: Termioff)
        ensures
            t.w == w,
            t.h == h,
            t.mode == mode_of(k),
            t.out@ == Seq::<char>::empty(),
    {
        Termioff { w, h, mode: ModeStack::from_code(k), out: String::new() }
    }

    /// Hides the cursor and clears the screen.
    pub fn begin(&mut self)
        ensures
            final(self).out@ == old(self).out@ + begin_seq(),
            final(self).same_terminal(old(self)),
    {
        let hide = hide_token();
        let clear = clear_all_token();
        self.out.append(hide.as_str());
        self.out.append(clear.as_str());
    }

    /// Shows the cursor again.
    pub fn fin(&mut self)
        ensures
            final(self).out@ == old(self).out@ + fin_seq(),
            final(self).same_terminal(old(self)),
    {
        let show = show_token();
        self.out.append(show.as_str());
    }

    /// Emits a styling token as it is. It stays in effect until a reset.
    pub fn style(&mut self, s: &str)
        ensures
            final(self).out@ == old(self).out@ + s@,
            final(self).same_terminal(old(self)),
    {
        self.out.append(s);
    }

    /// Writes `msg` at column `x`, row `y` (one-based) in the colors `bg` and
    /// `fg`, bold where bit 0 of `st` is set and italic where bit 1 is, and
    /// resets the style after it.
    pub fn wr(&mut self, x: u16, y: u16, st: u16, bg: Rgb, fg: Rgb, msg: &String)
        ensures
            final(self).out@ == old(self).out@ + wr_seq(x, y, st, bg, fg, msg@),
            final(self).same_terminal(old(self)),
    {
        if st & 1 != 0 {
            let bold = bold_token();
            self.style(bold.as_str());
        }
        if st & 2 != 0 {
            let italic = italic_token();
            self.style(italic.as_str());
        }
        let goto = goto_token(x, y);
        let bgc = bg_token(bg);
        let fgc = fg_token(fg);
        let reset = reset_token();
        self.out.append(goto.as_str());
        self.out.append(bgc.as_str());
        self.out.append(fgc.as_str());
        self.out.append(msg.as_str());
        self.out.append(reset.as_str());
    }

    /// Hands over what has been composed so far and starts afresh.
    pub fn take_output(&mut self) -> (r: String)
        ensures
            r@ == old(self).out@,
            final(self).out@ == Seq::<char>::empty(),
            final(self).same_terminal(old(self)),
    {
        let r = self.out.clone();
        self.out = String::new();
        r
    }
}

} // verus!
