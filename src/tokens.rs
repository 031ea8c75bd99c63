//! Escape sequences, as termion renders them.
use vstd::prelude::*;

verus! {

/// A truecolor value: red, green and blue components.
#[derive(Clone, Copy, Debug, PartialEq, Eq, Structural)]
pub struct Rgb {
    pub r: u8,
    pub g: u8,
    pub b: u8,
}

/// The decimal digit `d`.
pub open spec fn digit(d: nat) -> char
    recommends
        d < 10,
{
    seq!['0', '1', '2', '3', '4', '5', '6', '7', '8', '9'][d as int]
}

/// The decimal numeral of `n`, without leading zeros.
pub open spec fn dec(n: nat) -> Seq<char>
    decreases n,
{
    if n < 10 {
        seq![digit(n)]
    } else {
        dec(n / 10) + seq![digit(n % 10)]
    }
}

/// A control sequence: ESC, `[`, then `body`.
pub open spec fn csi(body: Seq<char>) -> Seq<char> {
    seq!['\x1b', '['] + body
}

pub open spec fn hide_seq() -> Seq<char> {
    csi(seq!['?', '2', '5', 'l'])
}

pub open spec fn show_seq() -> Seq<char> {
    csi(seq!['?', '2', '5', 'h'])
}

pub open spec fn clear_all_seq() -> Seq<char> {
    csi(seq!['2', 'J'])
}

pub open spec fn bold_seq() -> Seq<char> {
    csi(seq!['1', 'm'])
}

pub open spec fn italic_seq() -> Seq<char> {
    csi(seq!['3', 'm'])
}

pub open spec fn reset_seq() -> Seq<char> {
    csi(seq!['m'])
}

/// Moves the cursor to column `x`, row `y` (one-based): the row comes first.
pub open spec fn goto_seq(x: u16, y: u16) -> Seq<char> {
    csi(dec(y as nat) + seq![';'] + dec(x as nat) + seq!['H'])
}

/// The components of a color, as `r;g;b`.
pub open spec fn rgb_params(c: Rgb) -> Seq<char> {
    dec(c.r as nat) + seq![';'] + dec(c.g as nat) + seq![';'] + dec(c.b as nat)
}

/// Sets the background color.
pub open spec fn bg_seq(c: Rgb) -> Seq<char> {
    csi(seq!['4', '8', ';', '2', ';'] + rgb_params(c) + seq!['m'])
}

/// Sets the foreground color.
pub open spec fn fg_seq(c: Rgb) -> Seq<char> {
    csi(seq!['3', '8', ';', '2', ';'] + rgb_params(c) + seq!['m'])
}

/// Relies on termion's `cursor::Hide`, displayed: `ESC [ ? 2 5 l`.
#[verifier::external_body]
pub(crate) fn hide_token() -> (r: String)
    ensures
        r@ == hide_seq(),
{
    format!("{}", termion::cursor::Hide)
}

/// Relies on termion's `cursor::Show`, displayed: `ESC [ ? 2 5 h`.
#[verifier::external_body]
pub(crate) fn show_token() -> (r: String)
    ensures
        r@ == show_seq(),
{
    format!("{}", termion::cursor::Show)
}

/// Relies on termion's `clear::All`, displayed: `ESC [ 2 J`.
#[verifier::external_body]
pub(crate) fn clear_all_token() -> (r: String)
    ensures
        r@ == clear_all_seq(),
{
    format!("{}", termion::clear::All)
}

/// Relies on termion's `style::Bold`, displayed: `ESC [ 1 m`.
#[verifier::external_body]
pub(crate) fn bold_token() -> (r: String)
    ensures
        r@ == bold_seq(),
{
    format!("{}", termion::style::Bold)
}

/// Relies on termion's `style::Italic`, displayed: `ESC [ 3 m`.
#[verifier::external_body]
pub(crate) fn italic_token() -> (r: String)
    ensures
        r@ == italic_seq(),
{
    format!("{}", termion::style::Italic)
}

/// Relies on termion's `style::Reset`, displayed: `ESC [ m`.
#[verifier::external_body]
pub(crate) fn reset_token() -> (r: String)
    ensures
        r@ == reset_seq(),
{
    format!("{}", termion::style::Reset)
}

/// Relies on termion's `From<cursor::Goto> for String`: `ESC [`, the row and
/// the column in decimal with `;` between them, then `H`.
#[verifier::external_body]
pub(crate) fn goto_token(x: u16, y: u16) -> (r: String)
    ensures
        r@ == goto_seq(x, y),
{
    String::from(termion::cursor::Goto(x, y))
}

/// Relies on termion's `color::Rgb::bg_string`: `ESC [ 4 8 ; 2 ;`, the three
/// components in decimal with `;` between them, then `m`.
#[verifier::external_body]
pub(crate) fn bg_token(c: Rgb) -> (r: String)
    ensures
        r@ == bg_seq(c),
{
    termion::color::Rgb(c.r, c.g, c.b).bg_string()
}

/// Relies on termion's `color::Rgb::fg_string`: `ESC [ 3 8 ; 2 ;`, the three
/// components in decimal with `;` between them, then `m`.
#[verifier::external_body]
pub(crate) fn fg_token(c: Rgb) -> (r: String)
    ensures
        r@ == fg_seq(c),
{
    termion::color::Rgb(c.r, c.g, c.b).fg_string()
}

} // verus!
