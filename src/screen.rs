use vstd::prelude::*;
use crate::schedule::{Color, Frame, Label, label_color};

verus! {

/// The decimal digit `d`, for `d < 10`.
pub open spec fn digit(d: nat) -> char {
    seq!['0', '1', '2', '3', '4', '5', '6', '7', '8', '9'][d as int]
}

/// `n` written in decimal, without leading zeros.
pub open spec fn decimal(n: nat) -> Seq<char>
    decreases n,
{
    if n < 10 {
        seq![digit(n)]
    } else {
        decimal(n / 10).push(digit(n % 10))
    }
}

/// The sequence that sets the foreground colour `c`.
pub open spec fn fg_seq(c: Color) -> Seq<char> {
    match c {
        Color::Blue => "\x1B[38;5;4m"@,
        Color::Red => "\x1B[38;5;1m"@,
        Color::Green => "\x1B[38;5;2m"@,
    }
}

/// The sequence that clears the whole screen.
pub open spec fn clear_seq() -> Seq<char> {
    "\x1B[2J"@
}

/// The sequence that moves the cursor to the upper left corner.
pub open spec fn home_seq() -> Seq<char> {
    "\x1B[1;1H"@
}

/// The sequence that restores the default foreground colour.
pub open spec fn reset_seq() -> Seq<char> {
    "\x1B[39m"@
}

/// The words that name a phase.
pub open spec fn label_text(l: Label) -> Seq<char> {
    match l {
        Label::Intro => "Starting in"@,
        Label::Rep { rep, total } => "Rep "@ + decimal(rep as nat) + "/"@ + decimal(total as nat),
        Label::Relax => "Relax!"@,
    }
}

/// A whole screen holding `body` alone, from the upper left corner, with
/// the colour reset after it.
pub open spec fn message_screen(body: Seq<char>) -> Seq<char> {
    clear_seq() + home_seq() + body + reset_seq()
}

/// The screen of one frame: the label in its phase's colour, and below it
/// the seconds left, in blue.
pub open spec fn frame_screen(f: Frame) -> Seq<char> {
    message_screen(
        fg_seq(label_color(f.label)) + label_text(f.label) + "\n"@ + fg_seq(Color::Blue) + decimal(
            f.seconds as nat,
        ) + "s"@,
    )
}

/// Relies on the `Display` impl of `u32`, which writes the number in
/// decimal.
#[verifier::external_body]
fn decimal_text(n: u32) -> (r: String)
    ensures
        r@ == decimal(n as nat),
{
    n.to_string()
}

/// Relies on termion's `clear::All` as a `str`: `CSI 2J`.
#[verifier::external_body]
fn clear_all() -> (r: &'static str)
    ensures
        r@ == clear_seq(),
{
    <termion::clear::All as AsRef<str>>::as_ref(&termion::clear::All)
}

/// Relies on termion's `String::from(cursor::Goto(1, 1))`: `CSI 1;1H`.
#[verifier::external_body]
fn cursor_home() -> (r: String)
    ensures
        r@ == home_seq(),
{
    String::from(termion::cursor::Goto(1, 1))
}

/// Relies on termion's `color::Blue::fg_str`: `CSI 38;5;4m`.
#[verifier::external_body]
fn fg_blue() -> (r: &'static str)
    ensures
        r@ == fg_seq(Color::Blue),
{
    termion::color::Blue.fg_str()
}

/// Relies on termion's `color::Red::fg_str`: `CSI 38;5;1m`.
#[verifier::external_body]
fn fg_red() -> (r: &'static str)
    ensures
        r@ == fg_seq(Color::Red),
{
    termion::color::Red.fg_str()
}

/// Relies on termion's `color::Green::fg_str`: `CSI 38;5;2m`.
#[verifier::external_body]
fn fg_green() -> (r: &'static str)
    ensures
        r@ == fg_seq(Color::Green),
{
    termion::color::Green.fg_str()
}

/// Relies on termion's `color::Reset::fg_str`: `CSI 39m`.
#[verifier::external_body]
fn fg_reset() -> (r: &'static str)
    ensures
        r@ == reset_seq(),
{
    termion::color::Reset.fg_str()
}

fn fg(c: Color) -> (r: &'static str)
    ensures
        r@ == fg_seq(c),
{
    match c {
        Color::Blue => fg_blue(),
        Color::Red => fg_red(),
        Color::Green => fg_green(),
    }
}

fn phase_name(l: &Label) -> (r: String)
    ensures
        r@ == label_text(*l),
{
    match l {
        Label::Intro => String::from_str("Starting in"),
        Label::Rep { rep, total } => {
            let mut s = String::from_str("Rep ");
            s.append(decimal_text(*rep).as_str());
            s.append("/");
            s.append(decimal_text(*total).as_str());
            s
        },
        Label::Relax => String::from_str("Relax!"),
    }
}

/// Text that shows `body` alone on a cleared screen, from the upper left
/// corner, and resets the colour after it.
pub fn message_screen_text(body: &str) -> (r: String)
    ensures
        r@ == message_screen(body@),
{
    let mut s = String::from_str(clear_all());
    s.append(cursor_home().as_str());
    s.append(body);
    s.append(fg_reset());
    s
}

/// The screen shown while the run is paused.
pub fn pause_screen_text() -> (r: String)
    ensures
        r@ == message_screen("PAUSE"@),
{
    message_screen_text("PAUSE")
}

/// The screen of one frame: its phase's name in the phase's colour, and on
/// the next line the seconds left, in blue.
pub fn frame_screen_text(f: &Frame) -> (r: String)
    ensures
        r@ == frame_screen(*f),
{
    let mut body = String::from_str(fg(f.label.color()));
    body.append(phase_name(&f.label).as_str());
    body.append("\n");
    body.append(fg(Color::Blue));
    body.append(decimal_text(f.seconds).as_str());
    body.append("s");
    let r = message_screen_text(body.as_str());
    assert(r@ =~= frame_screen(*f));
    r
}

} // verus!
