//! ANSI-coloured byte strings.
//!
//! A `ColorString` is a byte buffer that tool output and status lines
//! are assembled into; colour changes append ANSI escape sequences
//! produced by termcolor.

use vstd::prelude::*;
use crate::bytes::push_all;

verus! {

/// Escape byte that starts every ANSI control sequence.
pub const ESC: u8 = 27;

/// The foreground colours the build tool uses.
#[derive(Clone, Copy, PartialEq, Eq, Structural, Debug)]
pub enum Color {
    Red,
    Green,
    Yellow,
    Magenta,
    Cyan,
    White,
}

/// The ANSI digit of a colour, as in `ESC[3<digit>m`.
pub open spec fn spec_color_digit(c: Color) -> u8 {
    match c {
        Color::Red => 49,
        Color::Green => 50,
        Color::Yellow => 51,
        Color::Magenta => 53,
        Color::Cyan => 54,
        Color::White => 55,
    }
}

/// `ESC[0m`: reset all attributes.
pub open spec fn spec_ansi_reset() -> Seq<u8> {
    seq![ESC, 91, 48, 109]
}

/// `ESC[1m`: bold.
pub open spec fn spec_ansi_bold() -> Seq<u8> {
    seq![ESC, 91, 49, 109]
}

/// `ESC[3<digit>m`: foreground colour.
pub open spec fn spec_ansi_fg(c: Color) -> Seq<u8> {
    seq![ESC, 91, 51, spec_color_digit(c), 109]
}

/// What termcolor emits for a fresh spec with the given bold flag and
/// optional foreground: a reset, then bold, then the colour.
pub open spec fn spec_ansi(fg: Option<Color>, bold: bool) -> Seq<u8> {
    spec_ansi_reset()
        + (if bold { spec_ansi_bold() } else { Seq::<u8>::empty() })
        + (match fg {
            Some(c) => spec_ansi_fg(c),
            None => Seq::<u8>::empty(),
        })
}

/// Relies on termcolor's Ansi writer: `reset` writes `ESC[0m`.
#[verifier::external_body]
fn ansi_reset_bytes() -> (r: Vec<u8>)
    ensures
        r@ == spec_ansi_reset(),
{
    let mut w = termcolor::Ansi::new(Vec::new());
    let _ = termcolor::WriteColor::reset(&mut w);
    w.into_inner()
}

/// Relies on termcolor's Ansi writer: `set_color` with a fresh spec
/// (which keeps its `reset` flag) writes `ESC[0m`, then `ESC[1m` when
/// bold, then `ESC[3<digit>m` for a non-intense foreground colour.
#[verifier::external_body]
fn ansi_spec_bytes(fg: Option<Color>, bold: bool) -> (r: Vec<u8>)
    ensures
        r@ == spec_ansi(fg, bold),
{
    let mut spec = termcolor::ColorSpec::new();
    spec.set_bold(bold);
    spec.set_fg(match fg {
        Some(Color::Red) => Some(termcolor::Color::Red),
        Some(Color::Green) => Some(termcolor::Color::Green),
        Some(Color::Yellow) => Some(termcolor::Color::Yellow),
        Some(Color::Magenta) => Some(termcolor::Color::Magenta),
        Some(Color::Cyan) => Some(termcolor::Color::Cyan),
        Some(Color::White) => Some(termcolor::Color::White),
        None => None,
    });
    let mut w = termcolor::Ansi::new(Vec::new());
    let _ = termcolor::WriteColor::set_color(&mut w, &spec);
    w.into_inner()
}

/// A byte string that may hold ANSI colour escapes.
#[derive(Clone, PartialEq, Eq, Debug)]
pub struct ColorString {
    data: Vec<u8>,
}

impl View for ColorString {
    type V = Seq<u8>;

    closed spec fn view(&self) -> Seq<u8> {
        self.data@
    }
}

impl ColorString {
    /// Empty string.
    pub fn new() -> (r: Self)
        ensures
            r@ == Seq::<u8>::empty(),
    {
        ColorString { data: Vec::new() }
    }

    /// Take ownership of raw bytes.
    pub fn from_vec(data: Vec<u8>) -> (r: Self)
        ensures
            r@ == data@,
    {
        ColorString { data }
    }

    /// Copy a byte slice.
    pub fn from_slice(data: &[u8]) -> (r: Self)
        ensures
            r@ == data@,
    {
        let mut v: Vec<u8> = Vec::new();
        push_all(&mut v, data);
        ColorString { data: v }
    }

    /// No bytes yet?
    pub fn is_empty(&self) -> (r: bool)
        ensures
            r <==> self@.len() == 0,
    {
        self.data.len() == 0
    }

    /// Number of bytes.
    pub fn len(&self) -> (r: usize)
        ensures
            r == self@.len(),
    {
        self.data.len()
    }

    /// The bytes themselves.
    pub fn as_bytes(&self) -> (r: &[u8])
        ensures
            r@ == self@,
    {
        self.data.as_slice()
    }

    /// The bytes, giving up the string.
    pub fn into_vec(self) -> (r: Vec<u8>)
        ensures
            r@ == self@,
    {
        self.data
    }

    /// Drop all bytes.
    pub fn clear(&mut self)
        ensures
            final(self)@ == Seq::<u8>::empty(),
    {
        self.data.clear();
    }

    /// Append one byte.
    pub fn push(&mut self, b: u8)
        ensures
            final(self)@ == old(self)@.push(b),
    {
        self.data.push(b);
    }

    /// Append a byte slice.
    pub fn push_bytes(&mut self, s: &[u8])
        ensures
            final(self)@ == old(self)@ + s@,
    {
        push_all(&mut self.data, s);
    }

    /// Append an ANSI reset.
    pub fn reset_color(&mut self)
        ensures
            final(self)@ == old(self)@ + spec_ansi_reset(),
    {
        let esc = ansi_reset_bytes();
        push_all(&mut self.data, esc.as_slice());
    }

    /// Append an ANSI colour change.
    pub fn set_color(&mut self, color: Color)
        ensures
            final(self)@ == old(self)@ + spec_ansi(Some(color), false),
    {
        let esc = ansi_spec_bytes(Some(color), false);
        push_all(&mut self.data, esc.as_slice());
    }

    /// Append an ANSI bold change, optionally with a colour.
    pub fn set_bold(&mut self, color: Option<Color>)
        ensures
            final(self)@ == old(self)@ + spec_ansi(color, true),
    {
        let esc = ansi_spec_bytes(color, true);
        push_all(&mut self.data, esc.as_slice());
    }

    /// Append a slice in the given colour, bold, resetting afterwards.
    pub fn write_bold(&mut self, s: &[u8], color: Option<Color>)
        ensures
            final(self)@ == old(self)@ + spec_ansi(color, true) + s@ + spec_ansi_reset(),
    {
        self.set_bold(color);
        self.push_bytes(s);
        self.reset_color();
    }
}

} // verus!
