//! Colours as the terminal grid states them, and the palette that resolves
//! them to RGB.
use vstd::prelude::*;

verus! {

/// An RGB colour.
#[derive(Clone, Copy, Debug, PartialEq, Eq, Structural)]
pub struct Rgb {
    pub r: u8,
    pub g: u8,
    pub b: u8,
}

impl Rgb {
    pub fn new(r: u8, g: u8, b: u8) -> (c: Rgb)
        ensures
            c == (Rgb { r, g, b }),
    {
        Rgb { r, g, b }
    }
}

/// The named colours of the terminal palette.
#[derive(Clone, Copy, Debug, PartialEq, Eq, Structural)]
pub enum NamedColor {
    Black,
    Red,
    Green,
    Yellow,
    Blue,
    Magenta,
    Cyan,
    White,
    BrightBlack,
    BrightRed,
    BrightGreen,
    BrightYellow,
    BrightBlue,
    BrightMagenta,
    BrightCyan,
    BrightWhite,
    Foreground,
    Background,
    Cursor,
    DimBlack,
    DimRed,
    DimGreen,
    DimYellow,
    DimBlue,
    DimMagenta,
    DimCyan,
    DimWhite,
    BrightForeground,
    DimForeground,
}

/// A cell's colour: a named palette entry, a direct RGB value, or an entry
/// of the 256-colour table.
#[derive(Clone, Copy, Debug, PartialEq, Eq, Structural)]
pub enum TermColor {
    Named(NamedColor),
    Spec(Rgb),
    Indexed(u8),
}

/// The number of palette entries: the 256-colour table, then the
/// foreground, background, cursor, dim and bright entries.
pub const COLOR_COUNT: usize = 269;

/// The palette slot of a named colour. The sixteen base colours share their
/// slots with the first sixteen entries of the 256-colour table.
pub open spec fn named_slot(n: NamedColor) -> nat {
    match n {
        NamedColor::Black => 0,
        NamedColor::Red => 1,
        NamedColor::Green => 2,
        NamedColor::Yellow => 3,
        NamedColor::Blue => 4,
        NamedColor::Magenta => 5,
        NamedColor::Cyan => 6,
        NamedColor::White => 7,
        NamedColor::BrightBlack => 8,
        NamedColor::BrightRed => 9,
        NamedColor::BrightGreen => 10,
        NamedColor::BrightYellow => 11,
        NamedColor::BrightBlue => 12,
        NamedColor::BrightMagenta => 13,
        NamedColor::BrightCyan => 14,
        NamedColor::BrightWhite => 15,
        NamedColor::Foreground => 256,
        NamedColor::Background => 257,
        NamedColor::Cursor => 258,
        NamedColor::DimBlack => 259,
        NamedColor::DimRed => 260,
        NamedColor::DimGreen => 261,
        NamedColor::DimYellow => 262,
        NamedColor::DimBlue => 263,
        NamedColor::DimMagenta => 264,
        NamedColor::DimCyan => 265,
        NamedColor::DimWhite => 266,
        NamedColor::BrightForeground => 267,
        NamedColor::DimForeground => 268,
    }
}

/// The palette slot of a named colour.
pub fn named_slot_index(n: NamedColor) -> (i: usize)
    ensures
        i == named_slot(n),
        i < COLOR_COUNT,
{
    match n {
        NamedColor::Black => 0,
        NamedColor::Red => 1,
        NamedColor::Green => 2,
        NamedColor::Yellow => 3,
        NamedColor::Blue => 4,
        NamedColor::Magenta => 5,
        NamedColor::Cyan => 6,
        NamedColor::White => 7,
        NamedColor::BrightBlack => 8,
        NamedColor::BrightRed => 9,
        NamedColor::BrightGreen => 10,
        NamedColor::BrightYellow => 11,
        NamedColor::BrightBlue => 12,
        NamedColor::BrightMagenta => 13,
        NamedColor::BrightCyan => 14,
        NamedColor::BrightWhite => 15,
        NamedColor::Foreground => 256,
        NamedColor::Background => 257,
        NamedColor::Cursor => 258,
        NamedColor::DimBlack => 259,
        NamedColor::DimRed => 260,
        NamedColor::DimGreen => 261,
        NamedColor::DimYellow => 262,
        NamedColor::DimBlue => 263,
        NamedColor::DimMagenta => 264,
        NamedColor::DimCyan => 265,
        NamedColor::DimWhite => 266,
        NamedColor::BrightForeground => 267,
        NamedColor::DimForeground => 268,
    }
}

/// A full palette: one RGB value for each of the `COLOR_COUNT` slots.
pub struct ColorList {
    colors: Vec<Rgb>,
}

impl View for ColorList {
    type V = Seq<Rgb>;

    closed spec fn view(&self) -> Seq<Rgb> {
        self.colors@
    }
}

impl ColorList {
    #[verifier::type_invariant]
    spec fn full(self) -> bool {
        self.colors.len() == COLOR_COUNT
    }

    /// A palette from its slots in order; `None` unless there are exactly
    /// `COLOR_COUNT` of them.
    pub fn from_vec(colors: Vec<Rgb>) -> (r: Option<ColorList>)
        ensures
            r is Some <==> colors.len() == COLOR_COUNT,
            r matches Some(l) ==> l@ == colors@,
    {
        if colors.len() == COLOR_COUNT {
            Some(ColorList { colors })
        } else {
            None
        }
    }

    /// The colour in palette slot `i`.
    pub fn slot(&self, i: usize) -> (c: Rgb)
        requires
            i < COLOR_COUNT,
        ensures
            c == self@[i as int],
    {
        proof {
            use_type_invariant(self);
        }
        self.colors[i]
    }

    /// The colour of a named entry.
    pub fn named(&self, n: NamedColor) -> (c: Rgb)
        ensures
            c == self@[named_slot(n) as int],
    {
        let i = named_slot_index(n);
        self.slot(i)
    }

    /// The colour of an entry of the 256-colour table.
    pub fn indexed(&self, i: u8) -> (c: Rgb)
        ensures
            c == self@[i as int],
    {
        let j: usize = i as usize;
        self.slot(j)
    }
}

} // verus!
