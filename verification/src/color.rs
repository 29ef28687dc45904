//! Color values and their canonical wire strings.
//!
//! A color may be supplied in four shapes: a named symbolic color, an RGB
//! triple, an RGBA quadruple, or a raw string passed through verbatim. Each
//! shape has exactly one wire form; no validation is performed on raw
//! strings, since the external schema accepts many free-form spellings.

use vstd::prelude::*;

use crate::wire::{dec_wire, esc, json_dec, json_u64, str_wire, u64_wire, DecNum};

verus! {

/// A named symbolic color of the external schema.
#[derive(Debug, Clone, Copy)]
pub enum NamedColor {
    Black,
    Blue,
    Brown,
    Cyan,
    DarkBlue,
    DarkGray,
    DarkGreen,
    DarkRed,
    Gold,
    Gray,
    Green,
    Indigo,
    Lime,
    Magenta,
    Maroon,
    Navy,
    Olive,
    Orange,
    Pink,
    Purple,
    Red,
    Silver,
    Teal,
    Transparent,
    Violet,
    White,
    Yellow,
}

impl NamedColor {
    /// The token of this named color in the external schema.
    pub open spec fn tag_spec(&self) -> Seq<char> {
        match self {
            NamedColor::Black => "black"@,
            NamedColor::Blue => "blue"@,
            NamedColor::Brown => "brown"@,
            NamedColor::Cyan => "cyan"@,
            NamedColor::DarkBlue => "darkblue"@,
            NamedColor::DarkGray => "darkgray"@,
            NamedColor::DarkGreen => "darkgreen"@,
            NamedColor::DarkRed => "darkred"@,
            NamedColor::Gold => "gold"@,
            NamedColor::Gray => "gray"@,
            NamedColor::Green => "green"@,
            NamedColor::Indigo => "indigo"@,
            NamedColor::Lime => "lime"@,
            NamedColor::Magenta => "magenta"@,
            NamedColor::Maroon => "maroon"@,
            NamedColor::Navy => "navy"@,
            NamedColor::Olive => "olive"@,
            NamedColor::Orange => "orange"@,
            NamedColor::Pink => "pink"@,
            NamedColor::Purple => "purple"@,
            NamedColor::Red => "red"@,
            NamedColor::Silver => "silver"@,
            NamedColor::Teal => "teal"@,
            NamedColor::Transparent => "transparent"@,
            NamedColor::Violet => "violet"@,
            NamedColor::White => "white"@,
            NamedColor::Yellow => "yellow"@,
        }
    }

    pub fn tag(&self) -> (r: &'static str)
        ensures
            r@ == self.tag_spec(),
    {
        match self {
            NamedColor::Black => "black",
            NamedColor::Blue => "blue",
            NamedColor::Brown => "brown",
            NamedColor::Cyan => "cyan",
            NamedColor::DarkBlue => "darkblue",
            NamedColor::DarkGray => "darkgray",
            NamedColor::DarkGreen => "darkgreen",
            NamedColor::DarkRed => "darkred",
            NamedColor::Gold => "gold",
            NamedColor::Gray => "gray",
            NamedColor::Green => "green",
            NamedColor::Indigo => "indigo",
            NamedColor::Lime => "lime",
            NamedColor::Magenta => "magenta",
            NamedColor::Maroon => "maroon",
            NamedColor::Navy => "navy",
            NamedColor::Olive => "olive",
            NamedColor::Orange => "orange",
            NamedColor::Pink => "pink",
            NamedColor::Purple => "purple",
            NamedColor::Red => "red",
            NamedColor::Silver => "silver",
            NamedColor::Teal => "teal",
            NamedColor::Transparent => "transparent",
            NamedColor::Violet => "violet",
            NamedColor::White => "white",
            NamedColor::Yellow => "yellow",
        }
    }
}

/// A color value in one of the four accepted shapes.
#[derive(Debug, Clone)]
pub enum Color {
    /// A named symbolic color; its wire string is the color's token.
    Named(NamedColor),
    /// An RGB triple; its wire string is `rgb(r, g, b)`.
    Rgb(u8, u8, u8),
    /// An RGBA quadruple with a decimal alpha between 0 and 1; its wire
    /// string is `rgba(r, g, b, a)`.
    Rgba(u8, u8, u8, DecNum),
    /// A raw color string (for example a hex code), passed through verbatim.
    Raw(String),
}

/// The canonical wire string of a color value, before JSON quoting.
pub open spec fn color_wire(c: Color) -> Seq<char> {
    match c {
        Color::Named(n) => n.tag_spec(),
        Color::Rgb(r, g, b) => "rgb("@ + u64_wire(r as nat) + ", "@ + u64_wire(g as nat) + ", "@
            + u64_wire(b as nat) + ")"@,
        Color::Rgba(r, g, b, a) => "rgba("@ + u64_wire(r as nat) + ", "@ + u64_wire(g as nat)
            + ", "@ + u64_wire(b as nat) + ", "@ + dec_wire(a) + ")"@,
        Color::Raw(s) => s@,
    }
}

/// The JSON fragment of a color field: the color's wire string as a quoted
/// JSON string.
pub open spec fn color_frag(c: Color) -> Seq<char> {
    str_wire(color_wire(c))
}

impl Color {
    /// The canonical wire string of this color (not yet JSON-quoted).
    pub fn to_wire(&self) -> (r: String)
        ensures
            r@ == color_wire(*self),
    {
        match self {
            Color::Named(n) => String::from_str(n.tag()),
            Color::Rgb(r, g, b) => {
                let mut out = String::from_str("rgb(");
                out.append(json_u64(*r as u64).as_str());
                out.append(", ");
                out.append(json_u64(*g as u64).as_str());
                out.append(", ");
                out.append(json_u64(*b as u64).as_str());
                out.append(")");
                assert(out@ =~= color_wire(*self));
                out
            },
            Color::Rgba(r, g, b, a) => {
                let mut out = String::from_str("rgba(");
                out.append(json_u64(*r as u64).as_str());
                out.append(", ");
                out.append(json_u64(*g as u64).as_str());
                out.append(", ");
                out.append(json_u64(*b as u64).as_str());
                out.append(", ");
                out.append(json_dec(a).as_str());
                out.append(")");
                assert(out@ =~= color_wire(*self));
                out
            },
            Color::Raw(s) => s.clone(),
        }
    }

    /// The JSON fragment of this color: its wire string, quoted and escaped.
    pub fn to_frag(&self) -> (r: String)
        ensures
            r@ == color_frag(*self),
    {
        let w = self.to_wire();
        crate::wire::json_string(w.as_str())
    }
}

/// The JSON fragments of a sequence of colors.
pub open spec fn color_frags(s: Seq<Color>) -> Seq<Seq<char>> {
    s.map_values(|c: Color| color_frag(c))
}

/// The JSON array of a vector of colors, each as its quoted wire string.
pub fn json_color_array(v: &Vec<Color>) -> (r: String)
    ensures
        r@ == crate::wire::arr_wire(color_frags(v@)),
{
    let mut w = crate::wire::ArrWriter::new();
    let mut i: usize = 0;
    while i < v.len()
        invariant
            w.wf(),
            i <= v.len(),
            w.items() =~= color_frags(v@.take(i as int)),
        decreases v.len() - i,
    {
        let frag = v[i].to_frag();
        w.elem(frag.as_str());
        proof {
            assert(color_frags(v@.take(i + 1)) =~= color_frags(v@.take(i as int)).push(
                color_frag(v@[i as int]),
            ));
        }
        i = i + 1;
    }
    proof {
        assert(v@.take(v.len() as int) =~= v@);
    }
    w.finish()
}

/// The canonical form of each accepted color shape: a named color is its
/// bare token, RGB and RGBA values are rendered inside `rgb(...)` and
/// `rgba(...)`, and a raw string passes through verbatim.
pub proof fn lemma_color_canonical_forms(n: NamedColor, r: u8, g: u8, b: u8, a: DecNum, s: String)
    ensures
        color_wire(Color::Named(n)) == n.tag_spec(),
        color_wire(Color::Rgb(r, g, b)) == "rgb("@ + u64_wire(r as nat) + ", "@ + u64_wire(
            g as nat,
        ) + ", "@ + u64_wire(b as nat) + ")"@,
        color_wire(Color::Rgba(r, g, b, a)) == "rgba("@ + u64_wire(r as nat) + ", "@ + u64_wire(
            g as nat,
        ) + ", "@ + u64_wire(b as nat) + ", "@ + dec_wire(a) + ")"@,
        color_wire(Color::Raw(s)) == s@,
{
}

} // verus!
