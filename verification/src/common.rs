//! Shared configuration entities and enums used across layout components.
//!
//! Every entity follows the same protocol: a fresh instance has every field
//! unset, each setter consumes the instance and returns it with exactly one
//! field populated, and serialization emits only the fields that were set,
//! under their wire keys. The spec function `fields` of each entity lists
//! exactly the members of the serialized object, in order, so the contract
//! of `to_wire` pins the whole output down to the character.

use vstd::prelude::*;

use crate::color::{color_frag, Color};
use crate::values::{json_nos_array, nos_frags, NumOrString};
use crate::wire::{
    arr_wire, bool_wire, dec_wire, i64_wire, json_bool, json_dec, json_i64, json_string,
    json_u64, obj_wire, str_wire, u64_wire, ArrWriter, DecNum, ObjWriter,
};

verus! {

/// Where a positioned element is anchored relative to its coordinates.
#[derive(Debug, Clone, Copy)]
pub enum Anchor {
    Auto,
    Left,
    Center,
    Right,
    Top,
    Middle,
    Bottom,
}

impl Anchor {
    /// The wire token of this variant.
    pub open spec fn tag_spec(&self) -> Seq<char> {
        match self {
            Anchor::Auto => "auto"@,
            Anchor::Left => "left"@,
            Anchor::Center => "center"@,
            Anchor::Right => "right"@,
            Anchor::Top => "top"@,
            Anchor::Middle => "middle"@,
            Anchor::Bottom => "bottom"@,
        }
    }

    pub fn tag(&self) -> (r: &'static str)
        ensures
            r@ == self.tag_spec(),
    {
        match self {
            Anchor::Auto => "auto",
            Anchor::Left => "left",
            Anchor::Center => "center",
            Anchor::Right => "right",
            Anchor::Top => "top",
            Anchor::Middle => "middle",
            Anchor::Bottom => "bottom",
        }
    }
}
/// Vertical or horizontal orientation of an element.
#[derive(Debug, Clone, Copy)]
pub enum Orientation {
    Vertical,
    Horizontal,
}

impl Orientation {
    /// The wire token of this variant.
    pub open spec fn tag_spec(&self) -> Seq<char> {
        match self {
            Orientation::Vertical => "v"@,
            Orientation::Horizontal => "h"@,
        }
    }

    pub fn tag(&self) -> (r: &'static str)
        ensures
            r@ == self.tag_spec(),
    {
        match self {
            Orientation::Vertical => "v",
            Orientation::Horizontal => "h",
        }
    }
}
/// The side of the plot an element is placed on.
#[derive(Debug, Clone, Copy)]
pub enum Side {
    Right,
    Top,
    Bottom,
    Left,
}

impl Side {
    /// The wire token of this variant.
    pub open spec fn tag_spec(&self) -> Seq<char> {
        match self {
            Side::Right => "right"@,
            Side::Top => "top"@,
            Side::Bottom => "bottom"@,
            Side::Left => "left"@,
        }
    }

    pub fn tag(&self) -> (r: &'static str)
        ensures
            r@ == self.tag_spec(),
    {
        match self {
            Side::Right => "right",
            Side::Top => "top",
            Side::Bottom => "bottom",
            Side::Left => "left",
        }
    }
}
/// The calendar system used for date coordinates.
#[derive(Debug, Clone, Copy)]
pub enum Calendar {
    Gregorian,
    Chinese,
    Coptic,
    DiscWorld,
    Ethiopian,
    Hebrew,
    Islamic,
    Julian,
    Mayan,
    Nanakshahi,
    Nepali,
    Persian,
    Jalali,
    Taiwan,
    Thai,
    Ummalqura,
}

impl Calendar {
    /// The wire token of this variant.
    pub open spec fn tag_spec(&self) -> Seq<char> {
        match self {
            Calendar::Gregorian => "gregorian"@,
            Calendar::Chinese => "chinese"@,
            Calendar::Coptic => "coptic"@,
            Calendar::DiscWorld => "discworld"@,
            Calendar::Ethiopian => "ethiopian"@,
            Calendar::Hebrew => "hebrew"@,
            Calendar::Islamic => "islamic"@,
            Calendar::Julian => "julian"@,
            Calendar::Mayan => "mayan"@,
            Calendar::Nanakshahi => "nanakshahi"@,
            Calendar::Nepali => "nepali"@,
            Calendar::Persian => "persian"@,
            Calendar::Jalali => "jalali"@,
            Calendar::Taiwan => "taiwan"@,
            Calendar::Thai => "thai"@,
            Calendar::Ummalqura => "ummalqura"@,
        }
    }

    pub fn tag(&self) -> (r: &'static str)
        ensures
            r@ == self.tag_spec(),
    {
        match self {
            Calendar::Gregorian => "gregorian",
            Calendar::Chinese => "chinese",
            Calendar::Coptic => "coptic",
            Calendar::DiscWorld => "discworld",
            Calendar::Ethiopian => "ethiopian",
            Calendar::Hebrew => "hebrew",
            Calendar::Islamic => "islamic",
            Calendar::Julian => "julian",
            Calendar::Mayan => "mayan",
            Calendar::Nanakshahi => "nanakshahi",
            Calendar::Nepali => "nepali",
            Calendar::Persian => "persian",
            Calendar::Jalali => "jalali",
            Calendar::Taiwan => "taiwan",
            Calendar::Thai => "thai",
            Calendar::Ummalqura => "ummalqura",
        }
    }
}
/// The dash pattern of a drawn line.
#[derive(Debug, Clone, Copy)]
pub enum DashType {
    Solid,
    Dot,
    Dash,
    LongDash,
    DashDot,
    LongDashDot,
}

impl DashType {
    /// The wire token of this variant.
    pub open spec fn tag_spec(&self) -> Seq<char> {
        match self {
            DashType::Solid => "solid"@,
            DashType::Dot => "dot"@,
            DashType::Dash => "dash"@,
            DashType::LongDash => "longdash"@,
            DashType::DashDot => "dashdot"@,
            DashType::LongDashDot => "longdashdot"@,
        }
    }

    pub fn tag(&self) -> (r: &'static str)
        ensures
            r@ == self.tag_spec(),
    {
        match self {
            DashType::Solid => "solid",
            DashType::Dot => "dot",
            DashType::Dash => "dash",
            DashType::LongDash => "longdash",
            DashType::DashDot => "dashdot",
            DashType::LongDashDot => "longdashdot",
        }
    }
}
/// How an axis picks its tick positions.
#[derive(Debug, Clone, Copy)]
pub enum TickMode {
    Auto,
    Linear,
    Array,
}

impl TickMode {
    /// The wire token of this variant.
    pub open spec fn tag_spec(&self) -> Seq<char> {
        match self {
            TickMode::Auto => "auto"@,
            TickMode::Linear => "linear"@,
            TickMode::Array => "array"@,
        }
    }

    pub fn tag(&self) -> (r: &'static str)
        ensures
            r@ == self.tag_spec(),
    {
        match self {
            TickMode::Auto => "auto",
            TickMode::Linear => "linear",
            TickMode::Array => "array",
        }
    }
}
/// A named color scale of the external schema.
#[derive(Debug, Clone, Copy)]
pub enum ColorScalePalette {
    Greys,
    YlGnBu,
    Greens,
    YlOrRd,
    Bluered,
    RdBu,
    Reds,
    Blues,
    Picnic,
    Rainbow,
    Portland,
    Jet,
    Hot,
    Blackbody,
    Earth,
    Electric,
    Viridis,
    Cividis,
}

impl ColorScalePalette {
    /// The wire token of this variant.
    pub open spec fn tag_spec(&self) -> Seq<char> {
        match self {
            ColorScalePalette::Greys => "Greys"@,
            ColorScalePalette::YlGnBu => "YlGnBu"@,
            ColorScalePalette::Greens => "Greens"@,
            ColorScalePalette::YlOrRd => "YlOrRd"@,
            ColorScalePalette::Bluered => "Bluered"@,
            ColorScalePalette::RdBu => "RdBu"@,
            ColorScalePalette::Reds => "Reds"@,
            ColorScalePalette::Blues => "Blues"@,
            ColorScalePalette::Picnic => "Picnic"@,
            ColorScalePalette::Rainbow => "Rainbow"@,
            ColorScalePalette::Portland => "Portland"@,
            ColorScalePalette::Jet => "Jet"@,
            ColorScalePalette::Hot => "Hot"@,
            ColorScalePalette::Blackbody => "Blackbody"@,
            ColorScalePalette::Earth => "Earth"@,
            ColorScalePalette::Electric => "Electric"@,
            ColorScalePalette::Viridis => "Viridis"@,
            ColorScalePalette::Cividis => "Cividis"@,
        }
    }

    pub fn tag(&self) -> (r: &'static str)
        ensures
            r@ == self.tag_spec(),
    {
        match self {
            ColorScalePalette::Greys => "Greys",
            ColorScalePalette::YlGnBu => "YlGnBu",
            ColorScalePalette::Greens => "Greens",
            ColorScalePalette::YlOrRd => "YlOrRd",
            ColorScalePalette::Bluered => "Bluered",
            ColorScalePalette::RdBu => "RdBu",
            ColorScalePalette::Reds => "Reds",
            ColorScalePalette::Blues => "Blues",
            ColorScalePalette::Picnic => "Picnic",
            ColorScalePalette::Rainbow => "Rainbow",
            ColorScalePalette::Portland => "Portland",
            ColorScalePalette::Jet => "Jet",
            ColorScalePalette::Hot => "Hot",
            ColorScalePalette::Blackbody => "Blackbody",
            ColorScalePalette::Earth => "Earth",
            ColorScalePalette::Electric => "Electric",
            ColorScalePalette::Viridis => "Viridis",
            ColorScalePalette::Cividis => "Cividis",
        }
    }
}
/// One stop of an explicit color scale: a position between 0 and 1 paired
/// with a color string; serializes as a two-element array.
#[derive(Debug, Clone)]
pub struct ColorScaleElement(pub DecNum, pub String);

/// The wire fragment of a color scale stop: `[position, "color"]`.
pub open spec fn color_scale_element_frag(e: ColorScaleElement) -> Seq<char> {
    arr_wire(seq![dec_wire(e.0), str_wire(e.1@)])
}

impl ColorScaleElement {
    pub fn new(position: DecNum, color: &str) -> (r: ColorScaleElement)
        ensures
            r.0 == position,
            r.1@ == color@,
    {
        ColorScaleElement(position, color.to_owned())
    }

    pub fn to_wire(&self) -> (r: String)
        ensures
            r@ == color_scale_element_frag(*self),
    {
        let mut w = ArrWriter::new();
        let d = json_dec(&self.0);
        w.elem(d.as_str());
        let s = json_string(self.1.as_str());
        w.elem(s.as_str());
        assert(w.items() =~= seq![dec_wire(self.0), str_wire(self.1@)]);
        w.finish()
    }
}

/// The array fragments of a sequence of color scale stops.
pub open spec fn color_scale_element_frags(s: Seq<ColorScaleElement>) -> Seq<Seq<char>> {
    s.map_values(|e: ColorScaleElement| color_scale_element_frag(e))
}

/// The JSON array of a vector of color scale stops.
pub fn json_color_scale_element_array(v: &Vec<ColorScaleElement>) -> (r: String)
    ensures
        r@ == arr_wire(color_scale_element_frags(v@)),
{
    let mut w = ArrWriter::new();
    let mut i: usize = 0;
    while i < v.len()
        invariant
            w.wf(),
            i <= v.len(),
            w.items() =~= color_scale_element_frags(v@.take(i as int)),
        decreases v.len() - i,
    {
        let frag = v[i].to_wire();
        w.elem(frag.as_str());
        proof {
            assert(color_scale_element_frags(v@.take(i + 1)) =~= color_scale_element_frags(
                v@.take(i as int),
            ).push(color_scale_element_frag(v@[i as int])));
        }
        i = i + 1;
    }
    proof {
        assert(v@.take(v.len() as int) =~= v@);
    }
    w.finish()
}

/// A color scale: either a named palette or an explicit list of stops.
#[derive(Debug, Clone)]
pub enum ColorScale {
    Palette(ColorScalePalette),
    Vector(Vec<ColorScaleElement>),
}

/// The wire fragment of a color scale: the palette name as a quoted string,
/// or the array of stops.
pub open spec fn color_scale_frag(c: ColorScale) -> Seq<char> {
    match c {
        ColorScale::Palette(p) => str_wire(p.tag_spec()),
        ColorScale::Vector(v) => arr_wire(color_scale_element_frags(v@)),
    }
}

impl ColorScale {
    pub fn to_frag(&self) -> (r: String)
        ensures
            r@ == color_scale_frag(*self),
    {
        match self {
            ColorScale::Palette(p) => json_string(p.tag()),
            ColorScale::Vector(v) => json_color_scale_element_array(v),
        }
    }
}

/// Font settings for titles, legends, ticks and labels.
#[derive(Debug, Clone)]
pub struct Font {
    pub family: Option<String>,
    pub size: Option<usize>,
    pub color: Option<Color>,
}

impl Font {
    /// The members of the serialized object: exactly the fields that
    /// are set, under their wire keys.
    pub open spec fn fields(&self) -> Seq<(Seq<char>, Seq<char>)> {
        let fs = Seq::<(Seq<char>, Seq<char>)>::empty();
        let fs = match self.family {
            Some(v) => fs.push(("family"@, str_wire(v@))),
            None => fs,
        };
        let fs = match self.size {
            Some(v) => fs.push(("size"@, u64_wire(v as nat))),
            None => fs,
        };
        let fs = match self.color {
            Some(v) => fs.push(("color"@, color_frag(v))),
            None => fs,
        };
        fs
    }

    pub fn new() -> (r: Font)
        ensures
            r == (Font { family: None, size: None, color: None }),
    {
        Font { family: None, size: None, color: None }
    }

    pub fn family(self, family: &str) -> (r: Font)
        ensures
            r.family is Some && (r.family->0)@ == family@,
            r == (Font { family: r.family, ..self }),
    {
        Font { family: Some(family.to_owned()), ..self }
    }

    pub fn size(self, size: usize) -> (r: Font)
        ensures
            r == (Font { size: Some(size), ..self }),
    {
        Font { size: Some(size), ..self }
    }

    pub fn color(self, color: Color) -> (r: Font)
        ensures
            r == (Font { color: Some(color), ..self }),
    {
        Font { color: Some(color), ..self }
    }

    /// The serialized object, holding exactly the set fields.
    pub fn to_wire(&self) -> (r: String)
        ensures
            r@ == obj_wire(self.fields()),
    {
        let mut w = ObjWriter::new();
        if let Some(v) = &self.family {
            let frag = json_string(v.as_str());
            w.field("family", frag.as_str());
        }
        if let Some(v) = &self.size {
            let frag = json_u64(*v as u64);
            w.field("size", frag.as_str());
        }
        if let Some(v) = &self.color {
            let frag = v.to_frag();
            w.field("color", frag.as_str());
        }
        assert(w.fields() == self.fields());
        w.finish()
    }
}
/// The title of a plot, axis or legend; created with its text.
#[derive(Debug, Clone)]
pub struct Title {
    pub text: Option<String>,
    pub font: Option<Font>,
    pub side: Option<Side>,
    pub x: Option<DecNum>,
    pub y: Option<DecNum>,
}

impl Title {
    /// The members of the serialized object: exactly the fields that
    /// are set, under their wire keys.
    pub open spec fn fields(&self) -> Seq<(Seq<char>, Seq<char>)> {
        let fs = Seq::<(Seq<char>, Seq<char>)>::empty();
        let fs = match self.text {
            Some(v) => fs.push(("text"@, str_wire(v@))),
            None => fs,
        };
        let fs = match self.font {
            Some(v) => fs.push(("font"@, obj_wire(v.fields()))),
            None => fs,
        };
        let fs = match self.side {
            Some(v) => fs.push(("side"@, str_wire(v.tag_spec()))),
            None => fs,
        };
        let fs = match self.x {
            Some(v) => fs.push(("x"@, dec_wire(v))),
            None => fs,
        };
        let fs = match self.y {
            Some(v) => fs.push(("y"@, dec_wire(v))),
            None => fs,
        };
        fs
    }

    pub fn new(text: &str) -> (r: Title)
        ensures
            r.text is Some && (r.text->0)@ == text@,
            r.font is None,
            r.side is None,
            r.x is None,
            r.y is None,
    {
        Title { text: Some(text.to_owned()), font: None, side: None, x: None, y: None }
    }

    pub fn font(self, font: Font) -> (r: Title)
        ensures
            r == (Title { font: Some(font), ..self }),
    {
        Title { font: Some(font), ..self }
    }

    pub fn side(self, side: Side) -> (r: Title)
        ensures
            r == (Title { side: Some(side), ..self }),
    {
        Title { side: Some(side), ..self }
    }

    pub fn x(self, x: DecNum) -> (r: Title)
        ensures
            r == (Title { x: Some(x), ..self }),
    {
        Title { x: Some(x), ..self }
    }

    pub fn y(self, y: DecNum) -> (r: Title)
        ensures
            r == (Title { y: Some(y), ..self }),
    {
        Title { y: Some(y), ..self }
    }

    /// The serialized object, holding exactly the set fields.
    pub fn to_wire(&self) -> (r: String)
        ensures
            r@ == obj_wire(self.fields()),
    {
        let mut w = ObjWriter::new();
        if let Some(v) = &self.text {
            let frag = json_string(v.as_str());
            w.field("text", frag.as_str());
        }
        if let Some(v) = &self.font {
            let frag = v.to_wire();
            w.field("font", frag.as_str());
        }
        if let Some(v) = &self.side {
            let frag = json_string(v.tag());
            w.field("side", frag.as_str());
        }
        if let Some(v) = &self.x {
            let frag = json_dec(v);
            w.field("x", frag.as_str());
        }
        if let Some(v) = &self.y {
            let frag = json_dec(v);
            w.field("y", frag.as_str());
        }
        assert(w.fields() == self.fields());
        w.finish()
    }
}
/// Style of the hover labels of a plot.
#[derive(Debug, Clone)]
pub struct Label {
    pub background_color: Option<Color>,
    pub border_color: Option<Color>,
    pub font: Option<Font>,
    pub align: Option<String>,
    pub name_length: Option<i32>,
}

impl Label {
    /// The members of the serialized object: exactly the fields that
    /// are set, under their wire keys.
    pub open spec fn fields(&self) -> Seq<(Seq<char>, Seq<char>)> {
        let fs = Seq::<(Seq<char>, Seq<char>)>::empty();
        let fs = match self.background_color {
            Some(v) => fs.push(("bgcolor"@, color_frag(v))),
            None => fs,
        };
        let fs = match self.border_color {
            Some(v) => fs.push(("bordercolor"@, color_frag(v))),
            None => fs,
        };
        let fs = match self.font {
            Some(v) => fs.push(("font"@, obj_wire(v.fields()))),
            None => fs,
        };
        let fs = match self.align {
            Some(v) => fs.push(("align"@, str_wire(v@))),
            None => fs,
        };
        let fs = match self.name_length {
            Some(v) => fs.push(("namelength"@, i64_wire(v as int))),
            None => fs,
        };
        fs
    }

    pub fn new() -> (r: Label)
        ensures
            r == (Label { background_color: None, border_color: None, font: None, align: None, name_length: None }),
    {
        Label { background_color: None, border_color: None, font: None, align: None, name_length: None }
    }

    pub fn background_color(self, background_color: Color) -> (r: Label)
        ensures
            r == (Label { background_color: Some(background_color), ..self }),
    {
        Label { background_color: Some(background_color), ..self }
    }

    pub fn border_color(self, border_color: Color) -> (r: Label)
        ensures
            r == (Label { border_color: Some(border_color), ..self }),
    {
        Label { border_color: Some(border_color), ..self }
    }

    pub fn font(self, font: Font) -> (r: Label)
        ensures
            r == (Label { font: Some(font), ..self }),
    {
        Label { font: Some(font), ..self }
    }

    pub fn align(self, align: &str) -> (r: Label)
        ensures
            r.align is Some && (r.align->0)@ == align@,
            r == (Label { align: r.align, ..self }),
    {
        Label { align: Some(align.to_owned()), ..self }
    }

    pub fn name_length(self, name_length: i32) -> (r: Label)
        ensures
            r == (Label { name_length: Some(name_length), ..self }),
    {
        Label { name_length: Some(name_length), ..self }
    }

    /// The serialized object, holding exactly the set fields.
    pub fn to_wire(&self) -> (r: String)
        ensures
            r@ == obj_wire(self.fields()),
    {
        let mut w = ObjWriter::new();
        if let Some(v) = &self.background_color {
            let frag = v.to_frag();
            w.field("bgcolor", frag.as_str());
        }
        if let Some(v) = &self.border_color {
            let frag = v.to_frag();
            w.field("bordercolor", frag.as_str());
        }
        if let Some(v) = &self.font {
            let frag = v.to_wire();
            w.field("font", frag.as_str());
        }
        if let Some(v) = &self.align {
            let frag = json_string(v.as_str());
            w.field("align", frag.as_str());
        }
        if let Some(v) = &self.name_length {
            let frag = json_i64(*v as i64);
            w.field("namelength", frag.as_str());
        }
        assert(w.fields() == self.fields());
        w.finish()
    }
}
/// A zoom-level dependent tick format rule of an axis.
#[derive(Debug, Clone)]
pub struct TickFormatStop {
    pub enabled: Option<bool>,
    pub dtick_range: Option<Vec<NumOrString>>,
    pub value: Option<String>,
    pub name: Option<String>,
    pub template_item_name: Option<String>,
}

impl TickFormatStop {
    /// The members of the serialized object: exactly the fields that
    /// are set, under their wire keys.
    pub open spec fn fields(&self) -> Seq<(Seq<char>, Seq<char>)> {
        let fs = Seq::<(Seq<char>, Seq<char>)>::empty();
        let fs = match self.enabled {
            Some(v) => fs.push(("enabled"@, bool_wire(v))),
            None => fs,
        };
        let fs = match self.dtick_range {
            Some(v) => fs.push(("dtickrange"@, arr_wire(nos_frags(v@)))),
            None => fs,
        };
        let fs = match self.value {
            Some(v) => fs.push(("value"@, str_wire(v@))),
            None => fs,
        };
        let fs = match self.name {
            Some(v) => fs.push(("name"@, str_wire(v@))),
            None => fs,
        };
        let fs = match self.template_item_name {
            Some(v) => fs.push(("templateitemname"@, str_wire(v@))),
            None => fs,
        };
        fs
    }

    pub fn new() -> (r: TickFormatStop)
        ensures
            r == (TickFormatStop { enabled: None, dtick_range: None, value: None, name: None, template_item_name: None }),
    {
        TickFormatStop { enabled: None, dtick_range: None, value: None, name: None, template_item_name: None }
    }

    pub fn enabled(self, enabled: bool) -> (r: TickFormatStop)
        ensures
            r == (TickFormatStop { enabled: Some(enabled), ..self }),
    {
        TickFormatStop { enabled: Some(enabled), ..self }
    }

    pub fn dtick_range(self, dtick_range: Vec<NumOrString>) -> (r: TickFormatStop)
        ensures
            r == (TickFormatStop { dtick_range: Some(dtick_range), ..self }),
    {
        TickFormatStop { dtick_range: Some(dtick_range), ..self }
    }

    pub fn value(self, value: &str) -> (r: TickFormatStop)
        ensures
            r.value is Some && (r.value->0)@ == value@,
            r == (TickFormatStop { value: r.value, ..self }),
    {
        TickFormatStop { value: Some(value.to_owned()), ..self }
    }

    pub fn name(self, name: &str) -> (r: TickFormatStop)
        ensures
            r.name is Some && (r.name->0)@ == name@,
            r == (TickFormatStop { name: r.name, ..self }),
    {
        TickFormatStop { name: Some(name.to_owned()), ..self }
    }

    pub fn template_item_name(self, template_item_name: &str) -> (r: TickFormatStop)
        ensures
            r.template_item_name is Some && (r.template_item_name->0)@ == template_item_name@,
            r == (TickFormatStop { template_item_name: r.template_item_name, ..self }),
    {
        TickFormatStop { template_item_name: Some(template_item_name.to_owned()), ..self }
    }

    /// The serialized object, holding exactly the set fields.
    pub fn to_wire(&self) -> (r: String)
        ensures
            r@ == obj_wire(self.fields()),
    {
        let mut w = ObjWriter::new();
        if let Some(v) = &self.enabled {
            w.field("enabled", json_bool(*v));
        }
        if let Some(v) = &self.dtick_range {
            let frag = json_nos_array(v);
            w.field("dtickrange", frag.as_str());
        }
        if let Some(v) = &self.value {
            let frag = json_string(v.as_str());
            w.field("value", frag.as_str());
        }
        if let Some(v) = &self.name {
            let frag = json_string(v.as_str());
            w.field("name", frag.as_str());
        }
        if let Some(v) = &self.template_item_name {
            let frag = json_string(v.as_str());
            w.field("templateitemname", frag.as_str());
        }
        assert(w.fields() == self.fields());
        w.finish()
    }
}
/// The object fragments of a sequence of [`TickFormatStop`] values.
pub open spec fn tick_format_stop_frags(s: Seq<TickFormatStop>) -> Seq<Seq<char>> {
    s.map_values(|t: TickFormatStop| obj_wire(t.fields()))
}

/// The JSON array of a vector of [`TickFormatStop`] values.
pub fn json_tick_format_stop_array(v: &Vec<TickFormatStop>) -> (r: String)
    ensures
        r@ == arr_wire(tick_format_stop_frags(v@)),
{
    let mut w = ArrWriter::new();
    let mut i: usize = 0;
    while i < v.len()
        invariant
            w.wf(),
            i <= v.len(),
            w.items() =~= tick_format_stop_frags(v@.take(i as int)),
        decreases v.len() - i,
    {
        let frag = v[i].to_wire();
        w.elem(frag.as_str());
        proof {
            assert(tick_format_stop_frags(v@.take(i + 1)) =~= tick_format_stop_frags(v@.take(i as int)).push(
                obj_wire(v@[i as int].fields()),
            ));
        }
        i = i + 1;
    }
    proof {
        assert(v@.take(v.len() as int) =~= v@);
    }
    w.finish()
}

/// Style of the color bar drawn next to color-mapped traces.
#[derive(Debug, Clone)]
pub struct ColorBar {
    pub background_color: Option<Color>,
    pub border_color: Option<Color>,
    pub border_width: Option<usize>,
    pub outline_width: Option<usize>,
    pub thickness: Option<usize>,
    pub tick_length: Option<usize>,
    pub title: Option<Title>,
}

impl ColorBar {
    /// The members of the serialized object: exactly the fields that
    /// are set, under their wire keys.
    pub open spec fn fields(&self) -> Seq<(Seq<char>, Seq<char>)> {
        let fs = Seq::<(Seq<char>, Seq<char>)>::empty();
        let fs = match self.background_color {
            Some(v) => fs.push(("bgcolor"@, color_frag(v))),
            None => fs,
        };
        let fs = match self.border_color {
            Some(v) => fs.push(("bordercolor"@, color_frag(v))),
            None => fs,
        };
        let fs = match self.border_width {
            Some(v) => fs.push(("borderwidth"@, u64_wire(v as nat))),
            None => fs,
        };
        let fs = match self.outline_width {
            Some(v) => fs.push(("outlinewidth"@, u64_wire(v as nat))),
            None => fs,
        };
        let fs = match self.thickness {
            Some(v) => fs.push(("thickness"@, u64_wire(v as nat))),
            None => fs,
        };
        let fs = match self.tick_length {
            Some(v) => fs.push(("ticklen"@, u64_wire(v as nat))),
            None => fs,
        };
        let fs = match self.title {
            Some(v) => fs.push(("title"@, obj_wire(v.fields()))),
            None => fs,
        };
        fs
    }

    pub fn new() -> (r: ColorBar)
        ensures
            r == (ColorBar { background_color: None, border_color: None, border_width: None, outline_width: None, thickness: None, tick_length: None, title: None }),
    {
        ColorBar { background_color: None, border_color: None, border_width: None, outline_width: None, thickness: None, tick_length: None, title: None }
    }

    pub fn background_color(self, background_color: Color) -> (r: ColorBar)
        ensures
            r == (ColorBar { background_color: Some(background_color), ..self }),
    {
        ColorBar { background_color: Some(background_color), ..self }
    }

    pub fn border_color(self, border_color: Color) -> (r: ColorBar)
        ensures
            r == (ColorBar { border_color: Some(border_color), ..self }),
    {
        ColorBar { border_color: Some(border_color), ..self }
    }

    pub fn border_width(self, border_width: usize) -> (r: ColorBar)
        ensures
            r == (ColorBar { border_width: Some(border_width), ..self }),
    {
        ColorBar { border_width: Some(border_width), ..self }
    }

    pub fn outline_width(self, outline_width: usize) -> (r: ColorBar)
        ensures
            r == (ColorBar { outline_width: Some(outline_width), ..self }),
    {
        ColorBar { outline_width: Some(outline_width), ..self }
    }

    pub fn thickness(self, thickness: usize) -> (r: ColorBar)
        ensures
            r == (ColorBar { thickness: Some(thickness), ..self }),
    {
        ColorBar { thickness: Some(thickness), ..self }
    }

    pub fn tick_length(self, tick_length: usize) -> (r: ColorBar)
        ensures
            r == (ColorBar { tick_length: Some(tick_length), ..self }),
    {
        ColorBar { tick_length: Some(tick_length), ..self }
    }

    pub fn title(self, title: Title) -> (r: ColorBar)
        ensures
            r == (ColorBar { title: Some(title), ..self }),
    {
        ColorBar { title: Some(title), ..self }
    }

    /// The serialized object, holding exactly the set fields.
    pub fn to_wire(&self) -> (r: String)
        ensures
            r@ == obj_wire(self.fields()),
    {
        let mut w = ObjWriter::new();
        if let Some(v) = &self.background_color {
            let frag = v.to_frag();
            w.field("bgcolor", frag.as_str());
        }
        if let Some(v) = &self.border_color {
            let frag = v.to_frag();
            w.field("bordercolor", frag.as_str());
        }
        if let Some(v) = &self.border_width {
            let frag = json_u64(*v as u64);
            w.field("borderwidth", frag.as_str());
        }
        if let Some(v) = &self.outline_width {
            let frag = json_u64(*v as u64);
            w.field("outlinewidth", frag.as_str());
        }
        if let Some(v) = &self.thickness {
            let frag = json_u64(*v as u64);
            w.field("thickness", frag.as_str());
        }
        if let Some(v) = &self.tick_length {
            let frag = json_u64(*v as u64);
            w.field("ticklen", frag.as_str());
        }
        if let Some(v) = &self.title {
            let frag = v.to_wire();
            w.field("title", frag.as_str());
        }
        assert(w.fields() == self.fields());
        w.finish()
    }
}
} // verus!
