//! A minimal scatter trace: one plottable series of integer points.
//!
//! The plot assembly component treats traces opaquely, through the
//! [`crate::plot::Trace`] capability; this series type exists so that plots
//! can be populated and exercised end to end. Richer series types follow the
//! same pattern: a `fields` spec listing the members of the wire object, and
//! a serialization proved to match it.

use vstd::prelude::*;

use crate::wire::{arr_wire, i64_frags, json_i64_array, json_string, obj_wire, str_wire, ObjWriter};

verus! {

/// How the points of a scatter trace are drawn.
#[derive(Debug, Clone, Copy)]
pub enum Mode {
    Lines,
    Markers,
    LinesMarkers,
    Text,
}

impl Mode {
    /// The wire token of this variant.
    pub open spec fn tag_spec(&self) -> Seq<char> {
        match self {
            Mode::Lines => "lines"@,
            Mode::Markers => "markers"@,
            Mode::LinesMarkers => "lines+markers"@,
            Mode::Text => "text"@,
        }
    }

    pub fn tag(&self) -> (r: &'static str)
        ensures
            r@ == self.tag_spec(),
    {
        match self {
            Mode::Lines => "lines",
            Mode::Markers => "markers",
            Mode::LinesMarkers => "lines+markers",
            Mode::Text => "text",
        }
    }
}

/// A scatter series over integer coordinates.
#[derive(Debug, Clone)]
pub struct Scatter {
    pub x: Vec<i64>,
    pub y: Vec<i64>,
    pub name: Option<String>,
    pub mode: Option<Mode>,
}

impl Scatter {
    /// The members of the serialized object: the trace type, both coordinate
    /// arrays, and whichever optional fields are set.
    pub open spec fn fields(&self) -> Seq<(Seq<char>, Seq<char>)> {
        let fs = Seq::<(Seq<char>, Seq<char>)>::empty();
        let fs = fs.push(("type"@, str_wire("scatter"@)));
        let fs = fs.push(("x"@, arr_wire(i64_frags(self.x@))));
        let fs = fs.push(("y"@, arr_wire(i64_frags(self.y@))));
        let fs = match self.name {
            Some(v) => fs.push(("name"@, str_wire(v@))),
            None => fs,
        };
        let fs = match self.mode {
            Some(v) => fs.push(("mode"@, str_wire(v.tag_spec()))),
            None => fs,
        };
        fs
    }

    pub fn new(x: Vec<i64>, y: Vec<i64>) -> (r: Scatter)
        ensures
            r == (Scatter { x, y, name: None, mode: None }),
    {
        Scatter { x, y, name: None, mode: None }
    }

    pub fn name(self, name: &str) -> (r: Scatter)
        ensures
            r.name is Some && (r.name->0)@ == name@,
            r == (Scatter { name: r.name, ..self }),
    {
        Scatter { name: Some(name.to_owned()), ..self }
    }

    pub fn mode(self, mode: Mode) -> (r: Scatter)
        ensures
            r == (Scatter { mode: Some(mode), ..self }),
    {
        Scatter { mode: Some(mode), ..self }
    }

    /// The serialized trace object, holding exactly the set fields.
    pub fn to_wire(&self) -> (r: String)
        ensures
            r@ == obj_wire(self.fields()),
    {
        let mut w = ObjWriter::new();
        let ty = json_string("scatter");
        w.field("type", ty.as_str());
        let xs = json_i64_array(&self.x);
        w.field("x", xs.as_str());
        let ys = json_i64_array(&self.y);
        w.field("y", ys.as_str());
        if let Some(v) = &self.name {
            let frag = json_string(v.as_str());
            w.field("name", frag.as_str());
        }
        if let Some(v) = &self.mode {
            let frag = json_string(v.tag());
            w.field("mode", frag.as_str());
        }
        assert(w.fields() == self.fields());
        w.finish()
    }
}

} // verus!
