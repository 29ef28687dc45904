//! A typed builder API over a charting library's JSON wire format.
//!
//! Callers construct configuration entities (layout, axes, shapes, legends)
//! through chained setters, add serialized traces to a [`plot::Plot`], and
//! obtain either a standalone HTML document, an embeddable HTML fragment, or
//! a plain JSON document for an external rendering engine. Every field of
//! every entity is optional: a field that was never set does not appear in
//! the serialized object at all.

pub mod color;
pub mod common;
pub mod layout;
pub mod plot;
pub mod scatter;
pub mod values;
pub mod wire;

pub use color::{Color, NamedColor};
pub use layout::Layout;
pub use plot::{ImageFormat, Plot, Trace};
pub use scatter::{Mode, Scatter};
pub use values::NumOrString;
pub use wire::DecNum;
