//! Layout configuration entities: axes, shapes, legend, margins, grids and
//! the chart-wide [`Layout`] object itself.
//!
//! All entities share one protocol: a fresh instance has every field unset,
//! each setter consumes the instance and returns it with exactly one field
//! populated, and `to_wire` serializes exactly the set fields under their
//! wire keys. The `fields` spec function of each entity is the authoritative
//! list of the members of the serialized object.

use vstd::prelude::*;

use crate::color::{color_frag, color_frags, json_color_array, Color};
use crate::common::{
    color_scale_frag, Anchor, Calendar, ColorBar, ColorScale, DashType, Font, Label, Orientation,
    Side, TickFormatStop, TickMode, Title,
};
use crate::common::{json_tick_format_stop_array, tick_format_stop_frags};
use crate::values::{json_nos_array, json_truthy, nos_frags, truthy_wire, NumOrString, Truthy};
use crate::wire::{
    arr_wire, bool_wire, dec_frags, dec_wire, i64_wire, json_bool, json_dec, json_dec_array,
    json_i64, json_str_array, json_string, json_u64, obj_wire, str_frags, str_wire, u64_wire,
    ArrWriter, DecNum, ObjWriter,
};

verus! {

/// The coordinate type of an axis.
#[derive(Debug, Clone, Copy)]
pub enum AxisType {
    Default,
    Linear,
    Log,
    Date,
    Category,
    MultiCategory,
}

impl AxisType {
    /// The wire token of this variant.
    pub open spec fn tag_spec(&self) -> Seq<char> {
        match self {
            AxisType::Default => "-"@,
            AxisType::Linear => "linear"@,
            AxisType::Log => "log"@,
            AxisType::Date => "date"@,
            AxisType::Category => "category"@,
            AxisType::MultiCategory => "multicategory"@,
        }
    }

    pub fn tag(&self) -> (r: &'static str)
        ensures
            r@ == self.tag_spec(),
    {
        match self {
            AxisType::Default => "-",
            AxisType::Linear => "linear",
            AxisType::Log => "log",
            AxisType::Date => "date",
            AxisType::Category => "category",
            AxisType::MultiCategory => "multicategory",
        }
    }
}
/// Which aspect of an axis a constraint acts on.
#[derive(Debug, Clone, Copy)]
pub enum AxisConstrain {
    Range,
    Domain,
}

impl AxisConstrain {
    /// The wire token of this variant.
    pub open spec fn tag_spec(&self) -> Seq<char> {
        match self {
            AxisConstrain::Range => "range"@,
            AxisConstrain::Domain => "domain"@,
        }
    }

    pub fn tag(&self) -> (r: &'static str)
        ensures
            r@ == self.tag_spec(),
    {
        match self {
            AxisConstrain::Range => "range",
            AxisConstrain::Domain => "domain",
        }
    }
}
/// Which direction a constrained axis is pushed toward.
#[derive(Debug, Clone, Copy)]
pub enum ConstrainDirection {
    Left,
    Center,
    Right,
    Top,
    Middle,
    Bottom,
}

impl ConstrainDirection {
    /// The wire token of this variant.
    pub open spec fn tag_spec(&self) -> Seq<char> {
        match self {
            ConstrainDirection::Left => "left"@,
            ConstrainDirection::Center => "center"@,
            ConstrainDirection::Right => "right"@,
            ConstrainDirection::Top => "top"@,
            ConstrainDirection::Middle => "middle"@,
            ConstrainDirection::Bottom => "bottom"@,
        }
    }

    pub fn tag(&self) -> (r: &'static str)
        ensures
            r@ == self.tag_spec(),
    {
        match self {
            ConstrainDirection::Left => "left",
            ConstrainDirection::Center => "center",
            ConstrainDirection::Right => "right",
            ConstrainDirection::Top => "top",
            ConstrainDirection::Middle => "middle",
            ConstrainDirection::Bottom => "bottom",
        }
    }
}
/// How an axis range relates to zero.
#[derive(Debug, Clone, Copy)]
pub enum RangeMode {
    Normal,
    ToZero,
    NonNegative,
}

impl RangeMode {
    /// The wire token of this variant.
    pub open spec fn tag_spec(&self) -> Seq<char> {
        match self {
            RangeMode::Normal => "normal"@,
            RangeMode::ToZero => "tozero"@,
            RangeMode::NonNegative => "nonnegative"@,
        }
    }

    pub fn tag(&self) -> (r: &'static str)
        ensures
            r@ == self.tag_spec(),
    {
        match self {
            RangeMode::Normal => "normal",
            RangeMode::ToZero => "tozero",
            RangeMode::NonNegative => "nonnegative",
        }
    }
}
/// Whether axis ticks are drawn outside or inside the axis line.
#[derive(Debug, Clone, Copy)]
pub enum TicksDirection {
    Outside,
    Inside,
}

impl TicksDirection {
    /// The wire token of this variant.
    pub open spec fn tag_spec(&self) -> Seq<char> {
        match self {
            TicksDirection::Outside => "outside"@,
            TicksDirection::Inside => "inside"@,
        }
    }

    pub fn tag(&self) -> (r: &'static str)
        ensures
            r@ == self.tag_spec(),
    {
        match self {
            TicksDirection::Outside => "outside",
            TicksDirection::Inside => "inside",
        }
    }
}
/// Whether ticks sit on labels or on category boundaries.
#[derive(Debug, Clone, Copy)]
pub enum TicksPosition {
    Labels,
    Boundaries,
}

impl TicksPosition {
    /// The wire token of this variant.
    pub open spec fn tag_spec(&self) -> Seq<char> {
        match self {
            TicksPosition::Labels => "labels"@,
            TicksPosition::Boundaries => "boundaries"@,
        }
    }

    pub fn tag(&self) -> (r: &'static str)
        ensures
            r@ == self.tag_spec(),
    {
        match self {
            TicksPosition::Labels => "labels",
            TicksPosition::Boundaries => "boundaries",
        }
    }
}
/// Which of a series of tick adornments are shown.
#[derive(Debug, Clone, Copy)]
pub enum ArrayShow {
    All,
    First,
    Last,
    NoShow,
}

impl ArrayShow {
    /// The wire token of this variant.
    pub open spec fn tag_spec(&self) -> Seq<char> {
        match self {
            ArrayShow::All => "all"@,
            ArrayShow::First => "first"@,
            ArrayShow::Last => "last"@,
            ArrayShow::NoShow => "none"@,
        }
    }

    pub fn tag(&self) -> (r: &'static str)
        ensures
            r@ == self.tag_spec(),
    {
        match self {
            ArrayShow::All => "all",
            ArrayShow::First => "first",
            ArrayShow::Last => "last",
            ArrayShow::NoShow => "none",
        }
    }
}
/// How bars at the same location are combined.
#[derive(Debug, Clone, Copy)]
pub enum BarMode {
    Stack,
    Group,
    Overlay,
    Relative,
}

impl BarMode {
    /// The wire token of this variant.
    pub open spec fn tag_spec(&self) -> Seq<char> {
        match self {
            BarMode::Stack => "stack"@,
            BarMode::Group => "group"@,
            BarMode::Overlay => "overlay"@,
            BarMode::Relative => "relative"@,
        }
    }

    pub fn tag(&self) -> (r: &'static str)
        ensures
            r@ == self.tag_spec(),
    {
        match self {
            BarMode::Stack => "stack",
            BarMode::Group => "group",
            BarMode::Overlay => "overlay",
            BarMode::Relative => "relative",
        }
    }
}
/// Normalization applied to stacked bars.
#[derive(Debug, Clone, Copy)]
pub enum BarNorm {
    Empty,
    Fraction,
    Percent,
}

impl BarNorm {
    /// The wire token of this variant.
    pub open spec fn tag_spec(&self) -> Seq<char> {
        match self {
            BarNorm::Empty => ""@,
            BarNorm::Fraction => "fraction"@,
            BarNorm::Percent => "percent"@,
        }
    }

    pub fn tag(&self) -> (r: &'static str)
        ensures
            r@ == self.tag_spec(),
    {
        match self {
            BarNorm::Empty => "",
            BarNorm::Fraction => "fraction",
            BarNorm::Percent => "percent",
        }
    }
}
/// How box traces at the same location are combined.
#[derive(Debug, Clone, Copy)]
pub enum BoxMode {
    Group,
    Overlay,
}

impl BoxMode {
    /// The wire token of this variant.
    pub open spec fn tag_spec(&self) -> Seq<char> {
        match self {
            BoxMode::Group => "group"@,
            BoxMode::Overlay => "overlay"@,
        }
    }

    pub fn tag(&self) -> (r: &'static str)
        ensures
            r@ == self.tag_spec(),
    {
        match self {
            BoxMode::Group => "group",
            BoxMode::Overlay => "overlay",
        }
    }
}
/// How violin traces at the same location are combined.
#[derive(Debug, Clone, Copy)]
pub enum ViolinMode {
    Group,
    Overlay,
}

impl ViolinMode {
    /// The wire token of this variant.
    pub open spec fn tag_spec(&self) -> Seq<char> {
        match self {
            ViolinMode::Group => "group"@,
            ViolinMode::Overlay => "overlay"@,
        }
    }

    pub fn tag(&self) -> (r: &'static str)
        ensures
            r@ == self.tag_spec(),
    {
        match self {
            ViolinMode::Group => "group",
            ViolinMode::Overlay => "overlay",
        }
    }
}
/// How waterfall traces at the same location are combined.
#[derive(Debug, Clone, Copy)]
pub enum WaterfallMode {
    Group,
    Overlay,
}

impl WaterfallMode {
    /// The wire token of this variant.
    pub open spec fn tag_spec(&self) -> Seq<char> {
        match self {
            WaterfallMode::Group => "group"@,
            WaterfallMode::Overlay => "overlay"@,
        }
    }

    pub fn tag(&self) -> (r: &'static str)
        ensures
            r@ == self.tag_spec(),
    {
        match self {
            WaterfallMode::Group => "group",
            WaterfallMode::Overlay => "overlay",
        }
    }
}
/// Vertical alignment of legend symbols against their text.
#[derive(Debug, Clone, Copy)]
pub enum Align {
    Top,
    Middle,
    Bottom,
}

impl Align {
    /// The wire token of this variant.
    pub open spec fn tag_spec(&self) -> Seq<char> {
        match self {
            Align::Top => "top"@,
            Align::Middle => "middle"@,
            Align::Bottom => "bottom"@,
        }
    }

    pub fn tag(&self) -> (r: &'static str)
        ensures
            r@ == self.tag_spec(),
    {
        match self {
            Align::Top => "top",
            Align::Middle => "middle",
            Align::Bottom => "bottom",
        }
    }
}
/// How a range slider's own axis range is determined.
#[derive(Debug, Clone, Copy)]
pub enum SliderRangeMode {
    Auto,
    Fixed,
    Match,
}

impl SliderRangeMode {
    /// The wire token of this variant.
    pub open spec fn tag_spec(&self) -> Seq<char> {
        match self {
            SliderRangeMode::Auto => "auto"@,
            SliderRangeMode::Fixed => "fixed"@,
            SliderRangeMode::Match => "match"@,
        }
    }

    pub fn tag(&self) -> (r: &'static str)
        ensures
            r@ == self.tag_spec(),
    {
        match self {
            SliderRangeMode::Auto => "auto",
            SliderRangeMode::Fixed => "fixed",
            SliderRangeMode::Match => "match",
        }
    }
}
/// The unit of time a range selector button steps by.
#[derive(Debug, Clone, Copy)]
pub enum SelectorStep {
    Month,
    Year,
    Day,
    Hour,
    Minute,
    Second,
    All,
}

impl SelectorStep {
    /// The wire token of this variant.
    pub open spec fn tag_spec(&self) -> Seq<char> {
        match self {
            SelectorStep::Month => "month"@,
            SelectorStep::Year => "year"@,
            SelectorStep::Day => "day"@,
            SelectorStep::Hour => "hour"@,
            SelectorStep::Minute => "minute"@,
            SelectorStep::Second => "second"@,
            SelectorStep::All => "all"@,
        }
    }

    pub fn tag(&self) -> (r: &'static str)
        ensures
            r@ == self.tag_spec(),
    {
        match self {
            SelectorStep::Month => "month",
            SelectorStep::Year => "year",
            SelectorStep::Day => "day",
            SelectorStep::Hour => "hour",
            SelectorStep::Minute => "minute",
            SelectorStep::Second => "second",
            SelectorStep::All => "all",
        }
    }
}
/// Whether a range selector button counts back or snaps to date.
#[derive(Debug, Clone, Copy)]
pub enum StepMode {
    Backward,
    ToDate,
}

impl StepMode {
    /// The wire token of this variant.
    pub open spec fn tag_spec(&self) -> Seq<char> {
        match self {
            StepMode::Backward => "backward"@,
            StepMode::ToDate => "todate"@,
        }
    }

    pub fn tag(&self) -> (r: &'static str)
        ensures
            r@ == self.tag_spec(),
    {
        match self {
            StepMode::Backward => "backward",
            StepMode::ToDate => "todate",
        }
    }
}
/// The order grid rows are laid out in.
#[derive(Debug, Clone, Copy)]
pub enum RowOrder {
    TopToBottom,
    BottomToTop,
}

impl RowOrder {
    /// The wire token of this variant.
    pub open spec fn tag_spec(&self) -> Seq<char> {
        match self {
            RowOrder::TopToBottom => "top to bottom"@,
            RowOrder::BottomToTop => "bottom to top"@,
        }
    }

    pub fn tag(&self) -> (r: &'static str)
        ensures
            r@ == self.tag_spec(),
    {
        match self {
            RowOrder::TopToBottom => "top to bottom",
            RowOrder::BottomToTop => "bottom to top",
        }
    }
}
/// Whether grid cells get independent axes or share them.
#[derive(Debug, Clone, Copy)]
pub enum GridPattern {
    Independent,
    Coupled,
}

impl GridPattern {
    /// The wire token of this variant.
    pub open spec fn tag_spec(&self) -> Seq<char> {
        match self {
            GridPattern::Independent => "independent"@,
            GridPattern::Coupled => "independent"@,
        }
    }

    pub fn tag(&self) -> (r: &'static str)
        ensures
            r@ == self.tag_spec(),
    {
        match self {
            GridPattern::Independent => "independent",
            GridPattern::Coupled => "independent",
        }
    }
}
/// Where the x axes of a grid are placed.
#[derive(Debug, Clone, Copy)]
pub enum GridXSide {
    Bottom,
    BottomPlot,
    TopPlot,
    Top,
}

impl GridXSide {
    /// The wire token of this variant.
    pub open spec fn tag_spec(&self) -> Seq<char> {
        match self {
            GridXSide::Bottom => "bottom"@,
            GridXSide::BottomPlot => "bottom plot"@,
            GridXSide::TopPlot => "top plot"@,
            GridXSide::Top => "top"@,
        }
    }

    pub fn tag(&self) -> (r: &'static str)
        ensures
            r@ == self.tag_spec(),
    {
        match self {
            GridXSide::Bottom => "bottom",
            GridXSide::BottomPlot => "bottom plot",
            GridXSide::TopPlot => "top plot",
            GridXSide::Top => "top",
        }
    }
}
/// Where the y axes of a grid are placed.
#[derive(Debug, Clone, Copy)]
pub enum GridYSide {
    Left,
    LeftPlot,
    RightPlot,
    Right,
}

impl GridYSide {
    /// The wire token of this variant.
    pub open spec fn tag_spec(&self) -> Seq<char> {
        match self {
            GridYSide::Left => "left"@,
            GridYSide::LeftPlot => "left plot"@,
            GridYSide::RightPlot => "right plot"@,
            GridYSide::Right => "right"@,
        }
    }

    pub fn tag(&self) -> (r: &'static str)
        ensures
            r@ == self.tag_spec(),
    {
        match self {
            GridYSide::Left => "left",
            GridYSide::LeftPlot => "left plot",
            GridYSide::RightPlot => "right plot",
            GridYSide::Right => "right",
        }
    }
}
/// How uniform text sizing treats text that does not fit; the `False`
/// variant serializes as the JSON boolean `false`.
#[derive(Debug, Clone, Copy)]
pub enum UniformTextMode {
    False,
    Hide,
    Show,
}

impl Truthy for UniformTextMode {
    open spec fn tag_spec(&self) -> Seq<char> {
        match self {
            UniformTextMode::False => "false"@,
            UniformTextMode::Hide => "hide"@,
            UniformTextMode::Show => "show"@,
        }
    }

    open spec fn off_spec(&self) -> bool {
        self is False
    }

    fn tag(&self) -> (r: &'static str) {
        match self {
            UniformTextMode::False => "false",
            UniformTextMode::Hide => "hide",
            UniformTextMode::Show => "show",
        }
    }

    fn is_off(&self) -> (r: bool) {
        match self {
            UniformTextMode::False => true,
            _ => false,
        }
    }
}
/// The hover interaction mode of a plot; the `False` variant serializes
/// as the JSON boolean `false`.
#[derive(Debug, Clone, Copy)]
pub enum HoverMode {
    X,
    Y,
    Closest,
    False,
    XUnified,
    YUnified,
}

impl Truthy for HoverMode {
    open spec fn tag_spec(&self) -> Seq<char> {
        match self {
            HoverMode::X => "x"@,
            HoverMode::Y => "y"@,
            HoverMode::Closest => "closest"@,
            HoverMode::False => "false"@,
            HoverMode::XUnified => "x unified"@,
            HoverMode::YUnified => "y unified"@,
        }
    }

    open spec fn off_spec(&self) -> bool {
        self is False
    }

    fn tag(&self) -> (r: &'static str) {
        match self {
            HoverMode::X => "x",
            HoverMode::Y => "y",
            HoverMode::Closest => "closest",
            HoverMode::False => "false",
            HoverMode::XUnified => "x unified",
            HoverMode::YUnified => "y unified",
        }
    }

    fn is_off(&self) -> (r: bool) {
        match self {
            HoverMode::False => true,
            _ => false,
        }
    }
}
/// The kind of figure a layout shape draws.
#[derive(Debug, Clone, Copy)]
pub enum LayoutType {
    Circle,
    Rect,
    Path,
    Line,
}

impl LayoutType {
    /// The wire token of this variant.
    pub open spec fn tag_spec(&self) -> Seq<char> {
        match self {
            LayoutType::Circle => "circle"@,
            LayoutType::Rect => "rect"@,
            LayoutType::Path => "path"@,
            LayoutType::Line => "line"@,
        }
    }

    pub fn tag(&self) -> (r: &'static str)
        ensures
            r@ == self.tag_spec(),
    {
        match self {
            LayoutType::Circle => "circle",
            LayoutType::Rect => "rect",
            LayoutType::Path => "path",
            LayoutType::Line => "line",
        }
    }
}
/// Whether a shape is drawn above or below the traces.
#[derive(Debug, Clone, Copy)]
pub enum Layer {
    Above,
    Below,
}

impl Layer {
    /// The wire token of this variant.
    pub open spec fn tag_spec(&self) -> Seq<char> {
        match self {
            Layer::Above => "above"@,
            Layer::Below => "below"@,
        }
    }

    pub fn tag(&self) -> (r: &'static str)
        ensures
            r@ == self.tag_spec(),
    {
        match self {
            Layer::Above => "above",
            Layer::Below => "below",
        }
    }
}
/// Whether a shape's horizontal size follows the data or is in pixels.
#[derive(Debug, Clone, Copy)]
pub enum XSizeMode {
    Scaled,
    Pixel,
}

impl XSizeMode {
    /// The wire token of this variant.
    pub open spec fn tag_spec(&self) -> Seq<char> {
        match self {
            XSizeMode::Scaled => "scaled"@,
            XSizeMode::Pixel => "pixel"@,
        }
    }

    pub fn tag(&self) -> (r: &'static str)
        ensures
            r@ == self.tag_spec(),
    {
        match self {
            XSizeMode::Scaled => "scaled",
            XSizeMode::Pixel => "pixel",
        }
    }
}
/// Whether a shape's vertical size follows the data or is in pixels.
#[derive(Debug, Clone, Copy)]
pub enum YSizeMode {
    Scaled,
    Pixel,
}

impl YSizeMode {
    /// The wire token of this variant.
    pub open spec fn tag_spec(&self) -> Seq<char> {
        match self {
            YSizeMode::Scaled => "scaled"@,
            YSizeMode::Pixel => "pixel"@,
        }
    }

    pub fn tag(&self) -> (r: &'static str)
        ensures
            r@ == self.tag_spec(),
    {
        match self {
            YSizeMode::Scaled => "scaled",
            YSizeMode::Pixel => "pixel",
        }
    }
}
/// How the interior of a self-intersecting path is determined.
#[derive(Debug, Clone, Copy)]
pub enum FillRule {
    EvenOdd,
    Nonzero,
}

impl FillRule {
    /// The wire token of this variant.
    pub open spec fn tag_spec(&self) -> Seq<char> {
        match self {
            FillRule::EvenOdd => "evenodd"@,
            FillRule::Nonzero => "nonzero"@,
        }
    }

    pub fn tag(&self) -> (r: &'static str)
        ensures
            r@ == self.tag_spec(),
    {
        match self {
            FillRule::EvenOdd => "evenodd",
            FillRule::Nonzero => "nonzero",
        }
    }
}
/// The legend of a plot.
#[derive(Debug, Clone)]
pub struct Legend {
    pub background_color: Option<Color>,
    pub border_color: Option<Color>,
    pub border_width: Option<usize>,
    pub font: Option<Font>,
    pub orientation: Option<Orientation>,
    pub trace_order: Option<String>,
    pub trace_group_gap: Option<usize>,
    pub item_sizing: Option<String>,
    pub item_click: Option<String>,
    pub item_double_click: Option<String>,
    pub x: Option<DecNum>,
    pub x_anchor: Option<Anchor>,
    pub y: Option<DecNum>,
    pub y_anchor: Option<Anchor>,
    pub valign: Option<Align>,
    pub title: Option<Title>,
}

impl Legend {
    /// Appends the legend style members; the field groups keep
    /// each serialization proof within the solver's budget.
    pub open spec fn push_legend_style_fields(&self, fs: Seq<(Seq<char>, Seq<char>)>) -> Seq<(Seq<char>, Seq<char>)> {
        let fs = match self.background_color {
            Some(v) => fs.push(("bgcolor"@, color_frag(v))),
            None => fs,
        };
        let fs = match self.border_color {
            Some(v) => fs.push(("bordercolor"@, color_frag(v))),
            None => fs,
        };
        let fs = match self.border_width {
            Some(v) => fs.push(("borderwidth"@, u64_wire(v as nat))),
            None => fs,
        };
        let fs = match self.font {
            Some(v) => fs.push(("font"@, obj_wire(v.fields()))),
            None => fs,
        };
        let fs = match self.orientation {
            Some(v) => fs.push(("orientation"@, str_wire(v.tag_spec()))),
            None => fs,
        };
        fs
    }

    /// Appends the legend item members; the field groups keep
    /// each serialization proof within the solver's budget.
    pub open spec fn push_legend_item_fields(&self, fs: Seq<(Seq<char>, Seq<char>)>) -> Seq<(Seq<char>, Seq<char>)> {
        let fs = match self.trace_order {
            Some(v) => fs.push(("traceorder"@, str_wire(v@))),
            None => fs,
        };
        let fs = match self.trace_group_gap {
            Some(v) => fs.push(("tracegroupgap"@, u64_wire(v as nat))),
            None => fs,
        };
        let fs = match self.item_sizing {
            Some(v) => fs.push(("itemsizing"@, str_wire(v@))),
            None => fs,
        };
        let fs = match self.item_click {
            Some(v) => fs.push(("itemclick"@, str_wire(v@))),
            None => fs,
        };
        let fs = match self.item_double_click {
            Some(v) => fs.push(("itemdoubleclick"@, str_wire(v@))),
            None => fs,
        };
        fs
    }

    /// Appends the legend placement members; the field groups keep
    /// each serialization proof within the solver's budget.
    pub open spec fn push_legend_placement_fields(&self, fs: Seq<(Seq<char>, Seq<char>)>) -> Seq<(Seq<char>, Seq<char>)> {
        let fs = match self.x {
            Some(v) => fs.push(("x"@, dec_wire(v))),
            None => fs,
        };
        let fs = match self.x_anchor {
            Some(v) => fs.push(("xanchor"@, str_wire(v.tag_spec()))),
            None => fs,
        };
        let fs = match self.y {
            Some(v) => fs.push(("y"@, dec_wire(v))),
            None => fs,
        };
        let fs = match self.y_anchor {
            Some(v) => fs.push(("yanchor"@, str_wire(v.tag_spec()))),
            None => fs,
        };
        let fs = match self.valign {
            Some(v) => fs.push(("valign"@, str_wire(v.tag_spec()))),
            None => fs,
        };
        let fs = match self.title {
            Some(v) => fs.push(("title"@, obj_wire(v.fields()))),
            None => fs,
        };
        fs
    }

    /// The members of the serialized object: exactly the fields that
    /// are set, under their wire keys.
    pub open spec fn fields(&self) -> Seq<(Seq<char>, Seq<char>)> {
        let fs = Seq::<(Seq<char>, Seq<char>)>::empty();
        let fs = self.push_legend_style_fields(fs);
        let fs = self.push_legend_item_fields(fs);
        let fs = self.push_legend_placement_fields(fs);
        fs
    }

    pub fn new() -> (r: Legend)
        ensures
            r == (Legend { background_color: None, border_color: None, border_width: None, font: None, orientation: None, trace_order: None, trace_group_gap: None, item_sizing: None, item_click: None, item_double_click: None, x: None, x_anchor: None, y: None, y_anchor: None, valign: None, title: None }),
    {
        Legend { background_color: None, border_color: None, border_width: None, font: None, orientation: None, trace_order: None, trace_group_gap: None, item_sizing: None, item_click: None, item_double_click: None, x: None, x_anchor: None, y: None, y_anchor: None, valign: None, title: None }
    }

    pub fn background_color(self, background_color: Color) -> (r: Legend)
        ensures
            r == (Legend { background_color: Some(background_color), ..self }),
    {
        Legend { background_color: Some(background_color), ..self }
    }

    pub fn border_color(self, border_color: Color) -> (r: Legend)
        ensures
            r == (Legend { border_color: Some(border_color), ..self }),
    {
        Legend { border_color: Some(border_color), ..self }
    }

    pub fn border_width(self, border_width: usize) -> (r: Legend)
        ensures
            r == (Legend { border_width: Some(border_width), ..self }),
    {
        Legend { border_width: Some(border_width), ..self }
    }

    pub fn font(self, font: Font) -> (r: Legend)
        ensures
            r == (Legend { font: Some(font), ..self }),
    {
        Legend { font: Some(font), ..self }
    }

    pub fn orientation(self, orientation: Orientation) -> (r: Legend)
        ensures
            r == (Legend { orientation: Some(orientation), ..self }),
    {
        Legend { orientation: Some(orientation), ..self }
    }

    pub fn trace_order(self, trace_order: &str) -> (r: Legend)
        ensures
            r.trace_order is Some && (r.trace_order->0)@ == trace_order@,
            r == (Legend { trace_order: r.trace_order, ..self }),
    {
        Legend { trace_order: Some(trace_order.to_owned()), ..self }
    }

    pub fn trace_group_gap(self, trace_group_gap: usize) -> (r: Legend)
        ensures
            r == (Legend { trace_group_gap: Some(trace_group_gap), ..self }),
    {
        Legend { trace_group_gap: Some(trace_group_gap), ..self }
    }

    pub fn item_sizing(self, item_sizing: &str) -> (r: Legend)
        ensures
            r.item_sizing is Some && (r.item_sizing->0)@ == item_sizing@,
            r == (Legend { item_sizing: r.item_sizing, ..self }),
    {
        Legend { item_sizing: Some(item_sizing.to_owned()), ..self }
    }

    pub fn item_click(self, item_click: &str) -> (r: Legend)
        ensures
            r.item_click is Some && (r.item_click->0)@ == item_click@,
            r == (Legend { item_click: r.item_click, ..self }),
    {
        Legend { item_click: Some(item_click.to_owned()), ..self }
    }

    pub fn item_double_click(self, item_double_click: &str) -> (r: Legend)
        ensures
            r.item_double_click is Some && (r.item_double_click->0)@ == item_double_click@,
            r == (Legend { item_double_click: r.item_double_click, ..self }),
    {
        Legend { item_double_click: Some(item_double_click.to_owned()), ..self }
    }

    pub fn x(self, x: DecNum) -> (r: Legend)
        ensures
            r == (Legend { x: Some(x), ..self }),
    {
        Legend { x: Some(x), ..self }
    }

    pub fn x_anchor(self, x_anchor: Anchor) -> (r: Legend)
        ensures
            r == (Legend { x_anchor: Some(x_anchor), ..self }),
    {
        Legend { x_anchor: Some(x_anchor), ..self }
    }

    pub fn y(self, y: DecNum) -> (r: Legend)
        ensures
            r == (Legend { y: Some(y), ..self }),
    {
        Legend { y: Some(y), ..self }
    }

    pub fn y_anchor(self, y_anchor: Anchor) -> (r: Legend)
        ensures
            r == (Legend { y_anchor: Some(y_anchor), ..self }),
    {
        Legend { y_anchor: Some(y_anchor), ..self }
    }

    pub fn valign(self, valign: Align) -> (r: Legend)
        ensures
            r == (Legend { valign: Some(valign), ..self }),
    {
        Legend { valign: Some(valign), ..self }
    }

    pub fn title(self, title: Title) -> (r: Legend)
        ensures
            r == (Legend { title: Some(title), ..self }),
    {
        Legend { title: Some(title), ..self }
    }

    /// The serialized object, holding exactly the set fields.
    pub fn to_wire(&self) -> (r: String)
        ensures
            r@ == obj_wire(self.fields()),
    {
        let mut w = ObjWriter::new();
        self.write_legend_style_fields(&mut w);
        self.write_legend_item_fields(&mut w);
        self.write_legend_placement_fields(&mut w);
        assert(w.fields() == self.fields());
        w.finish()
    }

    /// Writes the legend style members into `w`.
    fn write_legend_style_fields(&self, w: &mut ObjWriter)
        requires
            old(w).wf(),
        ensures
            final(w).wf(),
            final(w).fields() == self.push_legend_style_fields(old(w).fields()),
    {
        if let Some(v) = &self.background_color {
            let frag = v.to_frag();
            w.field("bgcolor", frag.as_str());
        }
        if let Some(v) = &self.border_color {
            let frag = v.to_frag();
            w.field("bordercolor", frag.as_str());
        }
        if let Some(v) = &self.border_width {
            let frag = json_u64(*v as u64);
            w.field("borderwidth", frag.as_str());
        }
        if let Some(v) = &self.font {
            let frag = v.to_wire();
            w.field("font", frag.as_str());
        }
        if let Some(v) = &self.orientation {
            let frag = json_string(v.tag());
            w.field("orientation", frag.as_str());
        }
        assert(w.fields() == self.push_legend_style_fields(old(w).fields()));
    }

    /// Writes the legend item members into `w`.
    fn write_legend_item_fields(&self, w: &mut ObjWriter)
        requires
            old(w).wf(),
        ensures
            final(w).wf(),
            final(w).fields() == self.push_legend_item_fields(old(w).fields()),
    {
        if let Some(v) = &self.trace_order {
            let frag = json_string(v.as_str());
            w.field("traceorder", frag.as_str());
        }
        if let Some(v) = &self.trace_group_gap {
            let frag = json_u64(*v as u64);
            w.field("tracegroupgap", frag.as_str());
        }
        if let Some(v) = &self.item_sizing {
            let frag = json_string(v.as_str());
            w.field("itemsizing", frag.as_str());
        }
        if let Some(v) = &self.item_click {
            let frag = json_string(v.as_str());
            w.field("itemclick", frag.as_str());
        }
        if let Some(v) = &self.item_double_click {
            let frag = json_string(v.as_str());
            w.field("itemdoubleclick", frag.as_str());
        }
        assert(w.fields() == self.push_legend_item_fields(old(w).fields()));
    }

    /// Writes the legend placement members into `w`.
    fn write_legend_placement_fields(&self, w: &mut ObjWriter)
        requires
            old(w).wf(),
        ensures
            final(w).wf(),
            final(w).fields() == self.push_legend_placement_fields(old(w).fields()),
    {
        if let Some(v) = &self.x {
            let frag = json_dec(v);
            w.field("x", frag.as_str());
        }
        if let Some(v) = &self.x_anchor {
            let frag = json_string(v.tag());
            w.field("xanchor", frag.as_str());
        }
        if let Some(v) = &self.y {
            let frag = json_dec(v);
            w.field("y", frag.as_str());
        }
        if let Some(v) = &self.y_anchor {
            let frag = json_string(v.tag());
            w.field("yanchor", frag.as_str());
        }
        if let Some(v) = &self.valign {
            let frag = json_string(v.tag());
            w.field("valign", frag.as_str());
        }
        if let Some(v) = &self.title {
            let frag = v.to_wire();
            w.field("title", frag.as_str());
        }
        assert(w.fields() == self.push_legend_placement_fields(old(w).fields()));
    }
}
/// The margins around the plotting area.
#[derive(Debug, Clone)]
pub struct Margin {
    pub l: Option<usize>,
    pub r: Option<usize>,
    pub t: Option<usize>,
    pub b: Option<usize>,
    pub pad: Option<usize>,
    pub auto_expand: Option<bool>,
}

impl Margin {
    /// The members of the serialized object: exactly the fields that
    /// are set, under their wire keys.
    pub open spec fn fields(&self) -> Seq<(Seq<char>, Seq<char>)> {
        let fs = Seq::<(Seq<char>, Seq<char>)>::empty();
        let fs = match self.l {
            Some(v) => fs.push(("l"@, u64_wire(v as nat))),
            None => fs,
        };
        let fs = match self.r {
            Some(v) => fs.push(("r"@, u64_wire(v as nat))),
            None => fs,
        };
        let fs = match self.t {
            Some(v) => fs.push(("t"@, u64_wire(v as nat))),
            None => fs,
        };
        let fs = match self.b {
            Some(v) => fs.push(("b"@, u64_wire(v as nat))),
            None => fs,
        };
        let fs = match self.pad {
            Some(v) => fs.push(("pad"@, u64_wire(v as nat))),
            None => fs,
        };
        let fs = match self.auto_expand {
            Some(v) => fs.push(("autoexpand"@, bool_wire(v))),
            None => fs,
        };
        fs
    }

    pub fn new() -> (r: Margin)
        ensures
            r == (Margin { l: None, r: None, t: None, b: None, pad: None, auto_expand: None }),
    {
        Margin { l: None, r: None, t: None, b: None, pad: None, auto_expand: None }
    }

    pub fn left(self, left: usize) -> (r: Margin)
        ensures
            r == (Margin { l: Some(left), ..self }),
    {
        Margin { l: Some(left), ..self }
    }

    pub fn right(self, right: usize) -> (r: Margin)
        ensures
            r == (Margin { r: Some(right), ..self }),
    {
        Margin { r: Some(right), ..self }
    }

    pub fn top(self, top: usize) -> (r: Margin)
        ensures
            r == (Margin { t: Some(top), ..self }),
    {
        Margin { t: Some(top), ..self }
    }

    pub fn bottom(self, bottom: usize) -> (r: Margin)
        ensures
            r == (Margin { b: Some(bottom), ..self }),
    {
        Margin { b: Some(bottom), ..self }
    }

    pub fn pad(self, pad: usize) -> (r: Margin)
        ensures
            r == (Margin { pad: Some(pad), ..self }),
    {
        Margin { pad: Some(pad), ..self }
    }

    pub fn auto_expand(self, auto_expand: bool) -> (r: Margin)
        ensures
            r == (Margin { auto_expand: Some(auto_expand), ..self }),
    {
        Margin { auto_expand: Some(auto_expand), ..self }
    }

    /// The serialized object, holding exactly the set fields.
    pub fn to_wire(&self) -> (r: String)
        ensures
            r@ == obj_wire(self.fields()),
    {
        let mut w = ObjWriter::new();
        if let Some(v) = &self.l {
            let frag = json_u64(*v as u64);
            w.field("l", frag.as_str());
        }
        if let Some(v) = &self.r {
            let frag = json_u64(*v as u64);
            w.field("r", frag.as_str());
        }
        if let Some(v) = &self.t {
            let frag = json_u64(*v as u64);
            w.field("t", frag.as_str());
        }
        if let Some(v) = &self.b {
            let frag = json_u64(*v as u64);
            w.field("b", frag.as_str());
        }
        if let Some(v) = &self.pad {
            let frag = json_u64(*v as u64);
            w.field("pad", frag.as_str());
        }
        if let Some(v) = &self.auto_expand {
            w.field("autoexpand", json_bool(*v));
        }
        assert(w.fields() == self.fields());
        w.finish()
    }
}
/// The default color scales of a layout.
#[derive(Debug, Clone)]
pub struct LayoutColorScale {
    pub sequential: Option<ColorScale>,
    pub sequential_minus: Option<ColorScale>,
    pub diverging: Option<ColorScale>,
}

impl LayoutColorScale {
    /// The members of the serialized object: exactly the fields that
    /// are set, under their wire keys.
    pub open spec fn fields(&self) -> Seq<(Seq<char>, Seq<char>)> {
        let fs = Seq::<(Seq<char>, Seq<char>)>::empty();
        let fs = match self.sequential {
            Some(v) => fs.push(("sequential"@, color_scale_frag(v))),
            None => fs,
        };
        let fs = match self.sequential_minus {
            Some(v) => fs.push(("sequentialminus"@, color_scale_frag(v))),
            None => fs,
        };
        let fs = match self.diverging {
            Some(v) => fs.push(("diverging"@, color_scale_frag(v))),
            None => fs,
        };
        fs
    }

    pub fn new() -> (r: LayoutColorScale)
        ensures
            r == (LayoutColorScale { sequential: None, sequential_minus: None, diverging: None }),
    {
        LayoutColorScale { sequential: None, sequential_minus: None, diverging: None }
    }

    pub fn sequential(self, sequential: ColorScale) -> (r: LayoutColorScale)
        ensures
            r == (LayoutColorScale { sequential: Some(sequential), ..self }),
    {
        LayoutColorScale { sequential: Some(sequential), ..self }
    }

    pub fn sequential_minus(self, sequential_minus: ColorScale) -> (r: LayoutColorScale)
        ensures
            r == (LayoutColorScale { sequential_minus: Some(sequential_minus), ..self }),
    {
        LayoutColorScale { sequential_minus: Some(sequential_minus), ..self }
    }

    pub fn diverging(self, diverging: ColorScale) -> (r: LayoutColorScale)
        ensures
            r == (LayoutColorScale { diverging: Some(diverging), ..self }),
    {
        LayoutColorScale { diverging: Some(diverging), ..self }
    }

    /// The serialized object, holding exactly the set fields.
    pub fn to_wire(&self) -> (r: String)
        ensures
            r@ == obj_wire(self.fields()),
    {
        let mut w = ObjWriter::new();
        if let Some(v) = &self.sequential {
            let frag = v.to_frag();
            w.field("sequential", frag.as_str());
        }
        if let Some(v) = &self.sequential_minus {
            let frag = v.to_frag();
            w.field("sequentialminus", frag.as_str());
        }
        if let Some(v) = &self.diverging {
            let frag = v.to_frag();
            w.field("diverging", frag.as_str());
        }
        assert(w.fields() == self.fields());
        w.finish()
    }
}
/// The y-axis settings of a range slider.
#[derive(Debug, Clone)]
pub struct RangeSliderYAxis {
    pub range_mode: Option<SliderRangeMode>,
    pub range: Option<Vec<NumOrString>>,
}

impl RangeSliderYAxis {
    /// The members of the serialized object: exactly the fields that
    /// are set, under their wire keys.
    pub open spec fn fields(&self) -> Seq<(Seq<char>, Seq<char>)> {
        let fs = Seq::<(Seq<char>, Seq<char>)>::empty();
        let fs = match self.range_mode {
            Some(v) => fs.push(("rangemode"@, str_wire(v.tag_spec()))),
            None => fs,
        };
        let fs = match self.range {
            Some(v) => fs.push(("range"@, arr_wire(nos_frags(v@)))),
            None => fs,
        };
        fs
    }

    pub fn new() -> (r: RangeSliderYAxis)
        ensures
            r == (RangeSliderYAxis { range_mode: None, range: None }),
    {
        RangeSliderYAxis { range_mode: None, range: None }
    }

    pub fn range_mode(self, range_mode: SliderRangeMode) -> (r: RangeSliderYAxis)
        ensures
            r == (RangeSliderYAxis { range_mode: Some(range_mode), ..self }),
    {
        RangeSliderYAxis { range_mode: Some(range_mode), ..self }
    }

    pub fn range(self, range: Vec<NumOrString>) -> (r: RangeSliderYAxis)
        ensures
            r == (RangeSliderYAxis { range: Some(range), ..self }),
    {
        RangeSliderYAxis { range: Some(range), ..self }
    }

    /// The serialized object, holding exactly the set fields.
    pub fn to_wire(&self) -> (r: String)
        ensures
            r@ == obj_wire(self.fields()),
    {
        let mut w = ObjWriter::new();
        if let Some(v) = &self.range_mode {
            let frag = json_string(v.tag());
            w.field("rangemode", frag.as_str());
        }
        if let Some(v) = &self.range {
            let frag = json_nos_array(v);
            w.field("range", frag.as_str());
        }
        assert(w.fields() == self.fields());
        w.finish()
    }
}
/// A slider below an axis for narrowing its visible range.
#[derive(Debug, Clone)]
pub struct RangeSlider {
    pub background_color: Option<Color>,
    pub border_color: Option<Color>,
    pub border_width: Option<u64>,
    pub auto_range: Option<bool>,
    pub range: Option<Vec<NumOrString>>,
    pub thickness: Option<DecNum>,
    pub visible: Option<bool>,
    pub y_axis: Option<RangeSliderYAxis>,
}

impl RangeSlider {
    /// The members of the serialized object: exactly the fields that
    /// are set, under their wire keys.
    pub open spec fn fields(&self) -> Seq<(Seq<char>, Seq<char>)> {
        let fs = Seq::<(Seq<char>, Seq<char>)>::empty();
        let fs = match self.background_color {
            Some(v) => fs.push(("bgcolor"@, color_frag(v))),
            None => fs,
        };
        let fs = match self.border_color {
            Some(v) => fs.push(("bordercolor"@, color_frag(v))),
            None => fs,
        };
        let fs = match self.border_width {
            Some(v) => fs.push(("borderwidth"@, u64_wire(v as nat))),
            None => fs,
        };
        let fs = match self.auto_range {
            Some(v) => fs.push(("autorange"@, bool_wire(v))),
            None => fs,
        };
        let fs = match self.range {
            Some(v) => fs.push(("range"@, arr_wire(nos_frags(v@)))),
            None => fs,
        };
        let fs = match self.thickness {
            Some(v) => fs.push(("thickness"@, dec_wire(v))),
            None => fs,
        };
        let fs = match self.visible {
            Some(v) => fs.push(("visible"@, bool_wire(v))),
            None => fs,
        };
        let fs = match self.y_axis {
            Some(v) => fs.push(("yaxis"@, obj_wire(v.fields()))),
            None => fs,
        };
        fs
    }

    pub fn new() -> (r: RangeSlider)
        ensures
            r == (RangeSlider { background_color: None, border_color: None, border_width: None, auto_range: None, range: None, thickness: None, visible: None, y_axis: None }),
    {
        RangeSlider { background_color: None, border_color: None, border_width: None, auto_range: None, range: None, thickness: None, visible: None, y_axis: None }
    }

    pub fn background_color(self, background_color: Color) -> (r: RangeSlider)
        ensures
            r == (RangeSlider { background_color: Some(background_color), ..self }),
    {
        RangeSlider { background_color: Some(background_color), ..self }
    }

    pub fn border_color(self, border_color: Color) -> (r: RangeSlider)
        ensures
            r == (RangeSlider { border_color: Some(border_color), ..self }),
    {
        RangeSlider { border_color: Some(border_color), ..self }
    }

    pub fn border_width(self, border_width: u64) -> (r: RangeSlider)
        ensures
            r == (RangeSlider { border_width: Some(border_width), ..self }),
    {
        RangeSlider { border_width: Some(border_width), ..self }
    }

    pub fn auto_range(self, auto_range: bool) -> (r: RangeSlider)
        ensures
            r == (RangeSlider { auto_range: Some(auto_range), ..self }),
    {
        RangeSlider { auto_range: Some(auto_range), ..self }
    }

    pub fn range(self, range: Vec<NumOrString>) -> (r: RangeSlider)
        ensures
            r == (RangeSlider { range: Some(range), ..self }),
    {
        RangeSlider { range: Some(range), ..self }
    }

    pub fn thickness(self, thickness: DecNum) -> (r: RangeSlider)
        ensures
            r == (RangeSlider { thickness: Some(thickness), ..self }),
    {
        RangeSlider { thickness: Some(thickness), ..self }
    }

    pub fn visible(self, visible: bool) -> (r: RangeSlider)
        ensures
            r == (RangeSlider { visible: Some(visible), ..self }),
    {
        RangeSlider { visible: Some(visible), ..self }
    }

    pub fn y_axis(self, y_axis: RangeSliderYAxis) -> (r: RangeSlider)
        ensures
            r == (RangeSlider { y_axis: Some(y_axis), ..self }),
    {
        RangeSlider { y_axis: Some(y_axis), ..self }
    }

    /// The serialized object, holding exactly the set fields.
    pub fn to_wire(&self) -> (r: String)
        ensures
            r@ == obj_wire(self.fields()),
    {
        let mut w = ObjWriter::new();
        if let Some(v) = &self.background_color {
            let frag = v.to_frag();
            w.field("bgcolor", frag.as_str());
        }
        if let Some(v) = &self.border_color {
            let frag = v.to_frag();
            w.field("bordercolor", frag.as_str());
        }
        if let Some(v) = &self.border_width {
            let frag = json_u64(*v);
            w.field("borderwidth", frag.as_str());
        }
        if let Some(v) = &self.auto_range {
            w.field("autorange", json_bool(*v));
        }
        if let Some(v) = &self.range {
            let frag = json_nos_array(v);
            w.field("range", frag.as_str());
        }
        if let Some(v) = &self.thickness {
            let frag = json_dec(v);
            w.field("thickness", frag.as_str());
        }
        if let Some(v) = &self.visible {
            w.field("visible", json_bool(*v));
        }
        if let Some(v) = &self.y_axis {
            let frag = v.to_wire();
            w.field("yaxis", frag.as_str());
        }
        assert(w.fields() == self.fields());
        w.finish()
    }
}
/// One button of a range selector.
#[derive(Debug, Clone)]
pub struct SelectorButton {
    pub visible: Option<bool>,
    pub step: Option<SelectorStep>,
    pub step_mode: Option<StepMode>,
    pub count: Option<usize>,
    pub label: Option<String>,
    pub name: Option<String>,
    pub template_item_name: Option<String>,
}

impl SelectorButton {
    /// The members of the serialized object: exactly the fields that
    /// are set, under their wire keys.
    pub open spec fn fields(&self) -> Seq<(Seq<char>, Seq<char>)> {
        let fs = Seq::<(Seq<char>, Seq<char>)>::empty();
        let fs = match self.visible {
            Some(v) => fs.push(("visible"@, bool_wire(v))),
            None => fs,
        };
        let fs = match self.step {
            Some(v) => fs.push(("step"@, str_wire(v.tag_spec()))),
            None => fs,
        };
        let fs = match self.step_mode {
            Some(v) => fs.push(("stepmode"@, str_wire(v.tag_spec()))),
            None => fs,
        };
        let fs = match self.count {
            Some(v) => fs.push(("count"@, u64_wire(v as nat))),
            None => fs,
        };
        let fs = match self.label {
            Some(v) => fs.push(("label"@, str_wire(v@))),
            None => fs,
        };
        let fs = match self.name {
            Some(v) => fs.push(("name"@, str_wire(v@))),
            None => fs,
        };
        let fs = match self.template_item_name {
            Some(v) => fs.push(("templateitemname"@, str_wire(v@))),
            None => fs,
        };
        fs
    }

    pub fn new() -> (r: SelectorButton)
        ensures
            r == (SelectorButton { visible: None, step: None, step_mode: None, count: None, label: None, name: None, template_item_name: None }),
    {
        SelectorButton { visible: None, step: None, step_mode: None, count: None, label: None, name: None, template_item_name: None }
    }

    pub fn visible(self, visible: bool) -> (r: SelectorButton)
        ensures
            r == (SelectorButton { visible: Some(visible), ..self }),
    {
        SelectorButton { visible: Some(visible), ..self }
    }

    pub fn step(self, step: SelectorStep) -> (r: SelectorButton)
        ensures
            r == (SelectorButton { step: Some(step), ..self }),
    {
        SelectorButton { step: Some(step), ..self }
    }

    pub fn step_mode(self, step_mode: StepMode) -> (r: SelectorButton)
        ensures
            r == (SelectorButton { step_mode: Some(step_mode), ..self }),
    {
        SelectorButton { step_mode: Some(step_mode), ..self }
    }

    pub fn count(self, count: usize) -> (r: SelectorButton)
        ensures
            r == (SelectorButton { count: Some(count), ..self }),
    {
        SelectorButton { count: Some(count), ..self }
    }

    pub fn label(self, label: &str) -> (r: SelectorButton)
        ensures
            r.label is Some && (r.label->0)@ == label@,
            r == (SelectorButton { label: r.label, ..self }),
    {
        SelectorButton { label: Some(label.to_owned()), ..self }
    }

    pub fn name(self, name: &str) -> (r: SelectorButton)
        ensures
            r.name is Some && (r.name->0)@ == name@,
            r == (SelectorButton { name: r.name, ..self }),
    {
        SelectorButton { name: Some(name.to_owned()), ..self }
    }

    pub fn template_item_name(self, template_item_name: &str) -> (r: SelectorButton)
        ensures
            r.template_item_name is Some && (r.template_item_name->0)@ == template_item_name@,
            r == (SelectorButton { template_item_name: r.template_item_name, ..self }),
    {
        SelectorButton { template_item_name: Some(template_item_name.to_owned()), ..self }
    }

    /// The serialized object, holding exactly the set fields.
    pub fn to_wire(&self) -> (r: String)
        ensures
            r@ == obj_wire(self.fields()),
    {
        let mut w = ObjWriter::new();
        if let Some(v) = &self.visible {
            w.field("visible", json_bool(*v));
        }
        if let Some(v) = &self.step {
            let frag = json_string(v.tag());
            w.field("step", frag.as_str());
        }
        if let Some(v) = &self.step_mode {
            let frag = json_string(v.tag());
            w.field("stepmode", frag.as_str());
        }
        if let Some(v) = &self.count {
            let frag = json_u64(*v as u64);
            w.field("count", frag.as_str());
        }
        if let Some(v) = &self.label {
            let frag = json_string(v.as_str());
            w.field("label", frag.as_str());
        }
        if let Some(v) = &self.name {
            let frag = json_string(v.as_str());
            w.field("name", frag.as_str());
        }
        if let Some(v) = &self.template_item_name {
            let frag = json_string(v.as_str());
            w.field("templateitemname", frag.as_str());
        }
        assert(w.fields() == self.fields());
        w.finish()
    }
}
/// The object fragments of a sequence of [`SelectorButton`] values.
pub open spec fn selector_button_frags(s: Seq<SelectorButton>) -> Seq<Seq<char>> {
    s.map_values(|t: SelectorButton| obj_wire(t.fields()))
}

/// The JSON array of a vector of [`SelectorButton`] values.
pub fn json_selector_button_array(v: &Vec<SelectorButton>) -> (r: String)
    ensures
        r@ == arr_wire(selector_button_frags(v@)),
{
    let mut w = ArrWriter::new();
    let mut i: usize = 0;
    while i < v.len()
        invariant
            w.wf(),
            i <= v.len(),
            w.items() =~= selector_button_frags(v@.take(i as int)),
        decreases v.len() - i,
    {
        let frag = v[i].to_wire();
        w.elem(frag.as_str());
        proof {
            assert(selector_button_frags(v@.take(i + 1)) =~= selector_button_frags(v@.take(i as int)).push(
                obj_wire(v@[i as int].fields()),
            ));
        }
        i = i + 1;
    }
    proof {
        assert(v@.take(v.len() as int) =~= v@);
    }
    w.finish()
}

/// A set of buttons above an axis for selecting preset ranges.
#[derive(Debug, Clone)]
pub struct RangeSelector {
    pub visible: Option<bool>,
    pub buttons: Option<Vec<SelectorButton>>,
    pub x: Option<DecNum>,
    pub x_anchor: Option<Anchor>,
    pub y: Option<DecNum>,
    pub y_anchor: Option<Anchor>,
    pub font: Option<Font>,
    pub background_color: Option<Color>,
    pub active_color: Option<Color>,
    pub border_color: Option<Color>,
    pub border_width: Option<usize>,
}

impl RangeSelector {
    /// The members of the serialized object: exactly the fields that
    /// are set, under their wire keys.
    pub open spec fn fields(&self) -> Seq<(Seq<char>, Seq<char>)> {
        let fs = Seq::<(Seq<char>, Seq<char>)>::empty();
        let fs = match self.visible {
            Some(v) => fs.push(("visible"@, bool_wire(v))),
            None => fs,
        };
        let fs = match self.buttons {
            Some(v) => fs.push(("buttons"@, arr_wire(selector_button_frags(v@)))),
            None => fs,
        };
        let fs = match self.x {
            Some(v) => fs.push(("x"@, dec_wire(v))),
            None => fs,
        };
        let fs = match self.x_anchor {
            Some(v) => fs.push(("xanchor"@, str_wire(v.tag_spec()))),
            None => fs,
        };
        let fs = match self.y {
            Some(v) => fs.push(("y"@, dec_wire(v))),
            None => fs,
        };
        let fs = match self.y_anchor {
            Some(v) => fs.push(("yanchor"@, str_wire(v.tag_spec()))),
            None => fs,
        };
        let fs = match self.font {
            Some(v) => fs.push(("font"@, obj_wire(v.fields()))),
            None => fs,
        };
        let fs = match self.background_color {
            Some(v) => fs.push(("bgcolor"@, color_frag(v))),
            None => fs,
        };
        let fs = match self.active_color {
            Some(v) => fs.push(("activecolor"@, color_frag(v))),
            None => fs,
        };
        let fs = match self.border_color {
            Some(v) => fs.push(("bordercolor"@, color_frag(v))),
            None => fs,
        };
        let fs = match self.border_width {
            Some(v) => fs.push(("borderwidth"@, u64_wire(v as nat))),
            None => fs,
        };
        fs
    }

    pub fn new() -> (r: RangeSelector)
        ensures
            r == (RangeSelector { visible: None, buttons: None, x: None, x_anchor: None, y: None, y_anchor: None, font: None, background_color: None, active_color: None, border_color: None, border_width: None }),
    {
        RangeSelector { visible: None, buttons: None, x: None, x_anchor: None, y: None, y_anchor: None, font: None, background_color: None, active_color: None, border_color: None, border_width: None }
    }

    pub fn visible(self, visible: bool) -> (r: RangeSelector)
        ensures
            r == (RangeSelector { visible: Some(visible), ..self }),
    {
        RangeSelector { visible: Some(visible), ..self }
    }

    pub fn buttons(self, buttons: Vec<SelectorButton>) -> (r: RangeSelector)
        ensures
            r == (RangeSelector { buttons: Some(buttons), ..self }),
    {
        RangeSelector { buttons: Some(buttons), ..self }
    }

    pub fn x(self, x: DecNum) -> (r: RangeSelector)
        ensures
            r == (RangeSelector { x: Some(x), ..self }),
    {
        RangeSelector { x: Some(x), ..self }
    }

    pub fn x_anchor(self, x_anchor: Anchor) -> (r: RangeSelector)
        ensures
            r == (RangeSelector { x_anchor: Some(x_anchor), ..self }),
    {
        RangeSelector { x_anchor: Some(x_anchor), ..self }
    }

    pub fn y(self, y: DecNum) -> (r: RangeSelector)
        ensures
            r == (RangeSelector { y: Some(y), ..self }),
    {
        RangeSelector { y: Some(y), ..self }
    }

    pub fn y_anchor(self, y_anchor: Anchor) -> (r: RangeSelector)
        ensures
            r == (RangeSelector { y_anchor: Some(y_anchor), ..self }),
    {
        RangeSelector { y_anchor: Some(y_anchor), ..self }
    }

    pub fn font(self, font: Font) -> (r: RangeSelector)
        ensures
            r == (RangeSelector { font: Some(font), ..self }),
    {
        RangeSelector { font: Some(font), ..self }
    }

    pub fn background_color(self, background_color: Color) -> (r: RangeSelector)
        ensures
            r == (RangeSelector { background_color: Some(background_color), ..self }),
    {
        RangeSelector { background_color: Some(background_color), ..self }
    }

    pub fn active_color(self, active_color: Color) -> (r: RangeSelector)
        ensures
            r == (RangeSelector { active_color: Some(active_color), ..self }),
    {
        RangeSelector { active_color: Some(active_color), ..self }
    }

    pub fn border_color(self, border_color: Color) -> (r: RangeSelector)
        ensures
            r == (RangeSelector { border_color: Some(border_color), ..self }),
    {
        RangeSelector { border_color: Some(border_color), ..self }
    }

    pub fn border_width(self, border_width: usize) -> (r: RangeSelector)
        ensures
            r == (RangeSelector { border_width: Some(border_width), ..self }),
    {
        RangeSelector { border_width: Some(border_width), ..self }
    }

    /// The serialized object, holding exactly the set fields.
    pub fn to_wire(&self) -> (r: String)
        ensures
            r@ == obj_wire(self.fields()),
    {
        let mut w = ObjWriter::new();
        if let Some(v) = &self.visible {
            w.field("visible", json_bool(*v));
        }
        if let Some(v) = &self.buttons {
            let frag = json_selector_button_array(v);
            w.field("buttons", frag.as_str());
        }
        if let Some(v) = &self.x {
            let frag = json_dec(v);
            w.field("x", frag.as_str());
        }
        if let Some(v) = &self.x_anchor {
            let frag = json_string(v.tag());
            w.field("xanchor", frag.as_str());
        }
        if let Some(v) = &self.y {
            let frag = json_dec(v);
            w.field("y", frag.as_str());
        }
        if let Some(v) = &self.y_anchor {
            let frag = json_string(v.tag());
            w.field("yanchor", frag.as_str());
        }
        if let Some(v) = &self.font {
            let frag = v.to_wire();
            w.field("font", frag.as_str());
        }
        if let Some(v) = &self.background_color {
            let frag = v.to_frag();
            w.field("bgcolor", frag.as_str());
        }
        if let Some(v) = &self.active_color {
            let frag = v.to_frag();
            w.field("activecolor", frag.as_str());
        }
        if let Some(v) = &self.border_color {
            let frag = v.to_frag();
            w.field("bordercolor", frag.as_str());
        }
        if let Some(v) = &self.border_width {
            let frag = json_u64(*v as u64);
            w.field("borderwidth", frag.as_str());
        }
        assert(w.fields() == self.fields());
        w.finish()
    }
}
/// A shared color axis that color-mapped traces can reference.
#[derive(Debug, Clone)]
pub struct ColorAxis {
    pub cauto: Option<bool>,
    pub cmin: Option<DecNum>,
    pub cmax: Option<DecNum>,
    pub cmid: Option<DecNum>,
    pub color_scale: Option<ColorScale>,
    pub auto_color_scale: Option<bool>,
    pub reverse_scale: Option<bool>,
    pub show_scale: Option<bool>,
    pub color_bar: Option<ColorBar>,
}

impl ColorAxis {
    /// The members of the serialized object: exactly the fields that
    /// are set, under their wire keys.
    pub open spec fn fields(&self) -> Seq<(Seq<char>, Seq<char>)> {
        let fs = Seq::<(Seq<char>, Seq<char>)>::empty();
        let fs = match self.cauto {
            Some(v) => fs.push(("cauto"@, bool_wire(v))),
            None => fs,
        };
        let fs = match self.cmin {
            Some(v) => fs.push(("cmin"@, dec_wire(v))),
            None => fs,
        };
        let fs = match self.cmax {
            Some(v) => fs.push(("cmax"@, dec_wire(v))),
            None => fs,
        };
        let fs = match self.cmid {
            Some(v) => fs.push(("cmid"@, dec_wire(v))),
            None => fs,
        };
        let fs = match self.color_scale {
            Some(v) => fs.push(("colorscale"@, color_scale_frag(v))),
            None => fs,
        };
        let fs = match self.auto_color_scale {
            Some(v) => fs.push(("autocolorscale"@, bool_wire(v))),
            None => fs,
        };
        let fs = match self.reverse_scale {
            Some(v) => fs.push(("reversescale"@, bool_wire(v))),
            None => fs,
        };
        let fs = match self.show_scale {
            Some(v) => fs.push(("showscale"@, bool_wire(v))),
            None => fs,
        };
        let fs = match self.color_bar {
            Some(v) => fs.push(("colorbar"@, obj_wire(v.fields()))),
            None => fs,
        };
        fs
    }

    pub fn new() -> (r: ColorAxis)
        ensures
            r == (ColorAxis { cauto: None, cmin: None, cmax: None, cmid: None, color_scale: None, auto_color_scale: None, reverse_scale: None, show_scale: None, color_bar: None }),
    {
        ColorAxis { cauto: None, cmin: None, cmax: None, cmid: None, color_scale: None, auto_color_scale: None, reverse_scale: None, show_scale: None, color_bar: None }
    }

    pub fn cauto(self, cauto: bool) -> (r: ColorAxis)
        ensures
            r == (ColorAxis { cauto: Some(cauto), ..self }),
    {
        ColorAxis { cauto: Some(cauto), ..self }
    }

    pub fn cmin(self, cmin: DecNum) -> (r: ColorAxis)
        ensures
            r == (ColorAxis { cmin: Some(cmin), ..self }),
    {
        ColorAxis { cmin: Some(cmin), ..self }
    }

    pub fn cmax(self, cmax: DecNum) -> (r: ColorAxis)
        ensures
            r == (ColorAxis { cmax: Some(cmax), ..self }),
    {
        ColorAxis { cmax: Some(cmax), ..self }
    }

    pub fn cmid(self, cmid: DecNum) -> (r: ColorAxis)
        ensures
            r == (ColorAxis { cmid: Some(cmid), ..self }),
    {
        ColorAxis { cmid: Some(cmid), ..self }
    }

    pub fn color_scale(self, color_scale: ColorScale) -> (r: ColorAxis)
        ensures
            r == (ColorAxis { color_scale: Some(color_scale), ..self }),
    {
        ColorAxis { color_scale: Some(color_scale), ..self }
    }

    pub fn auto_color_scale(self, auto_color_scale: bool) -> (r: ColorAxis)
        ensures
            r == (ColorAxis { auto_color_scale: Some(auto_color_scale), ..self }),
    {
        ColorAxis { auto_color_scale: Some(auto_color_scale), ..self }
    }

    pub fn reverse_scale(self, reverse_scale: bool) -> (r: ColorAxis)
        ensures
            r == (ColorAxis { reverse_scale: Some(reverse_scale), ..self }),
    {
        ColorAxis { reverse_scale: Some(reverse_scale), ..self }
    }

    pub fn show_scale(self, show_scale: bool) -> (r: ColorAxis)
        ensures
            r == (ColorAxis { show_scale: Some(show_scale), ..self }),
    {
        ColorAxis { show_scale: Some(show_scale), ..self }
    }

    pub fn color_bar(self, color_bar: ColorBar) -> (r: ColorAxis)
        ensures
            r == (ColorAxis { color_bar: Some(color_bar), ..self }),
    {
        ColorAxis { color_bar: Some(color_bar), ..self }
    }

    /// The serialized object, holding exactly the set fields.
    pub fn to_wire(&self) -> (r: String)
        ensures
            r@ == obj_wire(self.fields()),
    {
        let mut w = ObjWriter::new();
        if let Some(v) = &self.cauto {
            w.field("cauto", json_bool(*v));
        }
        if let Some(v) = &self.cmin {
            let frag = json_dec(v);
            w.field("cmin", frag.as_str());
        }
        if let Some(v) = &self.cmax {
            let frag = json_dec(v);
            w.field("cmax", frag.as_str());
        }
        if let Some(v) = &self.cmid {
            let frag = json_dec(v);
            w.field("cmid", frag.as_str());
        }
        if let Some(v) = &self.color_scale {
            let frag = v.to_frag();
            w.field("colorscale", frag.as_str());
        }
        if let Some(v) = &self.auto_color_scale {
            w.field("autocolorscale", json_bool(*v));
        }
        if let Some(v) = &self.reverse_scale {
            w.field("reversescale", json_bool(*v));
        }
        if let Some(v) = &self.show_scale {
            w.field("showscale", json_bool(*v));
        }
        if let Some(v) = &self.color_bar {
            let frag = v.to_wire();
            w.field("colorbar", frag.as_str());
        }
        assert(w.fields() == self.fields());
        w.finish()
    }
}
/// One cartesian axis of a layout.
#[derive(Debug, Clone)]
pub struct Axis {
    pub visible: Option<bool>,
    pub color: Option<Color>,
    pub title: Option<Title>,
    pub axis_type: Option<AxisType>,
    pub auto_range: Option<bool>,
    pub range_mode: Option<RangeMode>,
    pub range: Option<Vec<NumOrString>>,
    pub fixed_range: Option<bool>,
    pub constrain: Option<AxisConstrain>,
    pub constrain_toward: Option<ConstrainDirection>,
    pub tick_mode: Option<TickMode>,
    pub n_ticks: Option<usize>,
    pub tick0: Option<DecNum>,
    pub dtick: Option<DecNum>,
    pub tick_values: Option<Vec<DecNum>>,
    pub tick_text: Option<Vec<String>>,
    pub ticks: Option<TicksDirection>,
    pub ticks_on: Option<TicksPosition>,
    pub mirror: Option<bool>,
    pub tick_length: Option<usize>,
    pub tick_width: Option<usize>,
    pub tick_color: Option<Color>,
    pub show_tick_labels: Option<bool>,
    pub auto_margin: Option<bool>,
    pub show_spikes: Option<bool>,
    pub spike_color: Option<Color>,
    pub spike_thickness: Option<usize>,
    pub spike_dash: Option<DashType>,
    pub spike_mode: Option<String>,
    pub spike_snap: Option<String>,
    pub tick_font: Option<Font>,
    pub tick_angle: Option<DecNum>,
    pub tick_prefix: Option<String>,
    pub show_tick_prefix: Option<ArrayShow>,
    pub tick_suffix: Option<String>,
    pub show_tick_suffix: Option<ArrayShow>,
    pub show_exponent: Option<ArrayShow>,
    pub exponent_format: Option<String>,
    pub separate_thousands: Option<bool>,
    pub tick_format: Option<String>,
    pub tick_format_stops: Option<Vec<TickFormatStop>>,
    pub hover_format: Option<String>,
    pub show_line: Option<bool>,
    pub line_color: Option<Color>,
    pub line_width: Option<usize>,
    pub show_grid: Option<bool>,
    pub grid_color: Option<Color>,
    pub grid_width: Option<usize>,
    pub zero_line: Option<bool>,
    pub zero_line_color: Option<Color>,
    pub zero_line_width: Option<usize>,
    pub show_dividers: Option<bool>,
    pub divider_color: Option<Color>,
    pub divider_width: Option<usize>,
    pub anchor: Option<String>,
    pub side: Option<Side>,
    pub overlaying: Option<String>,
    pub domain: Option<Vec<DecNum>>,
    pub position: Option<DecNum>,
    pub range_slider: Option<RangeSlider>,
    pub range_selector: Option<RangeSelector>,
    pub calendar: Option<Calendar>,
}

impl Axis {
    /// Appends the axis base members; the field groups keep
    /// each serialization proof within the solver's budget.
    pub open spec fn push_axis_base_fields(&self, fs: Seq<(Seq<char>, Seq<char>)>) -> Seq<(Seq<char>, Seq<char>)> {
        let fs = match self.visible {
            Some(v) => fs.push(("visible"@, bool_wire(v))),
            None => fs,
        };
        let fs = match self.color {
            Some(v) => fs.push(("color"@, color_frag(v))),
            None => fs,
        };
        let fs = match self.title {
            Some(v) => fs.push(("title"@, obj_wire(v.fields()))),
            None => fs,
        };
        let fs = match self.axis_type {
            Some(v) => fs.push(("type"@, str_wire(v.tag_spec()))),
            None => fs,
        };
        let fs = match self.auto_range {
            Some(v) => fs.push(("auto_range"@, bool_wire(v))),
            None => fs,
        };
        let fs = match self.range_mode {
            Some(v) => fs.push(("rangemode"@, str_wire(v.tag_spec()))),
            None => fs,
        };
        let fs = match self.range {
            Some(v) => fs.push(("range"@, arr_wire(nos_frags(v@)))),
            None => fs,
        };
        let fs = match self.fixed_range {
            Some(v) => fs.push(("fixedrange"@, bool_wire(v))),
            None => fs,
        };
        fs
    }

    /// Appends the axis tick layout members; the field groups keep
    /// each serialization proof within the solver's budget.
    pub open spec fn push_axis_tick_layout_fields(&self, fs: Seq<(Seq<char>, Seq<char>)>) -> Seq<(Seq<char>, Seq<char>)> {
        let fs = match self.constrain {
            Some(v) => fs.push(("constrain"@, str_wire(v.tag_spec()))),
            None => fs,
        };
        let fs = match self.constrain_toward {
            Some(v) => fs.push(("constraintoward"@, str_wire(v.tag_spec()))),
            None => fs,
        };
        let fs = match self.tick_mode {
            Some(v) => fs.push(("tickmode"@, str_wire(v.tag_spec()))),
            None => fs,
        };
        let fs = match self.n_ticks {
            Some(v) => fs.push(("nticks"@, u64_wire(v as nat))),
            None => fs,
        };
        let fs = match self.tick0 {
            Some(v) => fs.push(("tick0"@, dec_wire(v))),
            None => fs,
        };
        let fs = match self.dtick {
            Some(v) => fs.push(("dtick"@, dec_wire(v))),
            None => fs,
        };
        let fs = match self.tick_values {
            Some(v) => fs.push(("tickvals"@, arr_wire(dec_frags(v@)))),
            None => fs,
        };
        let fs = match self.tick_text {
            Some(v) => fs.push(("tick_text"@, arr_wire(str_frags(v@)))),
            None => fs,
        };
        fs
    }

    /// Appends the axis tick marks members; the field groups keep
    /// each serialization proof within the solver's budget.
    pub open spec fn push_axis_tick_marks_fields(&self, fs: Seq<(Seq<char>, Seq<char>)>) -> Seq<(Seq<char>, Seq<char>)> {
        let fs = match self.ticks {
            Some(v) => fs.push(("ticks"@, str_wire(v.tag_spec()))),
            None => fs,
        };
        let fs = match self.ticks_on {
            Some(v) => fs.push(("tickson"@, str_wire(v.tag_spec()))),
            None => fs,
        };
        let fs = match self.mirror {
            Some(v) => fs.push(("mirror"@, bool_wire(v))),
            None => fs,
        };
        let fs = match self.tick_length {
            Some(v) => fs.push(("ticklen"@, u64_wire(v as nat))),
            None => fs,
        };
        let fs = match self.tick_width {
            Some(v) => fs.push(("tickwidth"@, u64_wire(v as nat))),
            None => fs,
        };
        let fs = match self.tick_color {
            Some(v) => fs.push(("tickcolor"@, color_frag(v))),
            None => fs,
        };
        let fs = match self.show_tick_labels {
            Some(v) => fs.push(("showticklabels"@, bool_wire(v))),
            None => fs,
        };
        let fs = match self.auto_margin {
            Some(v) => fs.push(("automargin"@, bool_wire(v))),
            None => fs,
        };
        fs
    }

    /// Appends the axis spike members; the field groups keep
    /// each serialization proof within the solver's budget.
    pub open spec fn push_axis_spike_fields(&self, fs: Seq<(Seq<char>, Seq<char>)>) -> Seq<(Seq<char>, Seq<char>)> {
        let fs = match self.show_spikes {
            Some(v) => fs.push(("showspikes"@, bool_wire(v))),
            None => fs,
        };
        let fs = match self.spike_color {
            Some(v) => fs.push(("spikecolor"@, color_frag(v))),
            None => fs,
        };
        let fs = match self.spike_thickness {
            Some(v) => fs.push(("spikethickness"@, u64_wire(v as nat))),
            None => fs,
        };
        let fs = match self.spike_dash {
            Some(v) => fs.push(("spikedash"@, str_wire(v.tag_spec()))),
            None => fs,
        };
        let fs = match self.spike_mode {
            Some(v) => fs.push(("spikemode"@, str_wire(v@))),
            None => fs,
        };
        let fs = match self.spike_snap {
            Some(v) => fs.push(("spikesnap"@, str_wire(v@))),
            None => fs,
        };
        fs
    }

    /// Appends the axis tick label members; the field groups keep
    /// each serialization proof within the solver's budget.
    pub open spec fn push_axis_tick_label_fields(&self, fs: Seq<(Seq<char>, Seq<char>)>) -> Seq<(Seq<char>, Seq<char>)> {
        let fs = match self.tick_font {
            Some(v) => fs.push(("tickfont"@, obj_wire(v.fields()))),
            None => fs,
        };
        let fs = match self.tick_angle {
            Some(v) => fs.push(("tickangle"@, dec_wire(v))),
            None => fs,
        };
        let fs = match self.tick_prefix {
            Some(v) => fs.push(("tickprefix"@, str_wire(v@))),
            None => fs,
        };
        let fs = match self.show_tick_prefix {
            Some(v) => fs.push(("showtickprefix"@, str_wire(v.tag_spec()))),
            None => fs,
        };
        let fs = match self.tick_suffix {
            Some(v) => fs.push(("ticksuffix"@, str_wire(v@))),
            None => fs,
        };
        let fs = match self.show_tick_suffix {
            Some(v) => fs.push(("showticksuffix"@, str_wire(v.tag_spec()))),
            None => fs,
        };
        fs
    }

    /// Appends the axis number format members; the field groups keep
    /// each serialization proof within the solver's budget.
    pub open spec fn push_axis_number_format_fields(&self, fs: Seq<(Seq<char>, Seq<char>)>) -> Seq<(Seq<char>, Seq<char>)> {
        let fs = match self.show_exponent {
            Some(v) => fs.push(("showexponent"@, str_wire(v.tag_spec()))),
            None => fs,
        };
        let fs = match self.exponent_format {
            Some(v) => fs.push(("exponentformat"@, str_wire(v@))),
            None => fs,
        };
        let fs = match self.separate_thousands {
            Some(v) => fs.push(("separatethousands"@, bool_wire(v))),
            None => fs,
        };
        let fs = match self.tick_format {
            Some(v) => fs.push(("tickformat"@, str_wire(v@))),
            None => fs,
        };
        let fs = match self.tick_format_stops {
            Some(v) => fs.push(("tickformatstops"@, arr_wire(tick_format_stop_frags(v@)))),
            None => fs,
        };
        let fs = match self.hover_format {
            Some(v) => fs.push(("hoverformat"@, str_wire(v@))),
            None => fs,
        };
        fs
    }

    /// Appends the axis line grid members; the field groups keep
    /// each serialization proof within the solver's budget.
    pub open spec fn push_axis_line_grid_fields(&self, fs: Seq<(Seq<char>, Seq<char>)>) -> Seq<(Seq<char>, Seq<char>)> {
        let fs = match self.show_line {
            Some(v) => fs.push(("showline"@, bool_wire(v))),
            None => fs,
        };
        let fs = match self.line_color {
            Some(v) => fs.push(("linecolor"@, color_frag(v))),
            None => fs,
        };
        let fs = match self.line_width {
            Some(v) => fs.push(("linewidth"@, u64_wire(v as nat))),
            None => fs,
        };
        let fs = match self.show_grid {
            Some(v) => fs.push(("showgrid"@, bool_wire(v))),
            None => fs,
        };
        let fs = match self.grid_color {
            Some(v) => fs.push(("gridcolor"@, color_frag(v))),
            None => fs,
        };
        let fs = match self.grid_width {
            Some(v) => fs.push(("gridwidth"@, u64_wire(v as nat))),
            None => fs,
        };
        fs
    }

    /// Appends the axis zero divider members; the field groups keep
    /// each serialization proof within the solver's budget.
    pub open spec fn push_axis_zero_divider_fields(&self, fs: Seq<(Seq<char>, Seq<char>)>) -> Seq<(Seq<char>, Seq<char>)> {
        let fs = match self.zero_line {
            Some(v) => fs.push(("zeroline"@, bool_wire(v))),
            None => fs,
        };
        let fs = match self.zero_line_color {
            Some(v) => fs.push(("zerolinecolor"@, color_frag(v))),
            None => fs,
        };
        let fs = match self.zero_line_width {
            Some(v) => fs.push(("zerolinewidth"@, u64_wire(v as nat))),
            None => fs,
        };
        let fs = match self.show_dividers {
            Some(v) => fs.push(("showdividers"@, bool_wire(v))),
            None => fs,
        };
        let fs = match self.divider_color {
            Some(v) => fs.push(("dividercolor"@, color_frag(v))),
            None => fs,
        };
        let fs = match self.divider_width {
            Some(v) => fs.push(("dividerwidth"@, u64_wire(v as nat))),
            None => fs,
        };
        fs
    }

    /// Appends the axis placement members; the field groups keep
    /// each serialization proof within the solver's budget.
    pub open spec fn push_axis_placement_fields(&self, fs: Seq<(Seq<char>, Seq<char>)>) -> Seq<(Seq<char>, Seq<char>)> {
        let fs = match self.anchor {
            Some(v) => fs.push(("anchor"@, str_wire(v@))),
            None => fs,
        };
        let fs = match self.side {
            Some(v) => fs.push(("side"@, str_wire(v.tag_spec()))),
            None => fs,
        };
        let fs = match self.overlaying {
            Some(v) => fs.push(("overlaying"@, str_wire(v@))),
            None => fs,
        };
        let fs = match self.domain {
            Some(v) => fs.push(("domain"@, arr_wire(dec_frags(v@)))),
            None => fs,
        };
        let fs = match self.position {
            Some(v) => fs.push(("position"@, dec_wire(v))),
            None => fs,
        };
        let fs = match self.range_slider {
            Some(v) => fs.push(("rangeslider"@, obj_wire(v.fields()))),
            None => fs,
        };
        let fs = match self.range_selector {
            Some(v) => fs.push(("rangeselector"@, obj_wire(v.fields()))),
            None => fs,
        };
        let fs = match self.calendar {
            Some(v) => fs.push(("calendar"@, str_wire(v.tag_spec()))),
            None => fs,
        };
        fs
    }

    /// The members of the serialized object: exactly the fields that
    /// are set, under their wire keys.
    pub open spec fn fields(&self) -> Seq<(Seq<char>, Seq<char>)> {
        let fs = Seq::<(Seq<char>, Seq<char>)>::empty();
        let fs = self.push_axis_base_fields(fs);
        let fs = self.push_axis_tick_layout_fields(fs);
        let fs = self.push_axis_tick_marks_fields(fs);
        let fs = self.push_axis_spike_fields(fs);
        let fs = self.push_axis_tick_label_fields(fs);
        let fs = self.push_axis_number_format_fields(fs);
        let fs = self.push_axis_line_grid_fields(fs);
        let fs = self.push_axis_zero_divider_fields(fs);
        let fs = self.push_axis_placement_fields(fs);
        fs
    }

    pub fn new() -> (r: Axis)
        ensures
            r == (Axis { visible: None, color: None, title: None, axis_type: None, auto_range: None, range_mode: None, range: None, fixed_range: None, constrain: None, constrain_toward: None, tick_mode: None, n_ticks: None, tick0: None, dtick: None, tick_values: None, tick_text: None, ticks: None, ticks_on: None, mirror: None, tick_length: None, tick_width: None, tick_color: None, show_tick_labels: None, auto_margin: None, show_spikes: None, spike_color: None, spike_thickness: None, spike_dash: None, spike_mode: None, spike_snap: None, tick_font: None, tick_angle: None, tick_prefix: None, show_tick_prefix: None, tick_suffix: None, show_tick_suffix: None, show_exponent: None, exponent_format: None, separate_thousands: None, tick_format: None, tick_format_stops: None, hover_format: None, show_line: None, line_color: None, line_width: None, show_grid: None, grid_color: None, grid_width: None, zero_line: None, zero_line_color: None, zero_line_width: None, show_dividers: None, divider_color: None, divider_width: None, anchor: None, side: None, overlaying: None, domain: None, position: None, range_slider: None, range_selector: None, calendar: None }),
    {
        Axis { visible: None, color: None, title: None, axis_type: None, auto_range: None, range_mode: None, range: None, fixed_range: None, constrain: None, constrain_toward: None, tick_mode: None, n_ticks: None, tick0: None, dtick: None, tick_values: None, tick_text: None, ticks: None, ticks_on: None, mirror: None, tick_length: None, tick_width: None, tick_color: None, show_tick_labels: None, auto_margin: None, show_spikes: None, spike_color: None, spike_thickness: None, spike_dash: None, spike_mode: None, spike_snap: None, tick_font: None, tick_angle: None, tick_prefix: None, show_tick_prefix: None, tick_suffix: None, show_tick_suffix: None, show_exponent: None, exponent_format: None, separate_thousands: None, tick_format: None, tick_format_stops: None, hover_format: None, show_line: None, line_color: None, line_width: None, show_grid: None, grid_color: None, grid_width: None, zero_line: None, zero_line_color: None, zero_line_width: None, show_dividers: None, divider_color: None, divider_width: None, anchor: None, side: None, overlaying: None, domain: None, position: None, range_slider: None, range_selector: None, calendar: None }
    }

    pub fn visible(self, visible: bool) -> (r: Axis)
        ensures
            r == (Axis { visible: Some(visible), ..self }),
    {
        Axis { visible: Some(visible), ..self }
    }

    pub fn color(self, color: Color) -> (r: Axis)
        ensures
            r == (Axis { color: Some(color), ..self }),
    {
        Axis { color: Some(color), ..self }
    }

    pub fn title(self, title: Title) -> (r: Axis)
        ensures
            r == (Axis { title: Some(title), ..self }),
    {
        Axis { title: Some(title), ..self }
    }

    pub fn type_(self, type_: AxisType) -> (r: Axis)
        ensures
            r == (Axis { axis_type: Some(type_), ..self }),
    {
        Axis { axis_type: Some(type_), ..self }
    }

    pub fn auto_range(self, auto_range: bool) -> (r: Axis)
        ensures
            r == (Axis { auto_range: Some(auto_range), ..self }),
    {
        Axis { auto_range: Some(auto_range), ..self }
    }

    pub fn range_mode(self, range_mode: RangeMode) -> (r: Axis)
        ensures
            r == (Axis { range_mode: Some(range_mode), ..self }),
    {
        Axis { range_mode: Some(range_mode), ..self }
    }

    pub fn range(self, range: Vec<NumOrString>) -> (r: Axis)
        ensures
            r == (Axis { range: Some(range), ..self }),
    {
        Axis { range: Some(range), ..self }
    }

    pub fn fixed_range(self, fixed_range: bool) -> (r: Axis)
        ensures
            r == (Axis { fixed_range: Some(fixed_range), ..self }),
    {
        Axis { fixed_range: Some(fixed_range), ..self }
    }

    pub fn constrain(self, constrain: AxisConstrain) -> (r: Axis)
        ensures
            r == (Axis { constrain: Some(constrain), ..self }),
    {
        Axis { constrain: Some(constrain), ..self }
    }

    pub fn constrain_toward(self, constrain_toward: ConstrainDirection) -> (r: Axis)
        ensures
            r == (Axis { constrain_toward: Some(constrain_toward), ..self }),
    {
        Axis { constrain_toward: Some(constrain_toward), ..self }
    }

    pub fn tick_mode(self, tick_mode: TickMode) -> (r: Axis)
        ensures
            r == (Axis { tick_mode: Some(tick_mode), ..self }),
    {
        Axis { tick_mode: Some(tick_mode), ..self }
    }

    pub fn n_ticks(self, n_ticks: usize) -> (r: Axis)
        ensures
            r == (Axis { n_ticks: Some(n_ticks), ..self }),
    {
        Axis { n_ticks: Some(n_ticks), ..self }
    }

    pub fn tick0(self, tick0: DecNum) -> (r: Axis)
        ensures
            r == (Axis { tick0: Some(tick0), ..self }),
    {
        Axis { tick0: Some(tick0), ..self }
    }

    pub fn dtick(self, dtick: DecNum) -> (r: Axis)
        ensures
            r == (Axis { dtick: Some(dtick), ..self }),
    {
        Axis { dtick: Some(dtick), ..self }
    }

    pub fn tick_values(self, tick_values: Vec<DecNum>) -> (r: Axis)
        ensures
            r == (Axis { tick_values: Some(tick_values), ..self }),
    {
        Axis { tick_values: Some(tick_values), ..self }
    }

    pub fn tick_text(self, tick_text: Vec<String>) -> (r: Axis)
        ensures
            r == (Axis { tick_text: Some(tick_text), ..self }),
    {
        Axis { tick_text: Some(tick_text), ..self }
    }

    pub fn ticks(self, ticks: TicksDirection) -> (r: Axis)
        ensures
            r == (Axis { ticks: Some(ticks), ..self }),
    {
        Axis { ticks: Some(ticks), ..self }
    }

    pub fn ticks_on(self, ticks_on: TicksPosition) -> (r: Axis)
        ensures
            r == (Axis { ticks_on: Some(ticks_on), ..self }),
    {
        Axis { ticks_on: Some(ticks_on), ..self }
    }

    pub fn mirror(self, mirror: bool) -> (r: Axis)
        ensures
            r == (Axis { mirror: Some(mirror), ..self }),
    {
        Axis { mirror: Some(mirror), ..self }
    }

    pub fn tick_length(self, tick_length: usize) -> (r: Axis)
        ensures
            r == (Axis { tick_length: Some(tick_length), ..self }),
    {
        Axis { tick_length: Some(tick_length), ..self }
    }

    pub fn tick_width(self, tick_width: usize) -> (r: Axis)
        ensures
            r == (Axis { tick_width: Some(tick_width), ..self }),
    {
        Axis { tick_width: Some(tick_width), ..self }
    }

    pub fn tick_color(self, tick_color: Color) -> (r: Axis)
        ensures
            r == (Axis { tick_color: Some(tick_color), ..self }),
    {
        Axis { tick_color: Some(tick_color), ..self }
    }

    pub fn show_tick_labels(self, show_tick_labels: bool) -> (r: Axis)
        ensures
            r == (Axis { show_tick_labels: Some(show_tick_labels), ..self }),
    {
        Axis { show_tick_labels: Some(show_tick_labels), ..self }
    }

    pub fn auto_margin(self, auto_margin: bool) -> (r: Axis)
        ensures
            r == (Axis { auto_margin: Some(auto_margin), ..self }),
    {
        Axis { auto_margin: Some(auto_margin), ..self }
    }

    pub fn show_spikes(self, show_spikes: bool) -> (r: Axis)
        ensures
            r == (Axis { show_spikes: Some(show_spikes), ..self }),
    {
        Axis { show_spikes: Some(show_spikes), ..self }
    }

    pub fn spike_color(self, spike_color: Color) -> (r: Axis)
        ensures
            r == (Axis { spike_color: Some(spike_color), ..self }),
    {
        Axis { spike_color: Some(spike_color), ..self }
    }

    pub fn spike_thickness(self, spike_thickness: usize) -> (r: Axis)
        ensures
            r == (Axis { spike_thickness: Some(spike_thickness), ..self }),
    {
        Axis { spike_thickness: Some(spike_thickness), ..self }
    }

    pub fn spike_dash(self, spike_dash: DashType) -> (r: Axis)
        ensures
            r == (Axis { spike_dash: Some(spike_dash), ..self }),
    {
        Axis { spike_dash: Some(spike_dash), ..self }
    }

    pub fn spike_mode(self, spike_mode: &str) -> (r: Axis)
        ensures
            r.spike_mode is Some && (r.spike_mode->0)@ == spike_mode@,
            r == (Axis { spike_mode: r.spike_mode, ..self }),
    {
        Axis { spike_mode: Some(spike_mode.to_owned()), ..self }
    }

    pub fn spike_snap(self, spike_snap: &str) -> (r: Axis)
        ensures
            r.spike_snap is Some && (r.spike_snap->0)@ == spike_snap@,
            r == (Axis { spike_snap: r.spike_snap, ..self }),
    {
        Axis { spike_snap: Some(spike_snap.to_owned()), ..self }
    }

    pub fn tick_font(self, tick_font: Font) -> (r: Axis)
        ensures
            r == (Axis { tick_font: Some(tick_font), ..self }),
    {
        Axis { tick_font: Some(tick_font), ..self }
    }

    pub fn tick_angle(self, tick_angle: DecNum) -> (r: Axis)
        ensures
            r == (Axis { tick_angle: Some(tick_angle), ..self }),
    {
        Axis { tick_angle: Some(tick_angle), ..self }
    }

    pub fn tick_prefix(self, tick_prefix: &str) -> (r: Axis)
        ensures
            r.tick_prefix is Some && (r.tick_prefix->0)@ == tick_prefix@,
            r == (Axis { tick_prefix: r.tick_prefix, ..self }),
    {
        Axis { tick_prefix: Some(tick_prefix.to_owned()), ..self }
    }

    pub fn show_tick_prefix(self, show_tick_prefix: ArrayShow) -> (r: Axis)
        ensures
            r == (Axis { show_tick_prefix: Some(show_tick_prefix), ..self }),
    {
        Axis { show_tick_prefix: Some(show_tick_prefix), ..self }
    }

    pub fn tick_suffix(self, tick_suffix: &str) -> (r: Axis)
        ensures
            r.tick_suffix is Some && (r.tick_suffix->0)@ == tick_suffix@,
            r == (Axis { tick_suffix: r.tick_suffix, ..self }),
    {
        Axis { tick_suffix: Some(tick_suffix.to_owned()), ..self }
    }

    pub fn show_tick_suffix(self, show_tick_suffix: ArrayShow) -> (r: Axis)
        ensures
            r == (Axis { show_tick_suffix: Some(show_tick_suffix), ..self }),
    {
        Axis { show_tick_suffix: Some(show_tick_suffix), ..self }
    }

    pub fn show_exponent(self, show_exponent: ArrayShow) -> (r: Axis)
        ensures
            r == (Axis { show_exponent: Some(show_exponent), ..self }),
    {
        Axis { show_exponent: Some(show_exponent), ..self }
    }

    pub fn exponent_format(self, exponent_format: &str) -> (r: Axis)
        ensures
            r.exponent_format is Some && (r.exponent_format->0)@ == exponent_format@,
            r == (Axis { exponent_format: r.exponent_format, ..self }),
    {
        Axis { exponent_format: Some(exponent_format.to_owned()), ..self }
    }

    pub fn separate_thousands(self, separate_thousands: bool) -> (r: Axis)
        ensures
            r == (Axis { separate_thousands: Some(separate_thousands), ..self }),
    {
        Axis { separate_thousands: Some(separate_thousands), ..self }
    }

    pub fn tick_format(self, tick_format: &str) -> (r: Axis)
        ensures
            r.tick_format is Some && (r.tick_format->0)@ == tick_format@,
            r == (Axis { tick_format: r.tick_format, ..self }),
    {
        Axis { tick_format: Some(tick_format.to_owned()), ..self }
    }

    pub fn tick_format_stops(self, tick_format_stops: Vec<TickFormatStop>) -> (r: Axis)
        ensures
            r == (Axis { tick_format_stops: Some(tick_format_stops), ..self }),
    {
        Axis { tick_format_stops: Some(tick_format_stops), ..self }
    }

    pub fn hover_format(self, hover_format: &str) -> (r: Axis)
        ensures
            r.hover_format is Some && (r.hover_format->0)@ == hover_format@,
            r == (Axis { hover_format: r.hover_format, ..self }),
    {
        Axis { hover_format: Some(hover_format.to_owned()), ..self }
    }

    pub fn show_line(self, show_line: bool) -> (r: Axis)
        ensures
            r == (Axis { show_line: Some(show_line), ..self }),
    {
        Axis { show_line: Some(show_line), ..self }
    }

    pub fn line_color(self, line_color: Color) -> (r: Axis)
        ensures
            r == (Axis { line_color: Some(line_color), ..self }),
    {
        Axis { line_color: Some(line_color), ..self }
    }

    pub fn line_width(self, line_width: usize) -> (r: Axis)
        ensures
            r == (Axis { line_width: Some(line_width), ..self }),
    {
        Axis { line_width: Some(line_width), ..self }
    }

    pub fn show_grid(self, show_grid: bool) -> (r: Axis)
        ensures
            r == (Axis { show_grid: Some(show_grid), ..self }),
    {
        Axis { show_grid: Some(show_grid), ..self }
    }

    pub fn grid_color(self, grid_color: Color) -> (r: Axis)
        ensures
            r == (Axis { grid_color: Some(grid_color), ..self }),
    {
        Axis { grid_color: Some(grid_color), ..self }
    }

    pub fn grid_width(self, grid_width: usize) -> (r: Axis)
        ensures
            r == (Axis { grid_width: Some(grid_width), ..self }),
    {
        Axis { grid_width: Some(grid_width), ..self }
    }

    pub fn zero_line(self, zero_line: bool) -> (r: Axis)
        ensures
            r == (Axis { zero_line: Some(zero_line), ..self }),
    {
        Axis { zero_line: Some(zero_line), ..self }
    }

    pub fn zero_line_color(self, zero_line_color: Color) -> (r: Axis)
        ensures
            r == (Axis { zero_line_color: Some(zero_line_color), ..self }),
    {
        Axis { zero_line_color: Some(zero_line_color), ..self }
    }

    pub fn zero_line_width(self, zero_line_width: usize) -> (r: Axis)
        ensures
            r == (Axis { zero_line_width: Some(zero_line_width), ..self }),
    {
        Axis { zero_line_width: Some(zero_line_width), ..self }
    }

    pub fn show_dividers(self, show_dividers: bool) -> (r: Axis)
        ensures
            r == (Axis { show_dividers: Some(show_dividers), ..self }),
    {
        Axis { show_dividers: Some(show_dividers), ..self }
    }

    pub fn divider_color(self, divider_color: Color) -> (r: Axis)
        ensures
            r == (Axis { divider_color: Some(divider_color), ..self }),
    {
        Axis { divider_color: Some(divider_color), ..self }
    }

    pub fn divider_width(self, divider_width: usize) -> (r: Axis)
        ensures
            r == (Axis { divider_width: Some(divider_width), ..self }),
    {
        Axis { divider_width: Some(divider_width), ..self }
    }

    pub fn anchor(self, anchor: &str) -> (r: Axis)
        ensures
            r.anchor is Some && (r.anchor->0)@ == anchor@,
            r == (Axis { anchor: r.anchor, ..self }),
    {
        Axis { anchor: Some(anchor.to_owned()), ..self }
    }

    pub fn side(self, side: Side) -> (r: Axis)
        ensures
            r == (Axis { side: Some(side), ..self }),
    {
        Axis { side: Some(side), ..self }
    }

    pub fn overlaying(self, overlaying: &str) -> (r: Axis)
        ensures
            r.overlaying is Some && (r.overlaying->0)@ == overlaying@,
            r == (Axis { overlaying: r.overlaying, ..self }),
    {
        Axis { overlaying: Some(overlaying.to_owned()), ..self }
    }

    pub fn domain(self, domain: Vec<DecNum>) -> (r: Axis)
        ensures
            r == (Axis { domain: Some(domain), ..self }),
    {
        Axis { domain: Some(domain), ..self }
    }

    pub fn position(self, position: DecNum) -> (r: Axis)
        ensures
            r == (Axis { position: Some(position), ..self }),
    {
        Axis { position: Some(position), ..self }
    }

    pub fn range_slider(self, range_slider: RangeSlider) -> (r: Axis)
        ensures
            r == (Axis { range_slider: Some(range_slider), ..self }),
    {
        Axis { range_slider: Some(range_slider), ..self }
    }

    pub fn range_selector(self, range_selector: RangeSelector) -> (r: Axis)
        ensures
            r == (Axis { range_selector: Some(range_selector), ..self }),
    {
        Axis { range_selector: Some(range_selector), ..self }
    }

    pub fn calendar(self, calendar: Calendar) -> (r: Axis)
        ensures
            r == (Axis { calendar: Some(calendar), ..self }),
    {
        Axis { calendar: Some(calendar), ..self }
    }

    /// The serialized object, holding exactly the set fields.
    pub fn to_wire(&self) -> (r: String)
        ensures
            r@ == obj_wire(self.fields()),
    {
        let mut w = ObjWriter::new();
        self.write_axis_base_fields(&mut w);
        self.write_axis_tick_layout_fields(&mut w);
        self.write_axis_tick_marks_fields(&mut w);
        self.write_axis_spike_fields(&mut w);
        self.write_axis_tick_label_fields(&mut w);
        self.write_axis_number_format_fields(&mut w);
        self.write_axis_line_grid_fields(&mut w);
        self.write_axis_zero_divider_fields(&mut w);
        self.write_axis_placement_fields(&mut w);
        assert(w.fields() == self.fields());
        w.finish()
    }

    /// Writes the axis base members into `w`.
    fn write_axis_base_fields(&self, w: &mut ObjWriter)
        requires
            old(w).wf(),
        ensures
            final(w).wf(),
            final(w).fields() == self.push_axis_base_fields(old(w).fields()),
    {
        if let Some(v) = &self.visible {
            w.field("visible", json_bool(*v));
        }
        if let Some(v) = &self.color {
            let frag = v.to_frag();
            w.field("color", frag.as_str());
        }
        if let Some(v) = &self.title {
            let frag = v.to_wire();
            w.field("title", frag.as_str());
        }
        if let Some(v) = &self.axis_type {
            let frag = json_string(v.tag());
            w.field("type", frag.as_str());
        }
        if let Some(v) = &self.auto_range {
            w.field("auto_range", json_bool(*v));
        }
        if let Some(v) = &self.range_mode {
            let frag = json_string(v.tag());
            w.field("rangemode", frag.as_str());
        }
        if let Some(v) = &self.range {
            let frag = json_nos_array(v);
            w.field("range", frag.as_str());
        }
        if let Some(v) = &self.fixed_range {
            w.field("fixedrange", json_bool(*v));
        }
        assert(w.fields() == self.push_axis_base_fields(old(w).fields()));
    }

    /// Writes the axis tick layout members into `w`.
    fn write_axis_tick_layout_fields(&self, w: &mut ObjWriter)
        requires
            old(w).wf(),
        ensures
            final(w).wf(),
            final(w).fields() == self.push_axis_tick_layout_fields(old(w).fields()),
    {
        if let Some(v) = &self.constrain {
            let frag = json_string(v.tag());
            w.field("constrain", frag.as_str());
        }
        if let Some(v) = &self.constrain_toward {
            let frag = json_string(v.tag());
            w.field("constraintoward", frag.as_str());
        }
        if let Some(v) = &self.tick_mode {
            let frag = json_string(v.tag());
            w.field("tickmode", frag.as_str());
        }
        if let Some(v) = &self.n_ticks {
            let frag = json_u64(*v as u64);
            w.field("nticks", frag.as_str());
        }
        if let Some(v) = &self.tick0 {
            let frag = json_dec(v);
            w.field("tick0", frag.as_str());
        }
        if let Some(v) = &self.dtick {
            let frag = json_dec(v);
            w.field("dtick", frag.as_str());
        }
        if let Some(v) = &self.tick_values {
            let frag = json_dec_array(v);
            w.field("tickvals", frag.as_str());
        }
        if let Some(v) = &self.tick_text {
            let frag = json_str_array(v);
            w.field("tick_text", frag.as_str());
        }
        assert(w.fields() == self.push_axis_tick_layout_fields(old(w).fields()));
    }

    /// Writes the axis tick marks members into `w`.
    fn write_axis_tick_marks_fields(&self, w: &mut ObjWriter)
        requires
            old(w).wf(),
        ensures
            final(w).wf(),
            final(w).fields() == self.push_axis_tick_marks_fields(old(w).fields()),
    {
        if let Some(v) = &self.ticks {
            let frag = json_string(v.tag());
            w.field("ticks", frag.as_str());
        }
        if let Some(v) = &self.ticks_on {
            let frag = json_string(v.tag());
            w.field("tickson", frag.as_str());
        }
        if let Some(v) = &self.mirror {
            w.field("mirror", json_bool(*v));
        }
        if let Some(v) = &self.tick_length {
            let frag = json_u64(*v as u64);
            w.field("ticklen", frag.as_str());
        }
        if let Some(v) = &self.tick_width {
            let frag = json_u64(*v as u64);
            w.field("tickwidth", frag.as_str());
        }
        if let Some(v) = &self.tick_color {
            let frag = v.to_frag();
            w.field("tickcolor", frag.as_str());
        }
        if let Some(v) = &self.show_tick_labels {
            w.field("showticklabels", json_bool(*v));
        }
        if let Some(v) = &self.auto_margin {
            w.field("automargin", json_bool(*v));
        }
        assert(w.fields() == self.push_axis_tick_marks_fields(old(w).fields()));
    }

    /// Writes the axis spike members into `w`.
    fn write_axis_spike_fields(&self, w: &mut ObjWriter)
        requires
            old(w).wf(),
        ensures
            final(w).wf(),
            final(w).fields() == self.push_axis_spike_fields(old(w).fields()),
    {
        if let Some(v) = &self.show_spikes {
            w.field("showspikes", json_bool(*v));
        }
        if let Some(v) = &self.spike_color {
            let frag = v.to_frag();
            w.field("spikecolor", frag.as_str());
        }
        if let Some(v) = &self.spike_thickness {
            let frag = json_u64(*v as u64);
            w.field("spikethickness", frag.as_str());
        }
        if let Some(v) = &self.spike_dash {
            let frag = json_string(v.tag());
            w.field("spikedash", frag.as_str());
        }
        if let Some(v) = &self.spike_mode {
            let frag = json_string(v.as_str());
            w.field("spikemode", frag.as_str());
        }
        if let Some(v) = &self.spike_snap {
            let frag = json_string(v.as_str());
            w.field("spikesnap", frag.as_str());
        }
        assert(w.fields() == self.push_axis_spike_fields(old(w).fields()));
    }

    /// Writes the axis tick label members into `w`.
    fn write_axis_tick_label_fields(&self, w: &mut ObjWriter)
        requires
            old(w).wf(),
        ensures
            final(w).wf(),
            final(w).fields() == self.push_axis_tick_label_fields(old(w).fields()),
    {
        if let Some(v) = &self.tick_font {
            let frag = v.to_wire();
            w.field("tickfont", frag.as_str());
        }
        if let Some(v) = &self.tick_angle {
            let frag = json_dec(v);
            w.field("tickangle", frag.as_str());
        }
        if let Some(v) = &self.tick_prefix {
            let frag = json_string(v.as_str());
            w.field("tickprefix", frag.as_str());
        }
        if let Some(v) = &self.show_tick_prefix {
            let frag = json_string(v.tag());
            w.field("showtickprefix", frag.as_str());
        }
        if let Some(v) = &self.tick_suffix {
            let frag = json_string(v.as_str());
            w.field("ticksuffix", frag.as_str());
        }
        if let Some(v) = &self.show_tick_suffix {
            let frag = json_string(v.tag());
            w.field("showticksuffix", frag.as_str());
        }
        assert(w.fields() == self.push_axis_tick_label_fields(old(w).fields()));
    }

    /// Writes the axis number format members into `w`.
    fn write_axis_number_format_fields(&self, w: &mut ObjWriter)
        requires
            old(w).wf(),
        ensures
            final(w).wf(),
            final(w).fields() == self.push_axis_number_format_fields(old(w).fields()),
    {
        if let Some(v) = &self.show_exponent {
            let frag = json_string(v.tag());
            w.field("showexponent", frag.as_str());
        }
        if let Some(v) = &self.exponent_format {
            let frag = json_string(v.as_str());
            w.field("exponentformat", frag.as_str());
        }
        if let Some(v) = &self.separate_thousands {
            w.field("separatethousands", json_bool(*v));
        }
        if let Some(v) = &self.tick_format {
            let frag = json_string(v.as_str());
            w.field("tickformat", frag.as_str());
        }
        if let Some(v) = &self.tick_format_stops {
            let frag = json_tick_format_stop_array(v);
            w.field("tickformatstops", frag.as_str());
        }
        if let Some(v) = &self.hover_format {
            let frag = json_string(v.as_str());
            w.field("hoverformat", frag.as_str());
        }
        assert(w.fields() == self.push_axis_number_format_fields(old(w).fields()));
    }

    /// Writes the axis line grid members into `w`.
    fn write_axis_line_grid_fields(&self, w: &mut ObjWriter)
        requires
            old(w).wf(),
        ensures
            final(w).wf(),
            final(w).fields() == self.push_axis_line_grid_fields(old(w).fields()),
    {
        if let Some(v) = &self.show_line {
            w.field("showline", json_bool(*v));
        }
        if let Some(v) = &self.line_color {
            let frag = v.to_frag();
            w.field("linecolor", frag.as_str());
        }
        if let Some(v) = &self.line_width {
            let frag = json_u64(*v as u64);
            w.field("linewidth", frag.as_str());
        }
        if let Some(v) = &self.show_grid {
            w.field("showgrid", json_bool(*v));
        }
        if let Some(v) = &self.grid_color {
            let frag = v.to_frag();
            w.field("gridcolor", frag.as_str());
        }
        if let Some(v) = &self.grid_width {
            let frag = json_u64(*v as u64);
            w.field("gridwidth", frag.as_str());
        }
        assert(w.fields() == self.push_axis_line_grid_fields(old(w).fields()));
    }

    /// Writes the axis zero divider members into `w`.
    fn write_axis_zero_divider_fields(&self, w: &mut ObjWriter)
        requires
            old(w).wf(),
        ensures
            final(w).wf(),
            final(w).fields() == self.push_axis_zero_divider_fields(old(w).fields()),
    {
        if let Some(v) = &self.zero_line {
            w.field("zeroline", json_bool(*v));
        }
        if let Some(v) = &self.zero_line_color {
            let frag = v.to_frag();
            w.field("zerolinecolor", frag.as_str());
        }
        if let Some(v) = &self.zero_line_width {
            let frag = json_u64(*v as u64);
            w.field("zerolinewidth", frag.as_str());
        }
        if let Some(v) = &self.show_dividers {
            w.field("showdividers", json_bool(*v));
        }
        if let Some(v) = &self.divider_color {
            let frag = v.to_frag();
            w.field("dividercolor", frag.as_str());
        }
        if let Some(v) = &self.divider_width {
            let frag = json_u64(*v as u64);
            w.field("dividerwidth", frag.as_str());
        }
        assert(w.fields() == self.push_axis_zero_divider_fields(old(w).fields()));
    }

    /// Writes the axis placement members into `w`.
    fn write_axis_placement_fields(&self, w: &mut ObjWriter)
        requires
            old(w).wf(),
        ensures
            final(w).wf(),
            final(w).fields() == self.push_axis_placement_fields(old(w).fields()),
    {
        if let Some(v) = &self.anchor {
            let frag = json_string(v.as_str());
            w.field("anchor", frag.as_str());
        }
        if let Some(v) = &self.side {
            let frag = json_string(v.tag());
            w.field("side", frag.as_str());
        }
        if let Some(v) = &self.overlaying {
            let frag = json_string(v.as_str());
            w.field("overlaying", frag.as_str());
        }
        if let Some(v) = &self.domain {
            let frag = json_dec_array(v);
            w.field("domain", frag.as_str());
        }
        if let Some(v) = &self.position {
            let frag = json_dec(v);
            w.field("position", frag.as_str());
        }
        if let Some(v) = &self.range_slider {
            let frag = v.to_wire();
            w.field("rangeslider", frag.as_str());
        }
        if let Some(v) = &self.range_selector {
            let frag = v.to_wire();
            w.field("rangeselector", frag.as_str());
        }
        if let Some(v) = &self.calendar {
            let frag = json_string(v.tag());
            w.field("calendar", frag.as_str());
        }
        assert(w.fields() == self.push_axis_placement_fields(old(w).fields()));
    }
}
/// The fraction of the plotting area a grid occupies.
#[derive(Debug, Clone)]
pub struct GridDomain {
    pub x: Option<Vec<DecNum>>,
    pub y: Option<Vec<DecNum>>,
}

impl GridDomain {
    /// The members of the serialized object: exactly the fields that
    /// are set, under their wire keys.
    pub open spec fn fields(&self) -> Seq<(Seq<char>, Seq<char>)> {
        let fs = Seq::<(Seq<char>, Seq<char>)>::empty();
        let fs = match self.x {
            Some(v) => fs.push(("x"@, arr_wire(dec_frags(v@)))),
            None => fs,
        };
        let fs = match self.y {
            Some(v) => fs.push(("y"@, arr_wire(dec_frags(v@)))),
            None => fs,
        };
        fs
    }

    pub fn new() -> (r: GridDomain)
        ensures
            r == (GridDomain { x: None, y: None }),
    {
        GridDomain { x: None, y: None }
    }

    pub fn x(self, x: Vec<DecNum>) -> (r: GridDomain)
        ensures
            r == (GridDomain { x: Some(x), ..self }),
    {
        GridDomain { x: Some(x), ..self }
    }

    pub fn y(self, y: Vec<DecNum>) -> (r: GridDomain)
        ensures
            r == (GridDomain { y: Some(y), ..self }),
    {
        GridDomain { y: Some(y), ..self }
    }

    /// The serialized object, holding exactly the set fields.
    pub fn to_wire(&self) -> (r: String)
        ensures
            r@ == obj_wire(self.fields()),
    {
        let mut w = ObjWriter::new();
        if let Some(v) = &self.x {
            let frag = json_dec_array(v);
            w.field("x", frag.as_str());
        }
        if let Some(v) = &self.y {
            let frag = json_dec_array(v);
            w.field("y", frag.as_str());
        }
        assert(w.fields() == self.fields());
        w.finish()
    }
}
/// A grid of subplots.
#[derive(Debug, Clone)]
pub struct LayoutGrid {
    pub rows: Option<usize>,
    pub row_order: Option<RowOrder>,
    pub columns: Option<usize>,
    pub sub_plots: Option<Vec<String>>,
    pub x_axes: Option<Vec<String>>,
    pub y_axes: Option<Vec<String>>,
    pub pattern: Option<GridPattern>,
    pub x_gap: Option<DecNum>,
    pub y_gap: Option<DecNum>,
    pub domain: Option<GridDomain>,
    pub x_side: Option<GridXSide>,
    pub y_side: Option<GridYSide>,
}

impl LayoutGrid {
    /// Appends the grid structure members; the field groups keep
    /// each serialization proof within the solver's budget.
    pub open spec fn push_grid_structure_fields(&self, fs: Seq<(Seq<char>, Seq<char>)>) -> Seq<(Seq<char>, Seq<char>)> {
        let fs = match self.rows {
            Some(v) => fs.push(("rows"@, u64_wire(v as nat))),
            None => fs,
        };
        let fs = match self.row_order {
            Some(v) => fs.push(("roworder"@, str_wire(v.tag_spec()))),
            None => fs,
        };
        let fs = match self.columns {
            Some(v) => fs.push(("columns"@, u64_wire(v as nat))),
            None => fs,
        };
        let fs = match self.sub_plots {
            Some(v) => fs.push(("subplots"@, arr_wire(str_frags(v@)))),
            None => fs,
        };
        let fs = match self.x_axes {
            Some(v) => fs.push(("xaxes"@, arr_wire(str_frags(v@)))),
            None => fs,
        };
        let fs = match self.y_axes {
            Some(v) => fs.push(("yaxes"@, arr_wire(str_frags(v@)))),
            None => fs,
        };
        fs
    }

    /// Appends the grid placement members; the field groups keep
    /// each serialization proof within the solver's budget.
    pub open spec fn push_grid_placement_fields(&self, fs: Seq<(Seq<char>, Seq<char>)>) -> Seq<(Seq<char>, Seq<char>)> {
        let fs = match self.pattern {
            Some(v) => fs.push(("pattern"@, str_wire(v.tag_spec()))),
            None => fs,
        };
        let fs = match self.x_gap {
            Some(v) => fs.push(("xgap"@, dec_wire(v))),
            None => fs,
        };
        let fs = match self.y_gap {
            Some(v) => fs.push(("ygap"@, dec_wire(v))),
            None => fs,
        };
        let fs = match self.domain {
            Some(v) => fs.push(("domain"@, obj_wire(v.fields()))),
            None => fs,
        };
        let fs = match self.x_side {
            Some(v) => fs.push(("xside"@, str_wire(v.tag_spec()))),
            None => fs,
        };
        let fs = match self.y_side {
            Some(v) => fs.push(("yside"@, str_wire(v.tag_spec()))),
            None => fs,
        };
        fs
    }

    /// The members of the serialized object: exactly the fields that
    /// are set, under their wire keys.
    pub open spec fn fields(&self) -> Seq<(Seq<char>, Seq<char>)> {
        let fs = Seq::<(Seq<char>, Seq<char>)>::empty();
        let fs = self.push_grid_structure_fields(fs);
        let fs = self.push_grid_placement_fields(fs);
        fs
    }

    pub fn new() -> (r: LayoutGrid)
        ensures
            r == (LayoutGrid { rows: None, row_order: None, columns: None, sub_plots: None, x_axes: None, y_axes: None, pattern: None, x_gap: None, y_gap: None, domain: None, x_side: None, y_side: None }),
    {
        LayoutGrid { rows: None, row_order: None, columns: None, sub_plots: None, x_axes: None, y_axes: None, pattern: None, x_gap: None, y_gap: None, domain: None, x_side: None, y_side: None }
    }

    pub fn rows(self, rows: usize) -> (r: LayoutGrid)
        ensures
            r == (LayoutGrid { rows: Some(rows), ..self }),
    {
        LayoutGrid { rows: Some(rows), ..self }
    }

    pub fn row_order(self, row_order: RowOrder) -> (r: LayoutGrid)
        ensures
            r == (LayoutGrid { row_order: Some(row_order), ..self }),
    {
        LayoutGrid { row_order: Some(row_order), ..self }
    }

    pub fn columns(self, columns: usize) -> (r: LayoutGrid)
        ensures
            r == (LayoutGrid { columns: Some(columns), ..self }),
    {
        LayoutGrid { columns: Some(columns), ..self }
    }

    pub fn sub_plots(self, sub_plots: Vec<String>) -> (r: LayoutGrid)
        ensures
            r == (LayoutGrid { sub_plots: Some(sub_plots), ..self }),
    {
        LayoutGrid { sub_plots: Some(sub_plots), ..self }
    }

    pub fn x_axes(self, x_axes: Vec<String>) -> (r: LayoutGrid)
        ensures
            r == (LayoutGrid { x_axes: Some(x_axes), ..self }),
    {
        LayoutGrid { x_axes: Some(x_axes), ..self }
    }

    pub fn y_axes(self, y_axes: Vec<String>) -> (r: LayoutGrid)
        ensures
            r == (LayoutGrid { y_axes: Some(y_axes), ..self }),
    {
        LayoutGrid { y_axes: Some(y_axes), ..self }
    }

    pub fn pattern(self, pattern: GridPattern) -> (r: LayoutGrid)
        ensures
            r == (LayoutGrid { pattern: Some(pattern), ..self }),
    {
        LayoutGrid { pattern: Some(pattern), ..self }
    }

    pub fn x_gap(self, x_gap: DecNum) -> (r: LayoutGrid)
        ensures
            r == (LayoutGrid { x_gap: Some(x_gap), ..self }),
    {
        LayoutGrid { x_gap: Some(x_gap), ..self }
    }

    pub fn y_gap(self, y_gap: DecNum) -> (r: LayoutGrid)
        ensures
            r == (LayoutGrid { y_gap: Some(y_gap), ..self }),
    {
        LayoutGrid { y_gap: Some(y_gap), ..self }
    }

    pub fn domain(self, domain: GridDomain) -> (r: LayoutGrid)
        ensures
            r == (LayoutGrid { domain: Some(domain), ..self }),
    {
        LayoutGrid { domain: Some(domain), ..self }
    }

    pub fn x_side(self, x_side: GridXSide) -> (r: LayoutGrid)
        ensures
            r == (LayoutGrid { x_side: Some(x_side), ..self }),
    {
        LayoutGrid { x_side: Some(x_side), ..self }
    }

    pub fn y_side(self, y_side: GridYSide) -> (r: LayoutGrid)
        ensures
            r == (LayoutGrid { y_side: Some(y_side), ..self }),
    {
        LayoutGrid { y_side: Some(y_side), ..self }
    }

    /// The serialized object, holding exactly the set fields.
    pub fn to_wire(&self) -> (r: String)
        ensures
            r@ == obj_wire(self.fields()),
    {
        let mut w = ObjWriter::new();
        self.write_grid_structure_fields(&mut w);
        self.write_grid_placement_fields(&mut w);
        assert(w.fields() == self.fields());
        w.finish()
    }

    /// Writes the grid structure members into `w`.
    fn write_grid_structure_fields(&self, w: &mut ObjWriter)
        requires
            old(w).wf(),
        ensures
            final(w).wf(),
            final(w).fields() == self.push_grid_structure_fields(old(w).fields()),
    {
        if let Some(v) = &self.rows {
            let frag = json_u64(*v as u64);
            w.field("rows", frag.as_str());
        }
        if let Some(v) = &self.row_order {
            let frag = json_string(v.tag());
            w.field("roworder", frag.as_str());
        }
        if let Some(v) = &self.columns {
            let frag = json_u64(*v as u64);
            w.field("columns", frag.as_str());
        }
        if let Some(v) = &self.sub_plots {
            let frag = json_str_array(v);
            w.field("subplots", frag.as_str());
        }
        if let Some(v) = &self.x_axes {
            let frag = json_str_array(v);
            w.field("xaxes", frag.as_str());
        }
        if let Some(v) = &self.y_axes {
            let frag = json_str_array(v);
            w.field("yaxes", frag.as_str());
        }
        assert(w.fields() == self.push_grid_structure_fields(old(w).fields()));
    }

    /// Writes the grid placement members into `w`.
    fn write_grid_placement_fields(&self, w: &mut ObjWriter)
        requires
            old(w).wf(),
        ensures
            final(w).wf(),
            final(w).fields() == self.push_grid_placement_fields(old(w).fields()),
    {
        if let Some(v) = &self.pattern {
            let frag = json_string(v.tag());
            w.field("pattern", frag.as_str());
        }
        if let Some(v) = &self.x_gap {
            let frag = json_dec(v);
            w.field("xgap", frag.as_str());
        }
        if let Some(v) = &self.y_gap {
            let frag = json_dec(v);
            w.field("ygap", frag.as_str());
        }
        if let Some(v) = &self.domain {
            let frag = v.to_wire();
            w.field("domain", frag.as_str());
        }
        if let Some(v) = &self.x_side {
            let frag = json_string(v.tag());
            w.field("xside", frag.as_str());
        }
        if let Some(v) = &self.y_side {
            let frag = json_string(v.tag());
            w.field("yside", frag.as_str());
        }
        assert(w.fields() == self.push_grid_placement_fields(old(w).fields()));
    }
}
/// Uniform sizing rules for the text of all traces.
#[derive(Debug, Clone)]
pub struct UniformText {
    pub mode: Option<UniformTextMode>,
    pub min_size: Option<usize>,
}

impl UniformText {
    /// The members of the serialized object: exactly the fields that
    /// are set, under their wire keys.
    pub open spec fn fields(&self) -> Seq<(Seq<char>, Seq<char>)> {
        let fs = Seq::<(Seq<char>, Seq<char>)>::empty();
        let fs = match self.mode {
            Some(v) => fs.push(("mode"@, truthy_wire(v))),
            None => fs,
        };
        let fs = match self.min_size {
            Some(v) => fs.push(("min_size"@, u64_wire(v as nat))),
            None => fs,
        };
        fs
    }

    pub fn new() -> (r: UniformText)
        ensures
            r == (UniformText { mode: None, min_size: None }),
    {
        UniformText { mode: None, min_size: None }
    }

    pub fn mode(self, mode: UniformTextMode) -> (r: UniformText)
        ensures
            r == (UniformText { mode: Some(mode), ..self }),
    {
        UniformText { mode: Some(mode), ..self }
    }

    pub fn min_size(self, min_size: usize) -> (r: UniformText)
        ensures
            r == (UniformText { min_size: Some(min_size), ..self }),
    {
        UniformText { min_size: Some(min_size), ..self }
    }

    /// The serialized object, holding exactly the set fields.
    pub fn to_wire(&self) -> (r: String)
        ensures
            r@ == obj_wire(self.fields()),
    {
        let mut w = ObjWriter::new();
        if let Some(v) = &self.mode {
            let frag = json_truthy(v);
            w.field("mode", frag.as_str());
        }
        if let Some(v) = &self.min_size {
            let frag = json_u64(*v as u64);
            w.field("min_size", frag.as_str());
        }
        assert(w.fields() == self.fields());
        w.finish()
    }
}
/// Style of the mode bar shown above a rendered plot.
#[derive(Debug, Clone)]
pub struct ModeBar {
    pub orientation: Option<Orientation>,
    pub background_color: Option<Color>,
    pub color: Option<Color>,
    pub active_color: Option<Color>,
}

impl ModeBar {
    /// The members of the serialized object: exactly the fields that
    /// are set, under their wire keys.
    pub open spec fn fields(&self) -> Seq<(Seq<char>, Seq<char>)> {
        let fs = Seq::<(Seq<char>, Seq<char>)>::empty();
        let fs = match self.orientation {
            Some(v) => fs.push(("orientation"@, str_wire(v.tag_spec()))),
            None => fs,
        };
        let fs = match self.background_color {
            Some(v) => fs.push(("bgcolor"@, color_frag(v))),
            None => fs,
        };
        let fs = match self.color {
            Some(v) => fs.push(("color"@, color_frag(v))),
            None => fs,
        };
        let fs = match self.active_color {
            Some(v) => fs.push(("activecolor"@, color_frag(v))),
            None => fs,
        };
        fs
    }

    pub fn new() -> (r: ModeBar)
        ensures
            r == (ModeBar { orientation: None, background_color: None, color: None, active_color: None }),
    {
        ModeBar { orientation: None, background_color: None, color: None, active_color: None }
    }

    pub fn orientation(self, orientation: Orientation) -> (r: ModeBar)
        ensures
            r == (ModeBar { orientation: Some(orientation), ..self }),
    {
        ModeBar { orientation: Some(orientation), ..self }
    }

    pub fn background_color(self, background_color: Color) -> (r: ModeBar)
        ensures
            r == (ModeBar { background_color: Some(background_color), ..self }),
    {
        ModeBar { background_color: Some(background_color), ..self }
    }

    pub fn color(self, color: Color) -> (r: ModeBar)
        ensures
            r == (ModeBar { color: Some(color), ..self }),
    {
        ModeBar { color: Some(color), ..self }
    }

    pub fn active_color(self, active_color: Color) -> (r: ModeBar)
        ensures
            r == (ModeBar { active_color: Some(active_color), ..self }),
    {
        ModeBar { active_color: Some(active_color), ..self }
    }

    /// The serialized object, holding exactly the set fields.
    pub fn to_wire(&self) -> (r: String)
        ensures
            r@ == obj_wire(self.fields()),
    {
        let mut w = ObjWriter::new();
        if let Some(v) = &self.orientation {
            let frag = json_string(v.tag());
            w.field("orientation", frag.as_str());
        }
        if let Some(v) = &self.background_color {
            let frag = v.to_frag();
            w.field("bgcolor", frag.as_str());
        }
        if let Some(v) = &self.color {
            let frag = v.to_frag();
            w.field("color", frag.as_str());
        }
        if let Some(v) = &self.active_color {
            let frag = v.to_frag();
            w.field("activecolor", frag.as_str());
        }
        assert(w.fields() == self.fields());
        w.finish()
    }
}
/// Style of the border line of a shape.
#[derive(Debug, Clone)]
pub struct Line {
    pub color: Option<Color>,
    pub width: Option<u8>,
    pub dash: Option<String>,
}

impl Line {
    /// The members of the serialized object: exactly the fields that
    /// are set, under their wire keys.
    pub open spec fn fields(&self) -> Seq<(Seq<char>, Seq<char>)> {
        let fs = Seq::<(Seq<char>, Seq<char>)>::empty();
        let fs = match self.color {
            Some(v) => fs.push(("color"@, color_frag(v))),
            None => fs,
        };
        let fs = match self.width {
            Some(v) => fs.push(("width"@, u64_wire(v as nat))),
            None => fs,
        };
        let fs = match self.dash {
            Some(v) => fs.push(("dash"@, str_wire(v@))),
            None => fs,
        };
        fs
    }

    pub fn new() -> (r: Line)
        ensures
            r == (Line { color: None, width: None, dash: None }),
    {
        Line { color: None, width: None, dash: None }
    }

    pub fn color(self, color: Color) -> (r: Line)
        ensures
            r == (Line { color: Some(color), ..self }),
    {
        Line { color: Some(color), ..self }
    }

    pub fn width(self, width: u8) -> (r: Line)
        ensures
            r == (Line { width: Some(width), ..self }),
    {
        Line { width: Some(width), ..self }
    }

    pub fn dash(self, dash: String) -> (r: Line)
        ensures
            r == (Line { dash: Some(dash), ..self }),
    {
        Line { dash: Some(dash), ..self }
    }

    /// The serialized object, holding exactly the set fields.
    pub fn to_wire(&self) -> (r: String)
        ensures
            r@ == obj_wire(self.fields()),
    {
        let mut w = ObjWriter::new();
        if let Some(v) = &self.color {
            let frag = v.to_frag();
            w.field("color", frag.as_str());
        }
        if let Some(v) = &self.width {
            let frag = json_u64(*v as u64);
            w.field("width", frag.as_str());
        }
        if let Some(v) = &self.dash {
            let frag = json_string(v.as_str());
            w.field("dash", frag.as_str());
        }
        assert(w.fields() == self.fields());
        w.finish()
    }
}
/// A figure drawn on the layout: a rectangle, circle, line or path.
#[derive(Debug, Clone)]
pub struct Shape {
    pub visible: Option<bool>,
    pub layout_type: Option<LayoutType>,
    pub layer: Option<Layer>,
    pub x_ref: Option<String>,
    pub x_size_mode: Option<XSizeMode>,
    pub x_anchor: Option<DecNum>,
    pub x0: Option<DecNum>,
    pub x1: Option<DecNum>,
    pub y_ref: Option<String>,
    pub y_size_mode: Option<YSizeMode>,
    pub y_anchor: Option<DecNum>,
    pub y0: Option<DecNum>,
    pub y1: Option<DecNum>,
    pub path: Option<String>,
    pub opacity: Option<DecNum>,
    pub line: Option<Line>,
    pub fill_color: Option<Color>,
    pub fill_rule: Option<FillRule>,
    pub editable: Option<bool>,
    pub name: Option<String>,
    pub template_item_name: Option<String>,
}

impl Shape {
    /// Appends the shape kind members; the field groups keep
    /// each serialization proof within the solver's budget.
    pub open spec fn push_shape_kind_fields(&self, fs: Seq<(Seq<char>, Seq<char>)>) -> Seq<(Seq<char>, Seq<char>)> {
        let fs = match self.visible {
            Some(v) => fs.push(("visible"@, bool_wire(v))),
            None => fs,
        };
        let fs = match self.layout_type {
            Some(v) => fs.push(("type"@, str_wire(v.tag_spec()))),
            None => fs,
        };
        let fs = match self.layer {
            Some(v) => fs.push(("layer"@, str_wire(v.tag_spec()))),
            None => fs,
        };
        fs
    }

    /// Appends the shape x members; the field groups keep
    /// each serialization proof within the solver's budget.
    pub open spec fn push_shape_x_fields(&self, fs: Seq<(Seq<char>, Seq<char>)>) -> Seq<(Seq<char>, Seq<char>)> {
        let fs = match self.x_ref {
            Some(v) => fs.push(("xref"@, str_wire(v@))),
            None => fs,
        };
        let fs = match self.x_size_mode {
            Some(v) => fs.push(("xsizemode"@, str_wire(v.tag_spec()))),
            None => fs,
        };
        let fs = match self.x_anchor {
            Some(v) => fs.push(("xanchor"@, dec_wire(v))),
            None => fs,
        };
        let fs = match self.x0 {
            Some(v) => fs.push(("x0"@, dec_wire(v))),
            None => fs,
        };
        let fs = match self.x1 {
            Some(v) => fs.push(("x1"@, dec_wire(v))),
            None => fs,
        };
        fs
    }

    /// Appends the shape y members; the field groups keep
    /// each serialization proof within the solver's budget.
    pub open spec fn push_shape_y_fields(&self, fs: Seq<(Seq<char>, Seq<char>)>) -> Seq<(Seq<char>, Seq<char>)> {
        let fs = match self.y_ref {
            Some(v) => fs.push(("yref"@, str_wire(v@))),
            None => fs,
        };
        let fs = match self.y_size_mode {
            Some(v) => fs.push(("ysizemode"@, str_wire(v.tag_spec()))),
            None => fs,
        };
        let fs = match self.y_anchor {
            Some(v) => fs.push(("yanchor"@, dec_wire(v))),
            None => fs,
        };
        let fs = match self.y0 {
            Some(v) => fs.push(("y0"@, dec_wire(v))),
            None => fs,
        };
        let fs = match self.y1 {
            Some(v) => fs.push(("y1"@, dec_wire(v))),
            None => fs,
        };
        fs
    }

    /// Appends the shape style members; the field groups keep
    /// each serialization proof within the solver's budget.
    pub open spec fn push_shape_style_fields(&self, fs: Seq<(Seq<char>, Seq<char>)>) -> Seq<(Seq<char>, Seq<char>)> {
        let fs = match self.path {
            Some(v) => fs.push(("path"@, str_wire(v@))),
            None => fs,
        };
        let fs = match self.opacity {
            Some(v) => fs.push(("opacity"@, dec_wire(v))),
            None => fs,
        };
        let fs = match self.line {
            Some(v) => fs.push(("line"@, obj_wire(v.fields()))),
            None => fs,
        };
        let fs = match self.fill_color {
            Some(v) => fs.push(("fillcolor"@, color_frag(v))),
            None => fs,
        };
        let fs = match self.fill_rule {
            Some(v) => fs.push(("fillrule"@, str_wire(v.tag_spec()))),
            None => fs,
        };
        let fs = match self.editable {
            Some(v) => fs.push(("editable"@, bool_wire(v))),
            None => fs,
        };
        let fs = match self.name {
            Some(v) => fs.push(("name"@, str_wire(v@))),
            None => fs,
        };
        let fs = match self.template_item_name {
            Some(v) => fs.push(("templateitemname"@, str_wire(v@))),
            None => fs,
        };
        fs
    }

    /// The members of the serialized object: exactly the fields that
    /// are set, under their wire keys.
    pub open spec fn fields(&self) -> Seq<(Seq<char>, Seq<char>)> {
        let fs = Seq::<(Seq<char>, Seq<char>)>::empty();
        let fs = self.push_shape_kind_fields(fs);
        let fs = self.push_shape_x_fields(fs);
        let fs = self.push_shape_y_fields(fs);
        let fs = self.push_shape_style_fields(fs);
        fs
    }

    pub fn new() -> (r: Shape)
        ensures
            r == (Shape { visible: None, layout_type: None, layer: None, x_ref: None, x_size_mode: None, x_anchor: None, x0: None, x1: None, y_ref: None, y_size_mode: None, y_anchor: None, y0: None, y1: None, path: None, opacity: None, line: None, fill_color: None, fill_rule: None, editable: None, name: None, template_item_name: None }),
    {
        Shape { visible: None, layout_type: None, layer: None, x_ref: None, x_size_mode: None, x_anchor: None, x0: None, x1: None, y_ref: None, y_size_mode: None, y_anchor: None, y0: None, y1: None, path: None, opacity: None, line: None, fill_color: None, fill_rule: None, editable: None, name: None, template_item_name: None }
    }

    pub fn visible(self, visible: bool) -> (r: Shape)
        ensures
            r == (Shape { visible: Some(visible), ..self }),
    {
        Shape { visible: Some(visible), ..self }
    }

    pub fn layout_type(self, layout_type: LayoutType) -> (r: Shape)
        ensures
            r == (Shape { layout_type: Some(layout_type), ..self }),
    {
        Shape { layout_type: Some(layout_type), ..self }
    }

    pub fn layer(self, layer: Layer) -> (r: Shape)
        ensures
            r == (Shape { layer: Some(layer), ..self }),
    {
        Shape { layer: Some(layer), ..self }
    }

    pub fn x_ref(self, x_ref: String) -> (r: Shape)
        ensures
            r == (Shape { x_ref: Some(x_ref), ..self }),
    {
        Shape { x_ref: Some(x_ref), ..self }
    }

    pub fn x_size_mode(self, x_size_mode: XSizeMode) -> (r: Shape)
        ensures
            r == (Shape { x_size_mode: Some(x_size_mode), ..self }),
    {
        Shape { x_size_mode: Some(x_size_mode), ..self }
    }

    pub fn x_anchor(self, x_anchor: DecNum) -> (r: Shape)
        ensures
            r == (Shape { x_anchor: Some(x_anchor), ..self }),
    {
        Shape { x_anchor: Some(x_anchor), ..self }
    }

    pub fn x0(self, x0: DecNum) -> (r: Shape)
        ensures
            r == (Shape { x0: Some(x0), ..self }),
    {
        Shape { x0: Some(x0), ..self }
    }

    pub fn x1(self, x1: DecNum) -> (r: Shape)
        ensures
            r == (Shape { x1: Some(x1), ..self }),
    {
        Shape { x1: Some(x1), ..self }
    }

    pub fn y_ref(self, y_ref: String) -> (r: Shape)
        ensures
            r == (Shape { y_ref: Some(y_ref), ..self }),
    {
        Shape { y_ref: Some(y_ref), ..self }
    }

    pub fn y_size_mode(self, y_size_mode: YSizeMode) -> (r: Shape)
        ensures
            r == (Shape { y_size_mode: Some(y_size_mode), ..self }),
    {
        Shape { y_size_mode: Some(y_size_mode), ..self }
    }

    pub fn y_anchor(self, y_anchor: DecNum) -> (r: Shape)
        ensures
            r == (Shape { y_anchor: Some(y_anchor), ..self }),
    {
        Shape { y_anchor: Some(y_anchor), ..self }
    }

    pub fn y0(self, y0: DecNum) -> (r: Shape)
        ensures
            r == (Shape { y0: Some(y0), ..self }),
    {
        Shape { y0: Some(y0), ..self }
    }

    pub fn y1(self, y1: DecNum) -> (r: Shape)
        ensures
            r == (Shape { y1: Some(y1), ..self }),
    {
        Shape { y1: Some(y1), ..self }
    }

    pub fn path(self, path: String) -> (r: Shape)
        ensures
            r == (Shape { path: Some(path), ..self }),
    {
        Shape { path: Some(path), ..self }
    }

    pub fn opacity(self, opacity: DecNum) -> (r: Shape)
        ensures
            r == (Shape { opacity: Some(opacity), ..self }),
    {
        Shape { opacity: Some(opacity), ..self }
    }

    pub fn line(self, line: Line) -> (r: Shape)
        ensures
            r == (Shape { line: Some(line), ..self }),
    {
        Shape { line: Some(line), ..self }
    }

    pub fn fill_color(self, fill_color: Color) -> (r: Shape)
        ensures
            r == (Shape { fill_color: Some(fill_color), ..self }),
    {
        Shape { fill_color: Some(fill_color), ..self }
    }

    pub fn fill_rule(self, fill_rule: FillRule) -> (r: Shape)
        ensures
            r == (Shape { fill_rule: Some(fill_rule), ..self }),
    {
        Shape { fill_rule: Some(fill_rule), ..self }
    }

    pub fn editable(self, editable: bool) -> (r: Shape)
        ensures
            r == (Shape { editable: Some(editable), ..self }),
    {
        Shape { editable: Some(editable), ..self }
    }

    pub fn name(self, name: String) -> (r: Shape)
        ensures
            r == (Shape { name: Some(name), ..self }),
    {
        Shape { name: Some(name), ..self }
    }

    pub fn template_item_name(self, template_item_name: String) -> (r: Shape)
        ensures
            r == (Shape { template_item_name: Some(template_item_name), ..self }),
    {
        Shape { template_item_name: Some(template_item_name), ..self }
    }

    /// The serialized object, holding exactly the set fields.
    pub fn to_wire(&self) -> (r: String)
        ensures
            r@ == obj_wire(self.fields()),
    {
        let mut w = ObjWriter::new();
        self.write_shape_kind_fields(&mut w);
        self.write_shape_x_fields(&mut w);
        self.write_shape_y_fields(&mut w);
        self.write_shape_style_fields(&mut w);
        assert(w.fields() == self.fields());
        w.finish()
    }

    /// Writes the shape kind members into `w`.
    fn write_shape_kind_fields(&self, w: &mut ObjWriter)
        requires
            old(w).wf(),
        ensures
            final(w).wf(),
            final(w).fields() == self.push_shape_kind_fields(old(w).fields()),
    {
        if let Some(v) = &self.visible {
            w.field("visible", json_bool(*v));
        }
        if let Some(v) = &self.layout_type {
            let frag = json_string(v.tag());
            w.field("type", frag.as_str());
        }
        if let Some(v) = &self.layer {
            let frag = json_string(v.tag());
            w.field("layer", frag.as_str());
        }
        assert(w.fields() == self.push_shape_kind_fields(old(w).fields()));
    }

    /// Writes the shape x members into `w`.
    fn write_shape_x_fields(&self, w: &mut ObjWriter)
        requires
            old(w).wf(),
        ensures
            final(w).wf(),
            final(w).fields() == self.push_shape_x_fields(old(w).fields()),
    {
        if let Some(v) = &self.x_ref {
            let frag = json_string(v.as_str());
            w.field("xref", frag.as_str());
        }
        if let Some(v) = &self.x_size_mode {
            let frag = json_string(v.tag());
            w.field("xsizemode", frag.as_str());
        }
        if let Some(v) = &self.x_anchor {
            let frag = json_dec(v);
            w.field("xanchor", frag.as_str());
        }
        if let Some(v) = &self.x0 {
            let frag = json_dec(v);
            w.field("x0", frag.as_str());
        }
        if let Some(v) = &self.x1 {
            let frag = json_dec(v);
            w.field("x1", frag.as_str());
        }
        assert(w.fields() == self.push_shape_x_fields(old(w).fields()));
    }

    /// Writes the shape y members into `w`.
    fn write_shape_y_fields(&self, w: &mut ObjWriter)
        requires
            old(w).wf(),
        ensures
            final(w).wf(),
            final(w).fields() == self.push_shape_y_fields(old(w).fields()),
    {
        if let Some(v) = &self.y_ref {
            let frag = json_string(v.as_str());
            w.field("yref", frag.as_str());
        }
        if let Some(v) = &self.y_size_mode {
            let frag = json_string(v.tag());
            w.field("ysizemode", frag.as_str());
        }
        if let Some(v) = &self.y_anchor {
            let frag = json_dec(v);
            w.field("yanchor", frag.as_str());
        }
        if let Some(v) = &self.y0 {
            let frag = json_dec(v);
            w.field("y0", frag.as_str());
        }
        if let Some(v) = &self.y1 {
            let frag = json_dec(v);
            w.field("y1", frag.as_str());
        }
        assert(w.fields() == self.push_shape_y_fields(old(w).fields()));
    }

    /// Writes the shape style members into `w`.
    fn write_shape_style_fields(&self, w: &mut ObjWriter)
        requires
            old(w).wf(),
        ensures
            final(w).wf(),
            final(w).fields() == self.push_shape_style_fields(old(w).fields()),
    {
        if let Some(v) = &self.path {
            let frag = json_string(v.as_str());
            w.field("path", frag.as_str());
        }
        if let Some(v) = &self.opacity {
            let frag = json_dec(v);
            w.field("opacity", frag.as_str());
        }
        if let Some(v) = &self.line {
            let frag = v.to_wire();
            w.field("line", frag.as_str());
        }
        if let Some(v) = &self.fill_color {
            let frag = v.to_frag();
            w.field("fillcolor", frag.as_str());
        }
        if let Some(v) = &self.fill_rule {
            let frag = json_string(v.tag());
            w.field("fillrule", frag.as_str());
        }
        if let Some(v) = &self.editable {
            w.field("editable", json_bool(*v));
        }
        if let Some(v) = &self.name {
            let frag = json_string(v.as_str());
            w.field("name", frag.as_str());
        }
        if let Some(v) = &self.template_item_name {
            let frag = json_string(v.as_str());
            w.field("templateitemname", frag.as_str());
        }
        assert(w.fields() == self.push_shape_style_fields(old(w).fields()));
    }
}
/// The object fragments of a sequence of [`Shape`] values.
pub open spec fn shape_frags(s: Seq<Shape>) -> Seq<Seq<char>> {
    s.map_values(|t: Shape| obj_wire(t.fields()))
}

/// The JSON array of a vector of [`Shape`] values.
pub fn json_shape_array(v: &Vec<Shape>) -> (r: String)
    ensures
        r@ == arr_wire(shape_frags(v@)),
{
    let mut w = ArrWriter::new();
    let mut i: usize = 0;
    while i < v.len()
        invariant
            w.wf(),
            i <= v.len(),
            w.items() =~= shape_frags(v@.take(i as int)),
        decreases v.len() - i,
    {
        let frag = v[i].to_wire();
        w.elem(frag.as_str());
        proof {
            assert(shape_frags(v@.take(i + 1)) =~= shape_frags(v@.take(i as int)).push(
                obj_wire(v@[i as int].fields()),
            ));
        }
        i = i + 1;
    }
    proof {
        assert(v@.take(v.len() as int) =~= v@);
    }
    w.finish()
}

/// The single chart-wide configuration object: titles, legend, margins, up
/// to eight numbered axis pairs per dimension, shapes, and per-trace-family
/// mode and gap settings.
#[derive(Debug, Clone)]
pub struct Layout {
    pub title: Option<Title>,
    pub show_legend: Option<bool>,
    pub legend: Option<Legend>,
    pub margin: Option<Margin>,
    pub auto_size: Option<bool>,
    pub width: Option<usize>,
    pub height: Option<usize>,
    pub font: Option<Font>,
    pub uniform_text: Option<UniformText>,
    pub separators: Option<String>,
    pub paper_background_color: Option<Color>,
    pub plot_background_color: Option<Color>,
    pub color_scale: Option<LayoutColorScale>,
    pub colorway: Option<Vec<Color>>,
    pub color_axis: Option<ColorAxis>,
    pub mode_bar: Option<ModeBar>,
    pub hover_mode: Option<HoverMode>,
    pub click_mode: Option<String>,
    pub drag_mode: Option<String>,
    pub select_direction: Option<String>,
    pub hover_distance: Option<i32>,
    pub spike_distance: Option<i32>,
    pub hover_label: Option<Label>,
    pub template: Option<String>,
    pub grid: Option<LayoutGrid>,
    pub calendar: Option<Calendar>,
    pub x_axis: Option<Axis>,
    pub y_axis: Option<Axis>,
    pub x_axis2: Option<Axis>,
    pub y_axis2: Option<Axis>,
    pub x_axis3: Option<Axis>,
    pub y_axis3: Option<Axis>,
    pub x_axis4: Option<Axis>,
    pub y_axis4: Option<Axis>,
    pub x_axis5: Option<Axis>,
    pub y_axis5: Option<Axis>,
    pub x_axis6: Option<Axis>,
    pub y_axis6: Option<Axis>,
    pub x_axis7: Option<Axis>,
    pub y_axis7: Option<Axis>,
    pub x_axis8: Option<Axis>,
    pub y_axis8: Option<Axis>,
    pub shapes: Option<Vec<Shape>>,
    pub box_mode: Option<BoxMode>,
    pub box_gap: Option<DecNum>,
    pub box_group_gap: Option<DecNum>,
    pub bar_mode: Option<BarMode>,
    pub bar_norm: Option<BarNorm>,
    pub bar_gap: Option<DecNum>,
    pub bar_group_gap: Option<DecNum>,
    pub violin_mode: Option<ViolinMode>,
    pub violin_gap: Option<DecNum>,
    pub violin_group_gap: Option<DecNum>,
    pub waterfall_mode: Option<WaterfallMode>,
    pub waterfall_gap: Option<DecNum>,
    pub waterfall_group_gap: Option<DecNum>,
    pub pie_colorway: Option<Vec<Color>>,
    pub extend_pie_colors: Option<bool>,
    pub sunburst_colorway: Option<Vec<Color>>,
    pub extend_sunburst_colors: Option<bool>,
}

impl Layout {
    /// Appends the layout chrome members; the field groups keep
    /// each serialization proof within the solver's budget.
    pub open spec fn push_layout_chrome_fields(&self, fs: Seq<(Seq<char>, Seq<char>)>) -> Seq<(Seq<char>, Seq<char>)> {
        let fs = match self.title {
            Some(v) => fs.push(("title"@, obj_wire(v.fields()))),
            None => fs,
        };
        let fs = match self.show_legend {
            Some(v) => fs.push(("showlegend"@, bool_wire(v))),
            None => fs,
        };
        let fs = match self.legend {
            Some(v) => fs.push(("legend"@, obj_wire(v.fields()))),
            None => fs,
        };
        let fs = match self.margin {
            Some(v) => fs.push(("margin"@, obj_wire(v.fields()))),
            None => fs,
        };
        let fs = match self.auto_size {
            Some(v) => fs.push(("autosize"@, bool_wire(v))),
            None => fs,
        };
        let fs = match self.width {
            Some(v) => fs.push(("width"@, u64_wire(v as nat))),
            None => fs,
        };
        let fs = match self.height {
            Some(v) => fs.push(("height"@, u64_wire(v as nat))),
            None => fs,
        };
        let fs = match self.font {
            Some(v) => fs.push(("font"@, obj_wire(v.fields()))),
            None => fs,
        };
        fs
    }

    /// Appends the layout style members; the field groups keep
    /// each serialization proof within the solver's budget.
    pub open spec fn push_layout_style_fields(&self, fs: Seq<(Seq<char>, Seq<char>)>) -> Seq<(Seq<char>, Seq<char>)> {
        let fs = match self.uniform_text {
            Some(v) => fs.push(("uniform_text"@, obj_wire(v.fields()))),
            None => fs,
        };
        let fs = match self.separators {
            Some(v) => fs.push(("separators"@, str_wire(v@))),
            None => fs,
        };
        let fs = match self.paper_background_color {
            Some(v) => fs.push(("paper_bgcolor"@, color_frag(v))),
            None => fs,
        };
        let fs = match self.plot_background_color {
            Some(v) => fs.push(("plot_bgcolor"@, color_frag(v))),
            None => fs,
        };
        let fs = match self.color_scale {
            Some(v) => fs.push(("colorscale"@, obj_wire(v.fields()))),
            None => fs,
        };
        let fs = match self.colorway {
            Some(v) => fs.push(("colorway"@, arr_wire(color_frags(v@)))),
            None => fs,
        };
        fs
    }

    /// Appends the layout interaction members; the field groups keep
    /// each serialization proof within the solver's budget.
    pub open spec fn push_layout_interaction_fields(&self, fs: Seq<(Seq<char>, Seq<char>)>) -> Seq<(Seq<char>, Seq<char>)> {
        let fs = match self.color_axis {
            Some(v) => fs.push(("coloraxis"@, obj_wire(v.fields()))),
            None => fs,
        };
        let fs = match self.mode_bar {
            Some(v) => fs.push(("modebar"@, obj_wire(v.fields()))),
            None => fs,
        };
        let fs = match self.hover_mode {
            Some(v) => fs.push(("hovermode"@, truthy_wire(v))),
            None => fs,
        };
        let fs = match self.click_mode {
            Some(v) => fs.push(("clickmode"@, str_wire(v@))),
            None => fs,
        };
        let fs = match self.drag_mode {
            Some(v) => fs.push(("dragmode"@, str_wire(v@))),
            None => fs,
        };
        let fs = match self.select_direction {
            Some(v) => fs.push(("selectdirection"@, str_wire(v@))),
            None => fs,
        };
        fs
    }

    /// Appends the layout hover members; the field groups keep
    /// each serialization proof within the solver's budget.
    pub open spec fn push_layout_hover_fields(&self, fs: Seq<(Seq<char>, Seq<char>)>) -> Seq<(Seq<char>, Seq<char>)> {
        let fs = match self.hover_distance {
            Some(v) => fs.push(("hoverdistance"@, i64_wire(v as int))),
            None => fs,
        };
        let fs = match self.spike_distance {
            Some(v) => fs.push(("spikedistance"@, i64_wire(v as int))),
            None => fs,
        };
        let fs = match self.hover_label {
            Some(v) => fs.push(("hoverlabel"@, obj_wire(v.fields()))),
            None => fs,
        };
        let fs = match self.template {
            Some(v) => fs.push(("template"@, str_wire(v@))),
            None => fs,
        };
        let fs = match self.grid {
            Some(v) => fs.push(("grid"@, obj_wire(v.fields()))),
            None => fs,
        };
        let fs = match self.calendar {
            Some(v) => fs.push(("calendar"@, str_wire(v.tag_spec()))),
            None => fs,
        };
        fs
    }

    /// Appends the layout axes low members; the field groups keep
    /// each serialization proof within the solver's budget.
    pub open spec fn push_layout_axes_low_fields(&self, fs: Seq<(Seq<char>, Seq<char>)>) -> Seq<(Seq<char>, Seq<char>)> {
        let fs = match self.x_axis {
            Some(v) => fs.push(("xaxis"@, obj_wire(v.fields()))),
            None => fs,
        };
        let fs = match self.y_axis {
            Some(v) => fs.push(("yaxis"@, obj_wire(v.fields()))),
            None => fs,
        };
        let fs = match self.x_axis2 {
            Some(v) => fs.push(("xaxis2"@, obj_wire(v.fields()))),
            None => fs,
        };
        let fs = match self.y_axis2 {
            Some(v) => fs.push(("yaxis2"@, obj_wire(v.fields()))),
            None => fs,
        };
        let fs = match self.x_axis3 {
            Some(v) => fs.push(("xaxis3"@, obj_wire(v.fields()))),
            None => fs,
        };
        let fs = match self.y_axis3 {
            Some(v) => fs.push(("yaxis3"@, obj_wire(v.fields()))),
            None => fs,
        };
        fs
    }

    /// Appends the layout axes mid members; the field groups keep
    /// each serialization proof within the solver's budget.
    pub open spec fn push_layout_axes_mid_fields(&self, fs: Seq<(Seq<char>, Seq<char>)>) -> Seq<(Seq<char>, Seq<char>)> {
        let fs = match self.x_axis4 {
            Some(v) => fs.push(("xaxis4"@, obj_wire(v.fields()))),
            None => fs,
        };
        let fs = match self.y_axis4 {
            Some(v) => fs.push(("yaxis4"@, obj_wire(v.fields()))),
            None => fs,
        };
        let fs = match self.x_axis5 {
            Some(v) => fs.push(("xaxis5"@, obj_wire(v.fields()))),
            None => fs,
        };
        let fs = match self.y_axis5 {
            Some(v) => fs.push(("yaxis5"@, obj_wire(v.fields()))),
            None => fs,
        };
        let fs = match self.x_axis6 {
            Some(v) => fs.push(("xaxis6"@, obj_wire(v.fields()))),
            None => fs,
        };
        let fs = match self.y_axis6 {
            Some(v) => fs.push(("yaxis6"@, obj_wire(v.fields()))),
            None => fs,
        };
        fs
    }

    /// Appends the layout axes high members; the field groups keep
    /// each serialization proof within the solver's budget.
    pub open spec fn push_layout_axes_high_fields(&self, fs: Seq<(Seq<char>, Seq<char>)>) -> Seq<(Seq<char>, Seq<char>)> {
        let fs = match self.x_axis7 {
            Some(v) => fs.push(("xaxis7"@, obj_wire(v.fields()))),
            None => fs,
        };
        let fs = match self.y_axis7 {
            Some(v) => fs.push(("yaxis7"@, obj_wire(v.fields()))),
            None => fs,
        };
        let fs = match self.x_axis8 {
            Some(v) => fs.push(("xaxis8"@, obj_wire(v.fields()))),
            None => fs,
        };
        let fs = match self.y_axis8 {
            Some(v) => fs.push(("yaxis8"@, obj_wire(v.fields()))),
            None => fs,
        };
        fs
    }

    /// Appends the layout shape bar members; the field groups keep
    /// each serialization proof within the solver's budget.
    pub open spec fn push_layout_shape_bar_fields(&self, fs: Seq<(Seq<char>, Seq<char>)>) -> Seq<(Seq<char>, Seq<char>)> {
        let fs = match self.shapes {
            Some(v) => fs.push(("shapes"@, arr_wire(shape_frags(v@)))),
            None => fs,
        };
        let fs = match self.box_mode {
            Some(v) => fs.push(("boxmode"@, str_wire(v.tag_spec()))),
            None => fs,
        };
        let fs = match self.box_gap {
            Some(v) => fs.push(("boxgap"@, dec_wire(v))),
            None => fs,
        };
        let fs = match self.box_group_gap {
            Some(v) => fs.push(("boxgroupgap"@, dec_wire(v))),
            None => fs,
        };
        let fs = match self.bar_mode {
            Some(v) => fs.push(("barmode"@, str_wire(v.tag_spec()))),
            None => fs,
        };
        let fs = match self.bar_norm {
            Some(v) => fs.push(("barnorm"@, str_wire(v.tag_spec()))),
            None => fs,
        };
        let fs = match self.bar_gap {
            Some(v) => fs.push(("bargap"@, dec_wire(v))),
            None => fs,
        };
        let fs = match self.bar_group_gap {
            Some(v) => fs.push(("bargroupgap"@, dec_wire(v))),
            None => fs,
        };
        fs
    }

    /// Appends the layout distribution members; the field groups keep
    /// each serialization proof within the solver's budget.
    pub open spec fn push_layout_distribution_fields(&self, fs: Seq<(Seq<char>, Seq<char>)>) -> Seq<(Seq<char>, Seq<char>)> {
        let fs = match self.violin_mode {
            Some(v) => fs.push(("violinmode"@, str_wire(v.tag_spec()))),
            None => fs,
        };
        let fs = match self.violin_gap {
            Some(v) => fs.push(("violingap"@, dec_wire(v))),
            None => fs,
        };
        let fs = match self.violin_group_gap {
            Some(v) => fs.push(("violingroupgap"@, dec_wire(v))),
            None => fs,
        };
        let fs = match self.waterfall_mode {
            Some(v) => fs.push(("waterfallmode"@, str_wire(v.tag_spec()))),
            None => fs,
        };
        let fs = match self.waterfall_gap {
            Some(v) => fs.push(("waterfallgap"@, dec_wire(v))),
            None => fs,
        };
        let fs = match self.waterfall_group_gap {
            Some(v) => fs.push(("waterfallgroupgap"@, dec_wire(v))),
            None => fs,
        };
        fs
    }

    /// Appends the layout colorway members; the field groups keep
    /// each serialization proof within the solver's budget.
    pub open spec fn push_layout_colorway_fields(&self, fs: Seq<(Seq<char>, Seq<char>)>) -> Seq<(Seq<char>, Seq<char>)> {
        let fs = match self.pie_colorway {
            Some(v) => fs.push(("piecolorway"@, arr_wire(color_frags(v@)))),
            None => fs,
        };
        let fs = match self.extend_pie_colors {
            Some(v) => fs.push(("extendpiecolors"@, bool_wire(v))),
            None => fs,
        };
        let fs = match self.sunburst_colorway {
            Some(v) => fs.push(("sunburstcolorway"@, arr_wire(color_frags(v@)))),
            None => fs,
        };
        let fs = match self.extend_sunburst_colors {
            Some(v) => fs.push(("extendsuburstcolors"@, bool_wire(v))),
            None => fs,
        };
        fs
    }

    /// The members of the serialized object: exactly the fields that
    /// are set, under their wire keys.
    pub open spec fn fields(&self) -> Seq<(Seq<char>, Seq<char>)> {
        let fs = Seq::<(Seq<char>, Seq<char>)>::empty();
        let fs = self.push_layout_chrome_fields(fs);
        let fs = self.push_layout_style_fields(fs);
        let fs = self.push_layout_interaction_fields(fs);
        let fs = self.push_layout_hover_fields(fs);
        let fs = self.push_layout_axes_low_fields(fs);
        let fs = self.push_layout_axes_mid_fields(fs);
        let fs = self.push_layout_axes_high_fields(fs);
        let fs = self.push_layout_shape_bar_fields(fs);
        let fs = self.push_layout_distribution_fields(fs);
        let fs = self.push_layout_colorway_fields(fs);
        fs
    }

    pub fn new() -> (r: Layout)
        ensures
            r == (Layout { title: None, show_legend: None, legend: None, margin: None, auto_size: None, width: None, height: None, font: None, uniform_text: None, separators: None, paper_background_color: None, plot_background_color: None, color_scale: None, colorway: None, color_axis: None, mode_bar: None, hover_mode: None, click_mode: None, drag_mode: None, select_direction: None, hover_distance: None, spike_distance: None, hover_label: None, template: None, grid: None, calendar: None, x_axis: None, y_axis: None, x_axis2: None, y_axis2: None, x_axis3: None, y_axis3: None, x_axis4: None, y_axis4: None, x_axis5: None, y_axis5: None, x_axis6: None, y_axis6: None, x_axis7: None, y_axis7: None, x_axis8: None, y_axis8: None, shapes: None, box_mode: None, box_gap: None, box_group_gap: None, bar_mode: None, bar_norm: None, bar_gap: None, bar_group_gap: None, violin_mode: None, violin_gap: None, violin_group_gap: None, waterfall_mode: None, waterfall_gap: None, waterfall_group_gap: None, pie_colorway: None, extend_pie_colors: None, sunburst_colorway: None, extend_sunburst_colors: None }),
    {
        Layout { title: None, show_legend: None, legend: None, margin: None, auto_size: None, width: None, height: None, font: None, uniform_text: None, separators: None, paper_background_color: None, plot_background_color: None, color_scale: None, colorway: None, color_axis: None, mode_bar: None, hover_mode: None, click_mode: None, drag_mode: None, select_direction: None, hover_distance: None, spike_distance: None, hover_label: None, template: None, grid: None, calendar: None, x_axis: None, y_axis: None, x_axis2: None, y_axis2: None, x_axis3: None, y_axis3: None, x_axis4: None, y_axis4: None, x_axis5: None, y_axis5: None, x_axis6: None, y_axis6: None, x_axis7: None, y_axis7: None, x_axis8: None, y_axis8: None, shapes: None, box_mode: None, box_gap: None, box_group_gap: None, bar_mode: None, bar_norm: None, bar_gap: None, bar_group_gap: None, violin_mode: None, violin_gap: None, violin_group_gap: None, waterfall_mode: None, waterfall_gap: None, waterfall_group_gap: None, pie_colorway: None, extend_pie_colors: None, sunburst_colorway: None, extend_sunburst_colors: None }
    }

    pub fn title(self, title: Title) -> (r: Layout)
        ensures
            r == (Layout { title: Some(title), ..self }),
    {
        Layout { title: Some(title), ..self }
    }

    pub fn show_legend(self, show_legend: bool) -> (r: Layout)
        ensures
            r == (Layout { show_legend: Some(show_legend), ..self }),
    {
        Layout { show_legend: Some(show_legend), ..self }
    }

    pub fn legend(self, legend: Legend) -> (r: Layout)
        ensures
            r == (Layout { legend: Some(legend), ..self }),
    {
        Layout { legend: Some(legend), ..self }
    }

    pub fn margin(self, margin: Margin) -> (r: Layout)
        ensures
            r == (Layout { margin: Some(margin), ..self }),
    {
        Layout { margin: Some(margin), ..self }
    }

    pub fn auto_size(self, auto_size: bool) -> (r: Layout)
        ensures
            r == (Layout { auto_size: Some(auto_size), ..self }),
    {
        Layout { auto_size: Some(auto_size), ..self }
    }

    pub fn width(self, width: usize) -> (r: Layout)
        ensures
            r == (Layout { width: Some(width), ..self }),
    {
        Layout { width: Some(width), ..self }
    }

    pub fn height(self, height: usize) -> (r: Layout)
        ensures
            r == (Layout { height: Some(height), ..self }),
    {
        Layout { height: Some(height), ..self }
    }

    pub fn font(self, font: Font) -> (r: Layout)
        ensures
            r == (Layout { font: Some(font), ..self }),
    {
        Layout { font: Some(font), ..self }
    }

    pub fn uniform_text(self, uniform_text: UniformText) -> (r: Layout)
        ensures
            r == (Layout { uniform_text: Some(uniform_text), ..self }),
    {
        Layout { uniform_text: Some(uniform_text), ..self }
    }

    pub fn separators(self, separators: &str) -> (r: Layout)
        ensures
            r.separators is Some && (r.separators->0)@ == separators@,
            r == (Layout { separators: r.separators, ..self }),
    {
        Layout { separators: Some(separators.to_owned()), ..self }
    }

    pub fn paper_background_color(self, paper_background_color: Color) -> (r: Layout)
        ensures
            r == (Layout { paper_background_color: Some(paper_background_color), ..self }),
    {
        Layout { paper_background_color: Some(paper_background_color), ..self }
    }

    pub fn plot_background_color(self, plot_background_color: Color) -> (r: Layout)
        ensures
            r == (Layout { plot_background_color: Some(plot_background_color), ..self }),
    {
        Layout { plot_background_color: Some(plot_background_color), ..self }
    }

    pub fn color_scale(self, color_scale: LayoutColorScale) -> (r: Layout)
        ensures
            r == (Layout { color_scale: Some(color_scale), ..self }),
    {
        Layout { color_scale: Some(color_scale), ..self }
    }

    pub fn colorway(self, colorway: Vec<Color>) -> (r: Layout)
        ensures
            r == (Layout { colorway: Some(colorway), ..self }),
    {
        Layout { colorway: Some(colorway), ..self }
    }

    pub fn color_axis(self, color_axis: ColorAxis) -> (r: Layout)
        ensures
            r == (Layout { color_axis: Some(color_axis), ..self }),
    {
        Layout { color_axis: Some(color_axis), ..self }
    }

    pub fn mode_bar(self, mode_bar: ModeBar) -> (r: Layout)
        ensures
            r == (Layout { mode_bar: Some(mode_bar), ..self }),
    {
        Layout { mode_bar: Some(mode_bar), ..self }
    }

    pub fn hover_mode(self, hover_mode: HoverMode) -> (r: Layout)
        ensures
            r == (Layout { hover_mode: Some(hover_mode), ..self }),
    {
        Layout { hover_mode: Some(hover_mode), ..self }
    }

    pub fn click_mode(self, click_mode: &str) -> (r: Layout)
        ensures
            r.click_mode is Some && (r.click_mode->0)@ == click_mode@,
            r == (Layout { click_mode: r.click_mode, ..self }),
    {
        Layout { click_mode: Some(click_mode.to_owned()), ..self }
    }

    pub fn drag_mode(self, drag_mode: &str) -> (r: Layout)
        ensures
            r.drag_mode is Some && (r.drag_mode->0)@ == drag_mode@,
            r == (Layout { drag_mode: r.drag_mode, ..self }),
    {
        Layout { drag_mode: Some(drag_mode.to_owned()), ..self }
    }

    pub fn select_direction(self, select_direction: &str) -> (r: Layout)
        ensures
            r.select_direction is Some && (r.select_direction->0)@ == select_direction@,
            r == (Layout { select_direction: r.select_direction, ..self }),
    {
        Layout { select_direction: Some(select_direction.to_owned()), ..self }
    }

    pub fn hover_distance(self, hover_distance: i32) -> (r: Layout)
        ensures
            r == (Layout { hover_distance: Some(hover_distance), ..self }),
    {
        Layout { hover_distance: Some(hover_distance), ..self }
    }

    pub fn spike_distance(self, spike_distance: i32) -> (r: Layout)
        ensures
            r == (Layout { spike_distance: Some(spike_distance), ..self }),
    {
        Layout { spike_distance: Some(spike_distance), ..self }
    }

    pub fn hover_label(self, hover_label: Label) -> (r: Layout)
        ensures
            r == (Layout { hover_label: Some(hover_label), ..self }),
    {
        Layout { hover_label: Some(hover_label), ..self }
    }

    pub fn template(self, template: &str) -> (r: Layout)
        ensures
            r.template is Some && (r.template->0)@ == template@,
            r == (Layout { template: r.template, ..self }),
    {
        Layout { template: Some(template.to_owned()), ..self }
    }

    pub fn grid(self, grid: LayoutGrid) -> (r: Layout)
        ensures
            r == (Layout { grid: Some(grid), ..self }),
    {
        Layout { grid: Some(grid), ..self }
    }

    pub fn calendar(self, calendar: Calendar) -> (r: Layout)
        ensures
            r == (Layout { calendar: Some(calendar), ..self }),
    {
        Layout { calendar: Some(calendar), ..self }
    }

    pub fn x_axis(self, x_axis: Axis) -> (r: Layout)
        ensures
            r == (Layout { x_axis: Some(x_axis), ..self }),
    {
        Layout { x_axis: Some(x_axis), ..self }
    }

    pub fn y_axis(self, y_axis: Axis) -> (r: Layout)
        ensures
            r == (Layout { y_axis: Some(y_axis), ..self }),
    {
        Layout { y_axis: Some(y_axis), ..self }
    }

    pub fn x_axis2(self, x_axis2: Axis) -> (r: Layout)
        ensures
            r == (Layout { x_axis2: Some(x_axis2), ..self }),
    {
        Layout { x_axis2: Some(x_axis2), ..self }
    }

    pub fn y_axis2(self, y_axis2: Axis) -> (r: Layout)
        ensures
            r == (Layout { y_axis2: Some(y_axis2), ..self }),
    {
        Layout { y_axis2: Some(y_axis2), ..self }
    }

    pub fn x_axis3(self, x_axis3: Axis) -> (r: Layout)
        ensures
            r == (Layout { x_axis3: Some(x_axis3), ..self }),
    {
        Layout { x_axis3: Some(x_axis3), ..self }
    }

    pub fn y_axis3(self, y_axis3: Axis) -> (r: Layout)
        ensures
            r == (Layout { y_axis3: Some(y_axis3), ..self }),
    {
        Layout { y_axis3: Some(y_axis3), ..self }
    }

    pub fn x_axis4(self, x_axis4: Axis) -> (r: Layout)
        ensures
            r == (Layout { x_axis4: Some(x_axis4), ..self }),
    {
        Layout { x_axis4: Some(x_axis4), ..self }
    }

    pub fn y_axis4(self, y_axis4: Axis) -> (r: Layout)
        ensures
            r == (Layout { y_axis4: Some(y_axis4), ..self }),
    {
        Layout { y_axis4: Some(y_axis4), ..self }
    }

    pub fn x_axis5(self, x_axis5: Axis) -> (r: Layout)
        ensures
            r == (Layout { x_axis5: Some(x_axis5), ..self }),
    {
        Layout { x_axis5: Some(x_axis5), ..self }
    }

    pub fn y_axis5(self, y_axis5: Axis) -> (r: Layout)
        ensures
            r == (Layout { y_axis5: Some(y_axis5), ..self }),
    {
        Layout { y_axis5: Some(y_axis5), ..self }
    }

    pub fn x_axis6(self, x_axis6: Axis) -> (r: Layout)
        ensures
            r == (Layout { x_axis6: Some(x_axis6), ..self }),
    {
        Layout { x_axis6: Some(x_axis6), ..self }
    }

    pub fn y_axis6(self, y_axis6: Axis) -> (r: Layout)
        ensures
            r == (Layout { y_axis6: Some(y_axis6), ..self }),
    {
        Layout { y_axis6: Some(y_axis6), ..self }
    }

    pub fn x_axis7(self, x_axis7: Axis) -> (r: Layout)
        ensures
            r == (Layout { x_axis7: Some(x_axis7), ..self }),
    {
        Layout { x_axis7: Some(x_axis7), ..self }
    }

    pub fn y_axis7(self, y_axis7: Axis) -> (r: Layout)
        ensures
            r == (Layout { y_axis7: Some(y_axis7), ..self }),
    {
        Layout { y_axis7: Some(y_axis7), ..self }
    }

    pub fn x_axis8(self, x_axis8: Axis) -> (r: Layout)
        ensures
            r == (Layout { x_axis8: Some(x_axis8), ..self }),
    {
        Layout { x_axis8: Some(x_axis8), ..self }
    }

    pub fn y_axis8(self, y_axis8: Axis) -> (r: Layout)
        ensures
            r == (Layout { y_axis8: Some(y_axis8), ..self }),
    {
        Layout { y_axis8: Some(y_axis8), ..self }
    }

    pub fn shapes(self, shapes: Vec<Shape>) -> (r: Layout)
        ensures
            r == (Layout { shapes: Some(shapes), ..self }),
    {
        Layout { shapes: Some(shapes), ..self }
    }

    pub fn box_mode(self, box_mode: BoxMode) -> (r: Layout)
        ensures
            r == (Layout { box_mode: Some(box_mode), ..self }),
    {
        Layout { box_mode: Some(box_mode), ..self }
    }

    pub fn box_gap(self, box_gap: DecNum) -> (r: Layout)
        ensures
            r == (Layout { box_gap: Some(box_gap), ..self }),
    {
        Layout { box_gap: Some(box_gap), ..self }
    }

    pub fn box_group_gap(self, box_group_gap: DecNum) -> (r: Layout)
        ensures
            r == (Layout { box_group_gap: Some(box_group_gap), ..self }),
    {
        Layout { box_group_gap: Some(box_group_gap), ..self }
    }

    pub fn bar_mode(self, bar_mode: BarMode) -> (r: Layout)
        ensures
            r == (Layout { bar_mode: Some(bar_mode), ..self }),
    {
        Layout { bar_mode: Some(bar_mode), ..self }
    }

    pub fn bar_norm(self, bar_norm: BarNorm) -> (r: Layout)
        ensures
            r == (Layout { bar_norm: Some(bar_norm), ..self }),
    {
        Layout { bar_norm: Some(bar_norm), ..self }
    }

    pub fn bar_gap(self, bar_gap: DecNum) -> (r: Layout)
        ensures
            r == (Layout { bar_gap: Some(bar_gap), ..self }),
    {
        Layout { bar_gap: Some(bar_gap), ..self }
    }

    pub fn bar_group_gap(self, bar_group_gap: DecNum) -> (r: Layout)
        ensures
            r == (Layout { bar_group_gap: Some(bar_group_gap), ..self }),
    {
        Layout { bar_group_gap: Some(bar_group_gap), ..self }
    }

    pub fn violin_mode(self, violin_mode: ViolinMode) -> (r: Layout)
        ensures
            r == (Layout { violin_mode: Some(violin_mode), ..self }),
    {
        Layout { violin_mode: Some(violin_mode), ..self }
    }

    pub fn violin_gap(self, violin_gap: DecNum) -> (r: Layout)
        ensures
            r == (Layout { violin_gap: Some(violin_gap), ..self }),
    {
        Layout { violin_gap: Some(violin_gap), ..self }
    }

    pub fn violin_group_gap(self, violin_group_gap: DecNum) -> (r: Layout)
        ensures
            r == (Layout { violin_group_gap: Some(violin_group_gap), ..self }),
    {
        Layout { violin_group_gap: Some(violin_group_gap), ..self }
    }

    pub fn waterfall_mode(self, waterfall_mode: WaterfallMode) -> (r: Layout)
        ensures
            r == (Layout { waterfall_mode: Some(waterfall_mode), ..self }),
    {
        Layout { waterfall_mode: Some(waterfall_mode), ..self }
    }

    pub fn waterfall_gap(self, waterfall_gap: DecNum) -> (r: Layout)
        ensures
            r == (Layout { waterfall_gap: Some(waterfall_gap), ..self }),
    {
        Layout { waterfall_gap: Some(waterfall_gap), ..self }
    }

    pub fn waterfall_group_gap(self, waterfall_group_gap: DecNum) -> (r: Layout)
        ensures
            r == (Layout { waterfall_group_gap: Some(waterfall_group_gap), ..self }),
    {
        Layout { waterfall_group_gap: Some(waterfall_group_gap), ..self }
    }

    pub fn pie_colorway(self, pie_colorway: Vec<Color>) -> (r: Layout)
        ensures
            r == (Layout { pie_colorway: Some(pie_colorway), ..self }),
    {
        Layout { pie_colorway: Some(pie_colorway), ..self }
    }

    pub fn extend_pie_colors(self, extend_pie_colors: bool) -> (r: Layout)
        ensures
            r == (Layout { extend_pie_colors: Some(extend_pie_colors), ..self }),
    {
        Layout { extend_pie_colors: Some(extend_pie_colors), ..self }
    }

    pub fn sunburst_colorway(self, sunburst_colorway: Vec<Color>) -> (r: Layout)
        ensures
            r == (Layout { sunburst_colorway: Some(sunburst_colorway), ..self }),
    {
        Layout { sunburst_colorway: Some(sunburst_colorway), ..self }
    }

    pub fn extend_sunburst_colors(self, extend_sunburst_colors: bool) -> (r: Layout)
        ensures
            r == (Layout { extend_sunburst_colors: Some(extend_sunburst_colors), ..self }),
    {
        Layout { extend_sunburst_colors: Some(extend_sunburst_colors), ..self }
    }

    /// The serialized object, holding exactly the set fields.
    pub fn to_wire(&self) -> (r: String)
        ensures
            r@ == obj_wire(self.fields()),
    {
        let mut w = ObjWriter::new();
        self.write_layout_chrome_fields(&mut w);
        self.write_layout_style_fields(&mut w);
        self.write_layout_interaction_fields(&mut w);
        self.write_layout_hover_fields(&mut w);
        self.write_layout_axes_low_fields(&mut w);
        self.write_layout_axes_mid_fields(&mut w);
        self.write_layout_axes_high_fields(&mut w);
        self.write_layout_shape_bar_fields(&mut w);
        self.write_layout_distribution_fields(&mut w);
        self.write_layout_colorway_fields(&mut w);
        assert(w.fields() == self.fields());
        w.finish()
    }

    /// Writes the layout chrome members into `w`.
    fn write_layout_chrome_fields(&self, w: &mut ObjWriter)
        requires
            old(w).wf(),
        ensures
            final(w).wf(),
            final(w).fields() == self.push_layout_chrome_fields(old(w).fields()),
    {
        if let Some(v) = &self.title {
            let frag = v.to_wire();
            w.field("title", frag.as_str());
        }
        if let Some(v) = &self.show_legend {
            w.field("showlegend", json_bool(*v));
        }
        if let Some(v) = &self.legend {
            let frag = v.to_wire();
            w.field("legend", frag.as_str());
        }
        if let Some(v) = &self.margin {
            let frag = v.to_wire();
            w.field("margin", frag.as_str());
        }
        if let Some(v) = &self.auto_size {
            w.field("autosize", json_bool(*v));
        }
        if let Some(v) = &self.width {
            let frag = json_u64(*v as u64);
            w.field("width", frag.as_str());
        }
        if let Some(v) = &self.height {
            let frag = json_u64(*v as u64);
            w.field("height", frag.as_str());
        }
        if let Some(v) = &self.font {
            let frag = v.to_wire();
            w.field("font", frag.as_str());
        }
        assert(w.fields() == self.push_layout_chrome_fields(old(w).fields()));
    }

    /// Writes the layout style members into `w`.
    fn write_layout_style_fields(&self, w: &mut ObjWriter)
        requires
            old(w).wf(),
        ensures
            final(w).wf(),
            final(w).fields() == self.push_layout_style_fields(old(w).fields()),
    {
        if let Some(v) = &self.uniform_text {
            let frag = v.to_wire();
            w.field("uniform_text", frag.as_str());
        }
        if let Some(v) = &self.separators {
            let frag = json_string(v.as_str());
            w.field("separators", frag.as_str());
        }
        if let Some(v) = &self.paper_background_color {
            let frag = v.to_frag();
            w.field("paper_bgcolor", frag.as_str());
        }
        if let Some(v) = &self.plot_background_color {
            let frag = v.to_frag();
            w.field("plot_bgcolor", frag.as_str());
        }
        if let Some(v) = &self.color_scale {
            let frag = v.to_wire();
            w.field("colorscale", frag.as_str());
        }
        if let Some(v) = &self.colorway {
            let frag = json_color_array(v);
            w.field("colorway", frag.as_str());
        }
        assert(w.fields() == self.push_layout_style_fields(old(w).fields()));
    }

    /// Writes the layout interaction members into `w`.
    fn write_layout_interaction_fields(&self, w: &mut ObjWriter)
        requires
            old(w).wf(),
        ensures
            final(w).wf(),
            final(w).fields() == self.push_layout_interaction_fields(old(w).fields()),
    {
        if let Some(v) = &self.color_axis {
            let frag = v.to_wire();
            w.field("coloraxis", frag.as_str());
        }
        if let Some(v) = &self.mode_bar {
            let frag = v.to_wire();
            w.field("modebar", frag.as_str());
        }
        if let Some(v) = &self.hover_mode {
            let frag = json_truthy(v);
            w.field("hovermode", frag.as_str());
        }
        if let Some(v) = &self.click_mode {
            let frag = json_string(v.as_str());
            w.field("clickmode", frag.as_str());
        }
        if let Some(v) = &self.drag_mode {
            let frag = json_string(v.as_str());
            w.field("dragmode", frag.as_str());
        }
        if let Some(v) = &self.select_direction {
            let frag = json_string(v.as_str());
            w.field("selectdirection", frag.as_str());
        }
        assert(w.fields() == self.push_layout_interaction_fields(old(w).fields()));
    }

    /// Writes the layout hover members into `w`.
    fn write_layout_hover_fields(&self, w: &mut ObjWriter)
        requires
            old(w).wf(),
        ensures
            final(w).wf(),
            final(w).fields() == self.push_layout_hover_fields(old(w).fields()),
    {
        if let Some(v) = &self.hover_distance {
            let frag = json_i64(*v as i64);
            w.field("hoverdistance", frag.as_str());
        }
        if let Some(v) = &self.spike_distance {
            let frag = json_i64(*v as i64);
            w.field("spikedistance", frag.as_str());
        }
        if let Some(v) = &self.hover_label {
            let frag = v.to_wire();
            w.field("hoverlabel", frag.as_str());
        }
        if let Some(v) = &self.template {
            let frag = json_string(v.as_str());
            w.field("template", frag.as_str());
        }
        if let Some(v) = &self.grid {
            let frag = v.to_wire();
            w.field("grid", frag.as_str());
        }
        if let Some(v) = &self.calendar {
            let frag = json_string(v.tag());
            w.field("calendar", frag.as_str());
        }
        assert(w.fields() == self.push_layout_hover_fields(old(w).fields()));
    }

    /// Writes the layout axes low members into `w`.
    fn write_layout_axes_low_fields(&self, w: &mut ObjWriter)
        requires
            old(w).wf(),
        ensures
            final(w).wf(),
            final(w).fields() == self.push_layout_axes_low_fields(old(w).fields()),
    {
        if let Some(v) = &self.x_axis {
            let frag = v.to_wire();
            w.field("xaxis", frag.as_str());
        }
        if let Some(v) = &self.y_axis {
            let frag = v.to_wire();
            w.field("yaxis", frag.as_str());
        }
        if let Some(v) = &self.x_axis2 {
            let frag = v.to_wire();
            w.field("xaxis2", frag.as_str());
        }
        if let Some(v) = &self.y_axis2 {
            let frag = v.to_wire();
            w.field("yaxis2", frag.as_str());
        }
        if let Some(v) = &self.x_axis3 {
            let frag = v.to_wire();
            w.field("xaxis3", frag.as_str());
        }
        if let Some(v) = &self.y_axis3 {
            let frag = v.to_wire();
            w.field("yaxis3", frag.as_str());
        }
        assert(w.fields() == self.push_layout_axes_low_fields(old(w).fields()));
    }

    /// Writes the layout axes mid members into `w`.
    fn write_layout_axes_mid_fields(&self, w: &mut ObjWriter)
        requires
            old(w).wf(),
        ensures
            final(w).wf(),
            final(w).fields() == self.push_layout_axes_mid_fields(old(w).fields()),
    {
        if let Some(v) = &self.x_axis4 {
            let frag = v.to_wire();
            w.field("xaxis4", frag.as_str());
        }
        if let Some(v) = &self.y_axis4 {
            let frag = v.to_wire();
            w.field("yaxis4", frag.as_str());
        }
        if let Some(v) = &self.x_axis5 {
            let frag = v.to_wire();
            w.field("xaxis5", frag.as_str());
        }
        if let Some(v) = &self.y_axis5 {
            let frag = v.to_wire();
            w.field("yaxis5", frag.as_str());
        }
        if let Some(v) = &self.x_axis6 {
            let frag = v.to_wire();
            w.field("xaxis6", frag.as_str());
        }
        if let Some(v) = &self.y_axis6 {
            let frag = v.to_wire();
            w.field("yaxis6", frag.as_str());
        }
        assert(w.fields() == self.push_layout_axes_mid_fields(old(w).fields()));
    }

    /// Writes the layout axes high members into `w`.
    fn write_layout_axes_high_fields(&self, w: &mut ObjWriter)
        requires
            old(w).wf(),
        ensures
            final(w).wf(),
            final(w).fields() == self.push_layout_axes_high_fields(old(w).fields()),
    {
        if let Some(v) = &self.x_axis7 {
            let frag = v.to_wire();
            w.field("xaxis7", frag.as_str());
        }
        if let Some(v) = &self.y_axis7 {
            let frag = v.to_wire();
            w.field("yaxis7", frag.as_str());
        }
        if let Some(v) = &self.x_axis8 {
            let frag = v.to_wire();
            w.field("xaxis8", frag.as_str());
        }
        if let Some(v) = &self.y_axis8 {
            let frag = v.to_wire();
            w.field("yaxis8", frag.as_str());
        }
        assert(w.fields() == self.push_layout_axes_high_fields(old(w).fields()));
    }

    /// Writes the layout shape bar members into `w`.
    fn write_layout_shape_bar_fields(&self, w: &mut ObjWriter)
        requires
            old(w).wf(),
        ensures
            final(w).wf(),
            final(w).fields() == self.push_layout_shape_bar_fields(old(w).fields()),
    {
        if let Some(v) = &self.shapes {
            let frag = json_shape_array(v);
            w.field("shapes", frag.as_str());
        }
        if let Some(v) = &self.box_mode {
            let frag = json_string(v.tag());
            w.field("boxmode", frag.as_str());
        }
        if let Some(v) = &self.box_gap {
            let frag = json_dec(v);
            w.field("boxgap", frag.as_str());
        }
        if let Some(v) = &self.box_group_gap {
            let frag = json_dec(v);
            w.field("boxgroupgap", frag.as_str());
        }
        if let Some(v) = &self.bar_mode {
            let frag = json_string(v.tag());
            w.field("barmode", frag.as_str());
        }
        if let Some(v) = &self.bar_norm {
            let frag = json_string(v.tag());
            w.field("barnorm", frag.as_str());
        }
        if let Some(v) = &self.bar_gap {
            let frag = json_dec(v);
            w.field("bargap", frag.as_str());
        }
        if let Some(v) = &self.bar_group_gap {
            let frag = json_dec(v);
            w.field("bargroupgap", frag.as_str());
        }
        assert(w.fields() == self.push_layout_shape_bar_fields(old(w).fields()));
    }

    /// Writes the layout distribution members into `w`.
    fn write_layout_distribution_fields(&self, w: &mut ObjWriter)
        requires
            old(w).wf(),
        ensures
            final(w).wf(),
            final(w).fields() == self.push_layout_distribution_fields(old(w).fields()),
    {
        if let Some(v) = &self.violin_mode {
            let frag = json_string(v.tag());
            w.field("violinmode", frag.as_str());
        }
        if let Some(v) = &self.violin_gap {
            let frag = json_dec(v);
            w.field("violingap", frag.as_str());
        }
        if let Some(v) = &self.violin_group_gap {
            let frag = json_dec(v);
            w.field("violingroupgap", frag.as_str());
        }
        if let Some(v) = &self.waterfall_mode {
            let frag = json_string(v.tag());
            w.field("waterfallmode", frag.as_str());
        }
        if let Some(v) = &self.waterfall_gap {
            let frag = json_dec(v);
            w.field("waterfallgap", frag.as_str());
        }
        if let Some(v) = &self.waterfall_group_gap {
            let frag = json_dec(v);
            w.field("waterfallgroupgap", frag.as_str());
        }
        assert(w.fields() == self.push_layout_distribution_fields(old(w).fields()));
    }

    /// Writes the layout colorway members into `w`.
    fn write_layout_colorway_fields(&self, w: &mut ObjWriter)
        requires
            old(w).wf(),
        ensures
            final(w).wf(),
            final(w).fields() == self.push_layout_colorway_fields(old(w).fields()),
    {
        if let Some(v) = &self.pie_colorway {
            let frag = json_color_array(v);
            w.field("piecolorway", frag.as_str());
        }
        if let Some(v) = &self.extend_pie_colors {
            w.field("extendpiecolors", json_bool(*v));
        }
        if let Some(v) = &self.sunburst_colorway {
            let frag = json_color_array(v);
            w.field("sunburstcolorway", frag.as_str());
        }
        if let Some(v) = &self.extend_sunburst_colors {
            w.field("extendsuburstcolors", json_bool(*v));
        }
        assert(w.fields() == self.push_layout_colorway_fields(old(w).fields()));
    }
}
/// Walks the member chain of a margin: when every set field's key differs
/// from `key`, no member carries `key`.
proof fn lemma_margin_key_absent(m: &Margin, key: Seq<char>)
    requires
        m.l is Some ==> "l"@ != key,
        m.r is Some ==> "r"@ != key,
        m.t is Some ==> "t"@ != key,
        m.b is Some ==> "b"@ != key,
        m.pad is Some ==> "pad"@ != key,
        m.auto_expand is Some ==> "autoexpand"@ != key,
    ensures
        forall|j: int| 0 <= j < m.fields().len() ==> (#[trigger] m.fields()[j]).0 != key,
{
    let fs0 = Seq::<(Seq<char>, Seq<char>)>::empty();
    let fs1 = match m.l {
        Some(v) => {
            crate::wire::lemma_key_not_in_push(fs0, ("l"@, u64_wire(v as nat)), key);
            fs0.push(("l"@, u64_wire(v as nat)))
        },
        None => fs0,
    };
    let fs2 = match m.r {
        Some(v) => {
            crate::wire::lemma_key_not_in_push(fs1, ("r"@, u64_wire(v as nat)), key);
            fs1.push(("r"@, u64_wire(v as nat)))
        },
        None => fs1,
    };
    let fs3 = match m.t {
        Some(v) => {
            crate::wire::lemma_key_not_in_push(fs2, ("t"@, u64_wire(v as nat)), key);
            fs2.push(("t"@, u64_wire(v as nat)))
        },
        None => fs2,
    };
    let fs4 = match m.b {
        Some(v) => {
            crate::wire::lemma_key_not_in_push(fs3, ("b"@, u64_wire(v as nat)), key);
            fs3.push(("b"@, u64_wire(v as nat)))
        },
        None => fs3,
    };
    let fs5 = match m.pad {
        Some(v) => {
            crate::wire::lemma_key_not_in_push(fs4, ("pad"@, u64_wire(v as nat)), key);
            fs4.push(("pad"@, u64_wire(v as nat)))
        },
        None => fs4,
    };
    let fs6 = match m.auto_expand {
        Some(v) => {
            crate::wire::lemma_key_not_in_push(fs5, ("autoexpand"@, bool_wire(v)), key);
            fs5.push(("autoexpand"@, bool_wire(v)))
        },
        None => fs5,
    };
    assert(fs6 == m.fields());
}

/// The wire key of an unset margin field does not occur among the
/// serialized members.
pub proof fn lemma_margin_unset_keys(m: &Margin)
    ensures
        m.l is None ==> forall|j: int|
            0 <= j < m.fields().len() ==> (#[trigger] m.fields()[j]).0 != "l"@,
        m.r is None ==> forall|j: int|
            0 <= j < m.fields().len() ==> (#[trigger] m.fields()[j]).0 != "r"@,
        m.t is None ==> forall|j: int|
            0 <= j < m.fields().len() ==> (#[trigger] m.fields()[j]).0 != "t"@,
        m.b is None ==> forall|j: int|
            0 <= j < m.fields().len() ==> (#[trigger] m.fields()[j]).0 != "b"@,
        m.pad is None ==> forall|j: int|
            0 <= j < m.fields().len() ==> (#[trigger] m.fields()[j]).0 != "pad"@,
        m.auto_expand is None ==> forall|j: int|
            0 <= j < m.fields().len() ==> (#[trigger] m.fields()[j]).0 != "autoexpand"@,
{
    reveal_strlit("l");
    reveal_strlit("r");
    reveal_strlit("t");
    reveal_strlit("b");
    reveal_strlit("pad");
    reveal_strlit("autoexpand");
    assert("l"@ != "r"@) by {
        assert("l"@[0] == 'l' && "r"@[0] == 'r');
    }
    assert("l"@ != "t"@) by {
        assert("l"@[0] == 'l' && "t"@[0] == 't');
    }
    assert("l"@ != "b"@) by {
        assert("l"@[0] == 'l' && "b"@[0] == 'b');
    }
    assert("l"@ != "pad"@) by {
        assert("l"@.len() == 1 && "pad"@.len() == 3);
    }
    assert("l"@ != "autoexpand"@) by {
        assert("l"@.len() == 1 && "autoexpand"@.len() == 10);
    }
    assert("r"@ != "t"@) by {
        assert("r"@[0] == 'r' && "t"@[0] == 't');
    }
    assert("r"@ != "b"@) by {
        assert("r"@[0] == 'r' && "b"@[0] == 'b');
    }
    assert("r"@ != "pad"@) by {
        assert("r"@.len() == 1 && "pad"@.len() == 3);
    }
    assert("r"@ != "autoexpand"@) by {
        assert("r"@.len() == 1 && "autoexpand"@.len() == 10);
    }
    assert("t"@ != "b"@) by {
        assert("t"@[0] == 't' && "b"@[0] == 'b');
    }
    assert("t"@ != "pad"@) by {
        assert("t"@.len() == 1 && "pad"@.len() == 3);
    }
    assert("t"@ != "autoexpand"@) by {
        assert("t"@.len() == 1 && "autoexpand"@.len() == 10);
    }
    assert("b"@ != "pad"@) by {
        assert("b"@.len() == 1 && "pad"@.len() == 3);
    }
    assert("b"@ != "autoexpand"@) by {
        assert("b"@.len() == 1 && "autoexpand"@.len() == 10);
    }
    assert("pad"@ != "autoexpand"@) by {
        assert("pad"@.len() == 3 && "autoexpand"@.len() == 10);
    }
    if m.l is None {
        lemma_margin_key_absent(m, "l"@);
    }
    if m.r is None {
        lemma_margin_key_absent(m, "r"@);
    }
    if m.t is None {
        lemma_margin_key_absent(m, "t"@);
    }
    if m.b is None {
        lemma_margin_key_absent(m, "b"@);
    }
    if m.pad is None {
        lemma_margin_key_absent(m, "pad"@);
    }
    if m.auto_expand is None {
        lemma_margin_key_absent(m, "autoexpand"@);
    }
}

/// Walks the member chain of a shape line: when every set field's key
/// differs from `key`, no member carries `key`.
proof fn lemma_line_key_absent(l: &Line, key: Seq<char>)
    requires
        l.color is Some ==> "color"@ != key,
        l.width is Some ==> "width"@ != key,
        l.dash is Some ==> "dash"@ != key,
    ensures
        forall|j: int| 0 <= j < l.fields().len() ==> (#[trigger] l.fields()[j]).0 != key,
{
    let fs0 = Seq::<(Seq<char>, Seq<char>)>::empty();
    let fs1 = match l.color {
        Some(v) => {
            crate::wire::lemma_key_not_in_push(fs0, ("color"@, color_frag(v)), key);
            fs0.push(("color"@, color_frag(v)))
        },
        None => fs0,
    };
    let fs2 = match l.width {
        Some(v) => {
            crate::wire::lemma_key_not_in_push(fs1, ("width"@, u64_wire(v as nat)), key);
            fs1.push(("width"@, u64_wire(v as nat)))
        },
        None => fs1,
    };
    let fs3 = match l.dash {
        Some(v) => {
            crate::wire::lemma_key_not_in_push(fs2, ("dash"@, str_wire(v@)), key);
            fs2.push(("dash"@, str_wire(v@)))
        },
        None => fs2,
    };
    assert(fs3 == l.fields());
}

/// The wire key of an unset line field does not occur among the serialized
/// members.
pub proof fn lemma_line_unset_keys(l: &Line)
    ensures
        l.color is None ==> forall|j: int|
            0 <= j < l.fields().len() ==> (#[trigger] l.fields()[j]).0 != "color"@,
        l.width is None ==> forall|j: int|
            0 <= j < l.fields().len() ==> (#[trigger] l.fields()[j]).0 != "width"@,
        l.dash is None ==> forall|j: int|
            0 <= j < l.fields().len() ==> (#[trigger] l.fields()[j]).0 != "dash"@,
{
    reveal_strlit("color");
    reveal_strlit("width");
    reveal_strlit("dash");
    assert("color"@ != "width"@) by {
        assert("color"@[0] == 'c' && "width"@[0] == 'w');
    }
    assert("color"@ != "dash"@) by {
        assert("color"@.len() == 5 && "dash"@.len() == 4);
    }
    assert("width"@ != "dash"@) by {
        assert("width"@.len() == 5 && "dash"@.len() == 4);
    }
    if l.color is None {
        lemma_line_key_absent(l, "color"@);
    }
    if l.width is None {
        lemma_line_key_absent(l, "width"@);
    }
    if l.dash is None {
        lemma_line_key_absent(l, "dash"@);
    }
}

/// A shape with every field unset serializes as the empty object:
/// no wire key appears at all.
pub proof fn lemma_shape_all_unset_empty(s: &Shape)
    requires
        s.visible is None,
        s.layout_type is None,
        s.layer is None,
        s.x_ref is None,
        s.x_size_mode is None,
        s.x_anchor is None,
        s.x0 is None,
        s.x1 is None,
        s.y_ref is None,
        s.y_size_mode is None,
        s.y_anchor is None,
        s.y0 is None,
        s.y1 is None,
        s.path is None,
        s.opacity is None,
        s.line is None,
        s.fill_color is None,
        s.fill_rule is None,
        s.editable is None,
        s.name is None,
        s.template_item_name is None,
    ensures
        s.fields() == Seq::<(Seq<char>, Seq<char>)>::empty(),
        obj_wire(s.fields()) == "{}"@,
{
    reveal_strlit("{}");
    assert(obj_wire(s.fields()) =~= "{}"@);
}

/// An axis with every field unset serializes as the empty object:
/// no wire key appears at all.
pub proof fn lemma_axis_all_unset_empty(a: &Axis)
    requires
        a.visible is None,
        a.color is None,
        a.title is None,
        a.axis_type is None,
        a.auto_range is None,
        a.range_mode is None,
        a.range is None,
        a.fixed_range is None,
        a.constrain is None,
        a.constrain_toward is None,
        a.tick_mode is None,
        a.n_ticks is None,
        a.tick0 is None,
        a.dtick is None,
        a.tick_values is None,
        a.tick_text is None,
        a.ticks is None,
        a.ticks_on is None,
        a.mirror is None,
        a.tick_length is None,
        a.tick_width is None,
        a.tick_color is None,
        a.show_tick_labels is None,
        a.auto_margin is None,
        a.show_spikes is None,
        a.spike_color is None,
        a.spike_thickness is None,
        a.spike_dash is None,
        a.spike_mode is None,
        a.spike_snap is None,
        a.tick_font is None,
        a.tick_angle is None,
        a.tick_prefix is None,
        a.show_tick_prefix is None,
        a.tick_suffix is None,
        a.show_tick_suffix is None,
        a.show_exponent is None,
        a.exponent_format is None,
        a.separate_thousands is None,
        a.tick_format is None,
        a.tick_format_stops is None,
        a.hover_format is None,
        a.show_line is None,
        a.line_color is None,
        a.line_width is None,
        a.show_grid is None,
        a.grid_color is None,
        a.grid_width is None,
        a.zero_line is None,
        a.zero_line_color is None,
        a.zero_line_width is None,
        a.show_dividers is None,
        a.divider_color is None,
        a.divider_width is None,
        a.anchor is None,
        a.side is None,
        a.overlaying is None,
        a.domain is None,
        a.position is None,
        a.range_slider is None,
        a.range_selector is None,
        a.calendar is None,
    ensures
        a.fields() == Seq::<(Seq<char>, Seq<char>)>::empty(),
        obj_wire(a.fields()) == "{}"@,
{
    reveal_strlit("{}");
    assert(obj_wire(a.fields()) =~= "{}"@);
}

/// A layout with every field unset serializes as the empty object:
/// no wire key appears at all.
pub proof fn lemma_layout_all_unset_empty(l: &Layout)
    requires
        l.title is None,
        l.show_legend is None,
        l.legend is None,
        l.margin is None,
        l.auto_size is None,
        l.width is None,
        l.height is None,
        l.font is None,
        l.uniform_text is None,
        l.separators is None,
        l.paper_background_color is None,
        l.plot_background_color is None,
        l.color_scale is None,
        l.colorway is None,
        l.color_axis is None,
        l.mode_bar is None,
        l.hover_mode is None,
        l.click_mode is None,
        l.drag_mode is None,
        l.select_direction is None,
        l.hover_distance is None,
        l.spike_distance is None,
        l.hover_label is None,
        l.template is None,
        l.grid is None,
        l.calendar is None,
        l.x_axis is None,
        l.y_axis is None,
        l.x_axis2 is None,
        l.y_axis2 is None,
        l.x_axis3 is None,
        l.y_axis3 is None,
        l.x_axis4 is None,
        l.y_axis4 is None,
        l.x_axis5 is None,
        l.y_axis5 is None,
        l.x_axis6 is None,
        l.y_axis6 is None,
        l.x_axis7 is None,
        l.y_axis7 is None,
        l.x_axis8 is None,
        l.y_axis8 is None,
        l.shapes is None,
        l.box_mode is None,
        l.box_gap is None,
        l.box_group_gap is None,
        l.bar_mode is None,
        l.bar_norm is None,
        l.bar_gap is None,
        l.bar_group_gap is None,
        l.violin_mode is None,
        l.violin_gap is None,
        l.violin_group_gap is None,
        l.waterfall_mode is None,
        l.waterfall_gap is None,
        l.waterfall_group_gap is None,
        l.pie_colorway is None,
        l.extend_pie_colors is None,
        l.sunburst_colorway is None,
        l.extend_sunburst_colors is None,
    ensures
        l.fields() == Seq::<(Seq<char>, Seq<char>)>::empty(),
        obj_wire(l.fields()) == "{}"@,
{
    reveal_strlit("{}");
    assert(obj_wire(l.fields()) =~= "{}"@);
}

} // verus!
