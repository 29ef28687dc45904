use plotly::common::{
    Anchor, Calendar, ColorBar, ColorScale, ColorScaleElement, ColorScalePalette, Font, Label,
    Orientation, Side, TickFormatStop, Title,
};
use plotly::layout::{
    Align, Axis, AxisType, BarMode, ColorAxis, GridDomain, HoverMode, Layer, LayoutGrid,
    LayoutType, Legend, Line, Margin, ModeBar, RangeSelector, RangeSlider, RangeSliderYAxis,
    SelectorButton, SelectorStep, Shape, SliderRangeMode, UniformText, UniformTextMode,
};
use plotly::{Color, DecNum, Layout, NamedColor, NumOrString};

#[test]
fn fresh_entities_serialize_empty() {
    assert_eq!(Margin::new().to_wire(), "{}");
    assert_eq!(Legend::new().to_wire(), "{}");
    assert_eq!(Axis::new().to_wire(), "{}");
    assert_eq!(Shape::new().to_wire(), "{}");
    assert_eq!(Layout::new().to_wire(), "{}");
    assert_eq!(Line::new().to_wire(), "{}");
    assert_eq!(Font::new().to_wire(), "{}");
}

#[test]
fn unset_fields_are_omitted() {
    let m = Margin::new().left(10).top(5);
    assert_eq!(m.to_wire(), "{\"l\":10,\"t\":5}");
    let v: serde_json::Value = serde_json::from_str(&m.to_wire()).unwrap();
    let obj = v.as_object().unwrap();
    assert_eq!(obj.len(), 2);
    assert!(!obj.contains_key("r"));
    assert!(!obj.contains_key("b"));
    assert!(!obj.contains_key("pad"));
    assert!(!obj.contains_key("autoexpand"));
}

#[test]
fn margin_full_wire() {
    let m = Margin::new().left(1).right(2).top(3).bottom(4).pad(5).auto_expand(true);
    assert_eq!(m.to_wire(), "{\"l\":1,\"r\":2,\"t\":3,\"b\":4,\"pad\":5,\"autoexpand\":true}");
}

#[test]
fn legend_uses_wire_aliases() {
    let l = Legend::new()
        .background_color(Color::Named(NamedColor::White))
        .border_width(2)
        .trace_order("grouped")
        .x(DecNum::new(false, 95, 2))
        .x_anchor(Anchor::Right)
        .valign(Align::Middle);
    assert_eq!(
        l.to_wire(),
        "{\"bgcolor\":\"white\",\"borderwidth\":2,\"traceorder\":\"grouped\",\"x\":0.95,\"xanchor\":\"right\",\"valign\":\"middle\"}"
    );
}

#[test]
fn truthy_enum_off_serializes_as_false() {
    let u = UniformText::new().mode(UniformTextMode::False);
    assert_eq!(u.to_wire(), "{\"mode\":false}");
    let v: serde_json::Value = serde_json::from_str(&u.to_wire()).unwrap();
    assert_eq!(v["mode"], serde_json::Value::Bool(false));
}

#[test]
fn truthy_enum_on_serializes_as_tag() {
    assert_eq!(UniformText::new().mode(UniformTextMode::Hide).to_wire(), "{\"mode\":\"hide\"}");
    assert_eq!(UniformText::new().mode(UniformTextMode::Show).to_wire(), "{\"mode\":\"show\"}");
    let l = Layout::new().hover_mode(HoverMode::XUnified);
    assert_eq!(l.to_wire(), "{\"hovermode\":\"x unified\"}");
    let off = Layout::new().hover_mode(HoverMode::False);
    assert_eq!(off.to_wire(), "{\"hovermode\":false}");
}

#[test]
fn number_or_string_keeps_variants_apart() {
    let r = RangeSliderYAxis::new().range(vec![
        NumOrString::Int(-5),
        NumOrString::Str("2020-04-01".to_string()),
        NumOrString::Dec(DecNum::new(false, 25, 1)),
    ]);
    assert_eq!(r.to_wire(), "{\"range\":[-5,\"2020-04-01\",2.5]}");
    let v: serde_json::Value = serde_json::from_str(&r.to_wire()).unwrap();
    let arr = v["range"].as_array().unwrap();
    assert!(arr[0].is_i64());
    assert!(arr[1].is_string());
    assert!(arr[2].is_f64());
}

#[test]
fn axis_serializes_nested_entities() {
    let a = Axis::new()
        .type_(AxisType::Date)
        .title(Title::new("time"))
        .range(vec![NumOrString::Int(0), NumOrString::Int(10)])
        .tick_values(vec![DecNum::from_i64(0), DecNum::new(false, 55, 1)])
        .range_slider(RangeSlider::new().visible(true))
        .range_selector(RangeSelector::new().buttons(vec![SelectorButton::new()
            .count(30)
            .step(SelectorStep::Day)]));
    assert_eq!(
        a.to_wire(),
        "{\"title\":{\"text\":\"time\"},\"type\":\"date\",\"range\":[0,10],\"tickvals\":[0,5.5],\"rangeslider\":{\"visible\":true},\"rangeselector\":{\"buttons\":[{\"step\":\"day\",\"count\":30}]}}"
    );
}

#[test]
fn layout_grid_wire() {
    let g = LayoutGrid::new()
        .rows(2)
        .columns(3)
        .domain(GridDomain::new().x(vec![DecNum::new(false, 0, 0), DecNum::new(false, 5, 1)]));
    assert_eq!(g.to_wire(), "{\"rows\":2,\"columns\":3,\"domain\":{\"x\":[0,0.5]}}");
}

#[test]
fn color_scale_palette_and_stops() {
    let l = Layout::new().color_scale(
        plotly::layout::LayoutColorScale::new()
            .sequential(ColorScale::Palette(ColorScalePalette::Viridis))
            .diverging(ColorScale::Vector(vec![
                ColorScaleElement::new(DecNum::new(false, 0, 0), "red"),
                ColorScaleElement::new(DecNum::new(false, 1, 0), "blue"),
            ])),
    );
    assert_eq!(
        l.to_wire(),
        "{\"colorscale\":{\"sequential\":\"Viridis\",\"diverging\":[[0,\"red\"],[1,\"blue\"]]}}"
    );
}

#[test]
fn shape_wire_contains_exactly_configured_keys() {
    let s = Shape::new()
        .layout_type(LayoutType::Rect)
        .layer(Layer::Below)
        .x0(DecNum::from_i64(1))
        .y0(DecNum::from_i64(1))
        .x1(DecNum::from_i64(2))
        .y1(DecNum::from_i64(3))
        .fill_color(Color::Named(NamedColor::Gray))
        .opacity(DecNum::new(false, 2, 1));
    let v: serde_json::Value = serde_json::from_str(&s.to_wire()).unwrap();
    let obj = v.as_object().unwrap();
    let mut keys: Vec<&str> = obj.keys().map(|k| k.as_str()).collect();
    keys.sort();
    assert_eq!(keys, vec!["fillcolor", "layer", "opacity", "type", "x0", "x1", "y0", "y1"]);
    assert_eq!(v["type"], serde_json::Value::String("rect".to_string()));
    assert_eq!(v["opacity"].as_f64().unwrap(), 0.2);
}

#[test]
fn layout_mode_and_gap_fields() {
    let l = Layout::new()
        .bar_mode(BarMode::Stack)
        .bar_gap(DecNum::new(false, 5, 2))
        .x_axis2(Axis::new().visible(false));
    assert_eq!(
        l.to_wire(),
        "{\"xaxis2\":{\"visible\":false},\"barmode\":\"stack\",\"bargap\":0.05}"
    );
}

#[test]
fn layout_colorway_and_fonts() {
    let l = Layout::new()
        .font(Font::new().family("Courier").size(12).color(Color::Named(NamedColor::Black)))
        .colorway(vec![Color::Rgb(1, 2, 3), Color::Named(NamedColor::Red)]);
    assert_eq!(
        l.to_wire(),
        "{\"font\":{\"family\":\"Courier\",\"size\":12,\"color\":\"black\"},\"colorway\":[\"rgb(1, 2, 3)\",\"red\"]}"
    );
}

#[test]
fn axis_keeps_idiosyncratic_aliases() {
    let a = Axis::new().auto_range(true).tick_text(vec!["a".to_string(), "b".to_string()]);
    assert_eq!(a.to_wire(), "{\"auto_range\":true,\"tick_text\":[\"a\",\"b\"]}");
    let l = Layout::new().uniform_text(UniformText::new().min_size(12)).extend_sunburst_colors(true);
    assert_eq!(
        l.to_wire(),
        "{\"uniform_text\":{\"min_size\":12},\"extendsuburstcolors\":true}"
    );
}

#[test]
fn color_axis_and_mode_bar_wire() {
    let c = ColorAxis::new()
        .cauto(false)
        .cmid(DecNum::new(true, 15, 1))
        .color_bar(ColorBar::new().thickness(10));
    assert_eq!(c.to_wire(), "{\"cauto\":false,\"cmid\":-1.5,\"colorbar\":{\"thickness\":10}}");
    let m = ModeBar::new()
        .orientation(Orientation::Horizontal)
        .active_color(Color::Named(NamedColor::Olive));
    assert_eq!(m.to_wire(), "{\"orientation\":\"h\",\"activecolor\":\"olive\"}");
}

#[test]
fn hover_label_and_distances() {
    let l = Layout::new()
        .hover_distance(-1)
        .hover_label(Label::new().align("left").name_length(-1));
    assert_eq!(
        l.to_wire(),
        "{\"hoverdistance\":-1,\"hoverlabel\":{\"align\":\"left\",\"namelength\":-1}}"
    );
}

#[test]
fn range_selector_button_wire() {
    let rs = RangeSelector::new()
        .buttons(vec![SelectorButton::new().step(SelectorStep::Month).count(1).label("1m")])
        .active_color(Color::Named(NamedColor::Teal));
    assert_eq!(
        rs.to_wire(),
        "{\"buttons\":[{\"step\":\"month\",\"count\":1,\"label\":\"1m\"}],\"activecolor\":\"teal\"}"
    );
}

#[test]
fn tick_format_stops_wire() {
    let a = Axis::new().tick_format_stops(vec![TickFormatStop::new()
        .enabled(true)
        .dtick_range(vec![NumOrString::Int(0), NumOrString::Int(1000)])
        .value("%H:%M")]);
    assert_eq!(
        a.to_wire(),
        "{\"tickformatstops\":[{\"enabled\":true,\"dtickrange\":[0,1000],\"value\":\"%H:%M\"}]}"
    );
}

#[test]
fn title_and_calendar_wire() {
    let t = Title::new("total").side(Side::Top).x(DecNum::new(false, 5, 1));
    assert_eq!(t.to_wire(), "{\"text\":\"total\",\"side\":\"top\",\"x\":0.5}");
    let l = Layout::new().calendar(Calendar::Hebrew);
    assert_eq!(l.to_wire(), "{\"calendar\":\"hebrew\"}");
}

#[test]
fn range_slider_wire() {
    let r = RangeSlider::new()
        .border_width(1)
        .auto_range(false)
        .thickness(DecNum::new(false, 15, 2))
        .y_axis(RangeSliderYAxis::new().range_mode(SliderRangeMode::Fixed));
    assert_eq!(
        r.to_wire(),
        "{\"borderwidth\":1,\"autorange\":false,\"thickness\":0.15,\"yaxis\":{\"rangemode\":\"fixed\"}}"
    );
}
