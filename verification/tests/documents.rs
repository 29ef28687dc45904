use plotly::layout::{Layer, LayoutType, Line, Shape};
use plotly::plot::{temp_html_file_name, ImageFormat};
use plotly::{Color, DecNum, Layout, Mode, NamedColor, Plot, Scatter, Trace};

fn create_test_plot() -> Plot {
    let trace1 = Scatter::new(vec![0, 1, 2], vec![6, 10, 2]).name("trace1");
    let mut plot = Plot::new();
    plot.add_trace(trace1);
    plot
}

#[test]
fn test_inline_plot() {
    let plot = create_test_plot();
    let inline_plot_data = plot.to_inline_html(Some("replace_this_with_the_div_id"));
    assert!(inline_plot_data.contains("replace_this_with_the_div_id"));
    println!("{}", inline_plot_data);
    let random_div_id = plot.to_inline_html(None);
    println!("{}", random_div_id);
}

#[test]
fn scatter_trace_wire() {
    let t = Scatter::new(vec![0, 1, 2], vec![6, 10, 2]).name("trace1").mode(Mode::Markers);
    assert_eq!(
        t.to_wire(),
        "{\"type\":\"scatter\",\"x\":[0,1,2],\"y\":[6,10,2],\"name\":\"trace1\",\"mode\":\"markers\"}"
    );
}

#[test]
fn json_document_of_empty_plot() {
    let plot = Plot::new();
    assert_eq!(plot.to_json(), "{\"data\": [], \"layout\": {}}");
}

#[test]
fn json_document_layout_defaults_to_empty_object() {
    let plot = create_test_plot();
    let json = plot.to_json();
    assert!(json.ends_with(", \"layout\": {}}"));
    let v: serde_json::Value = serde_json::from_str(&json).unwrap();
    assert!(v["layout"].as_object().unwrap().is_empty());
}

#[test]
fn script_body_layout_defaults_to_empty_object() {
    let plot = create_test_plot();
    let html = plot.to_inline_html(Some("target"));
    assert!(html.contains("var layout = {};"));
}

#[test]
fn trace_order_is_insertion_order() {
    let mut plot = Plot::new();
    plot.add_trace(Scatter::new(vec![0], vec![1]).name("first"));
    plot.add_trace(Scatter::new(vec![1], vec![2]).name("second"));
    plot.add_trace(Scatter::new(vec![2], vec![3]).name("third"));
    let json = plot.to_json();
    assert_eq!(
        json,
        "{\"data\": [{\"type\":\"scatter\",\"x\":[0],\"y\":[1],\"name\":\"first\"},{\"type\":\"scatter\",\"x\":[1],\"y\":[2],\"name\":\"second\"},{\"type\":\"scatter\",\"x\":[2],\"y\":[3],\"name\":\"third\"}], \"layout\": {}}"
    );
    let v: serde_json::Value = serde_json::from_str(&json).unwrap();
    let data = v["data"].as_array().unwrap();
    assert_eq!(data.len(), 3);
    assert_eq!(data[0]["name"], "first");
    assert_eq!(data[1]["name"], "second");
    assert_eq!(data[2]["name"], "third");
}

#[test]
fn add_traces_keeps_order() {
    let mut plot = Plot::new();
    plot.add_traces(vec![
        Scatter::new(vec![0], vec![0]).name("a"),
        Scatter::new(vec![0], vec![0]).name("b"),
    ]);
    let v: serde_json::Value = serde_json::from_str(&plot.to_json()).unwrap();
    let data = v["data"].as_array().unwrap();
    assert_eq!(data[0]["name"], "a");
    assert_eq!(data[1]["name"], "b");
}

#[test]
fn json_document_is_idempotent() {
    let mut plot = Plot::new();
    plot.add_trace(Scatter::new(vec![1, 2], vec![3, 4]).name("t"));
    plot.set_layout(Layout::new().width(640).height(480));
    let first = plot.to_json();
    let second = plot.to_json();
    assert_eq!(first, second);
    assert_eq!(first.as_bytes(), second.as_bytes());
}

#[test]
fn inline_html_contains_div_id_exactly_twice() {
    let plot = create_test_plot();
    let html = plot.to_inline_html(Some("my-div"));
    assert_eq!(html.matches("my-div").count(), 2);
}

#[test]
fn inline_html_shape() {
    let mut plot = Plot::new();
    plot.add_trace(Scatter::new(vec![5], vec![6]));
    let html = plot.to_inline_html(Some("spot"));
    assert_eq!(
        html,
        "<div id=\"spot\" class=\"plotly-graph-div\"></div>\n<script type=\"text/javascript\">\nvar trace_0 = {\"type\":\"scatter\",\"x\":[5],\"y\":[6]};\nvar data = [trace_0];\nvar layout = {};\nPlotly.newPlot(\"spot\", data, layout);\n</script>\n"
    );
}

#[test]
fn random_div_id_is_20_alphanumeric_characters() {
    let plot = create_test_plot();
    let html = plot.to_inline_html(None);
    let start = html.find("<div id=\"").unwrap() + "<div id=\"".len();
    let id = &html[start..start + 20];
    assert_eq!(id.len(), 20);
    assert!(id.chars().all(|c| c.is_ascii_alphanumeric()));
    assert_eq!(&html[start + 20..start + 21], "\"");
}

#[test]
fn standalone_document_remote_script() {
    let plot = create_test_plot();
    let html = plot.render(false, "", 0, 0, "");
    assert!(html.starts_with("<!DOCTYPE html>"));
    assert!(html.contains("<script src=\"https://cdn.plot.ly/plotly-1.54.6.min.js\"></script>"));
    assert!(html.ends_with("</html>\n"));
}

#[test]
fn standalone_document_local_script_and_export() {
    let mut plot = create_test_plot();
    plot.use_local_plotly();
    let html = plot.render(true, "png", 1024, 680, "var Plotly = {};");
    assert!(html.contains("<script type=\"text/javascript\">\nvar Plotly = {};\n</script>"));
    assert!(html.contains("Plotly.downloadImage(gd, {format: \"png\", width: 1024, height: 680"));
    assert!(!html.contains("cdn.plot.ly"));
}

#[test]
fn image_format_tokens() {
    assert_eq!(ImageFormat::PNG.tag(), "png");
    assert_eq!(ImageFormat::JPEG.tag(), "jpeg");
    assert_eq!(ImageFormat::WEBP.tag(), "webp");
    assert_eq!(ImageFormat::SVG.tag(), "svg");
    assert_eq!(ImageFormat::PDF.tag(), "pdf");
    assert_eq!(ImageFormat::EPS.tag(), "eps");
}

#[test]
fn temp_file_names_are_fresh_and_well_formed() {
    let a = temp_html_file_name();
    let b = temp_html_file_name();
    assert!(a.starts_with("plotly_"));
    assert!(a.ends_with(".html"));
    assert_eq!(a.len(), "plotly_".len() + 22 + ".html".len());
    let id = &a["plotly_".len()..a.len() - ".html".len()];
    assert!(id.chars().all(|c| c.is_ascii_alphanumeric()));
    assert_ne!(a, b);
}

#[test]
fn three_shapes_and_three_traces() {
    let mut plot = Plot::new();
    plot.add_trace(Scatter::new(vec![1, 2, 3], vec![4, 5, 6]).name("t0"));
    plot.add_trace(Scatter::new(vec![1, 2, 3], vec![6, 5, 4]).name("t1"));
    plot.add_trace(Scatter::new(vec![0, 1, 2], vec![1, 1, 1]).name("t2"));
    let shapes = vec![
        Shape::new()
            .layout_type(LayoutType::Rect)
            .layer(Layer::Below)
            .x0(DecNum::from_i64(1))
            .y0(DecNum::from_i64(4))
            .x1(DecNum::from_i64(2))
            .y1(DecNum::from_i64(5))
            .fill_color(Color::Named(NamedColor::Gray))
            .opacity(DecNum::new(false, 2, 1)),
        Shape::new()
            .layout_type(LayoutType::Circle)
            .x0(DecNum::from_i64(2))
            .y0(DecNum::from_i64(4))
            .x1(DecNum::from_i64(3))
            .y1(DecNum::from_i64(6))
            .fill_color(Color::Named(NamedColor::Blue))
            .line(Line::new().color(Color::Named(NamedColor::Red))),
        Shape::new()
            .layout_type(LayoutType::Line)
            .x0(DecNum::from_i64(1))
            .y0(DecNum::from_i64(6))
            .x1(DecNum::from_i64(3))
            .y1(DecNum::from_i64(4))
            .line(Line::new().color(Color::Named(NamedColor::Red)).dash("dash".to_string())),
    ];
    plot.set_layout(Layout::new().shapes(shapes));

    let v: serde_json::Value = serde_json::from_str(&plot.to_json()).unwrap();
    assert_eq!(v["data"].as_array().unwrap().len(), 3);
    let shapes = v["layout"]["shapes"].as_array().unwrap();
    assert_eq!(shapes.len(), 3);

    let keys = |s: &serde_json::Value| {
        let mut ks: Vec<String> = s.as_object().unwrap().keys().cloned().collect();
        ks.sort();
        ks
    };
    assert_eq!(
        keys(&shapes[0]),
        vec!["fillcolor", "layer", "opacity", "type", "x0", "x1", "y0", "y1"]
    );
    assert_eq!(keys(&shapes[1]), vec!["fillcolor", "line", "type", "x0", "x1", "y0", "y1"]);
    assert_eq!(keys(&shapes[2]), vec!["line", "type", "x0", "x1", "y0", "y1"]);
    assert_eq!(shapes[2]["line"]["dash"], "dash");
}

#[test]
fn layout_is_a_trace_too() {
    let layout = Layout::new().width(800);
    assert_eq!(layout.serialize(), "{\"width\":800}");
}
