//! Plot assembly and document production.
//!
//! A [`Plot`] owns an ordered collection of serialized trace fragments and
//! at most one [`Layout`]. From those it produces three artifacts, each
//! pinned down to the character by a spec function: the script body binding
//! every trace and the layout to variables, a standalone HTML document, an
//! embeddable HTML fragment, and a plain JSON document of the form
//! `{"data": [...], "layout": {...}}` for external image exporters.
//!
//! Writing files, launching a browser and invoking an image exporter are I/O
//! concerns that live outside this library; callers hand the strings
//! produced here to whatever performs them.

use vstd::prelude::*;

use rand::Rng;

use crate::layout::Layout;
use crate::wire::{arr_inner, json_u64, obj_wire, u64_wire};

verus! {

/// A type that can be serialized to the JSON wire fragment understood by the
/// external rendering engine. The spec function `wire_spec` names the
/// fragment; `serialize` produces exactly that text.
pub trait Trace {
    /// The wire fragment this trace serializes to.
    spec fn wire_spec(&self) -> Seq<char>;

    fn serialize(&self) -> (r: String)
        ensures
            r@ == self.wire_spec(),
    ;
}

impl Trace for Layout {
    open spec fn wire_spec(&self) -> Seq<char> {
        obj_wire(self.fields())
    }

    fn serialize(&self) -> (r: String) {
        self.to_wire()
    }
}

impl Trace for crate::scatter::Scatter {
    open spec fn wire_spec(&self) -> Seq<char> {
        obj_wire(self.fields())
    }

    fn serialize(&self) -> (r: String) {
        self.to_wire()
    }
}

/// The script variable that the `i`-th trace fragment is bound to.
pub open spec fn trace_ref(i: nat) -> Seq<char> {
    "trace_"@ + u64_wire(i)
}

/// One `var trace_<i> = <fragment>;` line per trace, in insertion order.
pub open spec fn trace_vars(ts: Seq<Seq<char>>) -> Seq<char>
    decreases ts.len(),
{
    if ts.len() == 0 {
        Seq::empty()
    } else {
        trace_vars(ts.drop_last()) + "var trace_"@ + u64_wire((ts.len() - 1) as nat) + " = "@
            + ts.last() + ";\n"@
    }
}

/// The comma-separated trace variable names `trace_0,...,trace_<n-1>`.
pub open spec fn data_refs(n: nat) -> Seq<char>
    decreases n,
{
    if n == 0 {
        Seq::empty()
    } else if n == 1 {
        trace_ref(0)
    } else {
        data_refs((n - 1) as nat) + ","@ + trace_ref((n - 1) as nat)
    }
}

/// The script body of a plot: every trace bound to its variable, the `data`
/// array referencing them in insertion order, and the layout object (or `{}`
/// when no layout was set).
pub open spec fn plot_data_wire(ts: Seq<Seq<char>>, lw: Seq<char>) -> Seq<char> {
    trace_vars(ts) + "var data = ["@ + data_refs(ts.len()) + "];\n"@ + "var layout = "@ + lw
        + ";"@
}

/// The plain JSON document of a plot: the trace fragments comma-joined under
/// `"data"` and the layout fragment under `"layout"`.
pub open spec fn json_doc_wire(ts: Seq<Seq<char>>, lw: Seq<char>) -> Seq<char> {
    "{\"data\": ["@ + arr_inner(ts) + "], \"layout\": "@ + lw + "}"@
}

/// The embeddable HTML fragment: a labelled region followed by an inline
/// script that renders into it. The container identifier appears exactly
/// twice: once as the element id and once as the render call's target.
pub open spec fn inline_html_wire(pd: Seq<char>, id: Seq<char>) -> Seq<char> {
    "<div id=\""@ + id + "\" class=\"plotly-graph-div\"></div>\n"@
        + "<script type=\"text/javascript\">\n"@ + pd + "\nPlotly.newPlot(\""@ + id
        + "\", data, layout);\n"@ + "</script>\n"@
}

/// The standalone HTML document: the renderer script (a remote reference or
/// an inlined copy), the plot's script body, the render call, and — when an
/// inline raster preview was requested — an image-export call with the given
/// format and pixel size.
pub open spec fn html_doc_wire(
    pd: Seq<char>,
    js: Seq<char>,
    remote: bool,
    export_image: bool,
    image_type: Seq<char>,
    width: nat,
    height: nat,
) -> Seq<char> {
    "<!DOCTYPE html>\n<html>\n<head>\n<meta charset=\"utf-8\" />\n"@ + (if remote {
        "<script src=\"https://cdn.plot.ly/plotly-1.54.6.min.js\"></script>\n"@
    } else {
        "<script type=\"text/javascript\">\n"@ + js + "\n</script>\n"@
    }) + "</head>\n<body>\n"@ + "<div id=\"plotly-div\" class=\"plotly-graph-div\"></div>\n"@
        + "<script type=\"text/javascript\">\n"@ + pd + "\nPlotly.newPlot(\"plotly-div\", data, layout).then(function(gd) {\n"@
        + (if export_image {
        "    return Plotly.downloadImage(gd, {format: \""@ + image_type + "\", width: "@
            + u64_wire(width) + ", height: "@ + u64_wire(height) + ", filename: \"plot\"});\n"@
    } else {
        Seq::empty()
    }) + "});\n</script>\n</body>\n</html>\n"@
}

/// Whether `c` is an ASCII alphanumeric character.
pub open spec fn is_alnum(c: char) -> bool {
    (48 <= c as u32 && c as u32 <= 57) || (65 <= c as u32 && c as u32 <= 90) || (97 <= c as u32
        && c as u32 <= 122)
}

/// Whether every character of `s` is ASCII alphanumeric.
pub open spec fn alnum_seq(s: Seq<char>) -> bool {
    forall|i: int| 0 <= i < s.len() ==> is_alnum(#[trigger] s[i])
}

/// Relies on rand's thread-local generator with the `Alphanumeric`
/// distribution: every sampled character is drawn from `A`-`Z`, `a`-`z` and
/// `0`-`9`. Nothing else is assumed of the outcome.
#[verifier::external_body]
fn random_alphanumeric(n: usize) -> (r: String)
    ensures
        r@.len() == n,
        alnum_seq(r@),
{
    rand::thread_rng().sample_iter(&rand_distr::Alphanumeric).take(n).collect()
}

/// A fresh file name of the form `plotly_<22 alphanumeric characters>.html`,
/// for saving a rendered document in a temporary directory.
pub fn temp_html_file_name() -> (r: String)
    ensures
        exists|id: Seq<char>|
            id.len() == 22 && alnum_seq(id) && r@ == "plotly_"@ + id + ".html"@,
{
    let id = random_alphanumeric(22);
    let mut out = String::from_str("plotly_");
    out.append(id.as_str());
    out.append(".html");
    assert(out@ == "plotly_"@ + id@ + ".html"@);
    out
}

/// The raster and vector formats an external image exporter can produce.
#[derive(Debug, Clone, Copy)]
pub enum ImageFormat {
    PNG,
    JPEG,
    WEBP,
    SVG,
    PDF,
    EPS,
}

impl ImageFormat {
    /// The format token handed to the image exporter.
    pub open spec fn tag_spec(&self) -> Seq<char> {
        match self {
            ImageFormat::PNG => "png"@,
            ImageFormat::JPEG => "jpeg"@,
            ImageFormat::WEBP => "webp"@,
            ImageFormat::SVG => "svg"@,
            ImageFormat::PDF => "pdf"@,
            ImageFormat::EPS => "eps"@,
        }
    }

    pub fn tag(&self) -> (r: &'static str)
        ensures
            r@ == self.tag_spec(),
    {
        match self {
            ImageFormat::PNG => "png",
            ImageFormat::JPEG => "jpeg",
            ImageFormat::WEBP => "webp",
            ImageFormat::SVG => "svg",
            ImageFormat::PDF => "pdf",
            ImageFormat::EPS => "eps",
        }
    }
}

/// A container for serialized traces and an optional layout; it assembles
/// them into documents for the external rendering engine. A plot may be
/// mutated and rendered any number of times, in any order; rendering never
/// consumes or freezes it.
pub struct Plot {
    traces: Vec<String>,
    layout: Option<Layout>,
    remote_plotly_js: bool,
}

impl Plot {
    /// The wire fragments of the traces added so far, in insertion order.
    pub closed spec fn trace_wires(&self) -> Seq<Seq<char>> {
        self.traces@.map_values(|s: String| s@)
    }

    /// The layout set on this plot, if any.
    pub closed spec fn layout_spec(&self) -> Option<Layout> {
        self.layout
    }

    /// Whether documents reference the remotely hosted renderer script
    /// rather than embedding a local copy.
    pub closed spec fn remote_plotly_js_spec(&self) -> bool {
        self.remote_plotly_js
    }

    /// The layout fragment of this plot: the serialized layout, or the empty
    /// object when none was set.
    pub open spec fn layout_wire(&self) -> Seq<char> {
        match self.layout_spec() {
            Some(l) => obj_wire(l.fields()),
            None => obj_wire(Seq::empty()),
        }
    }

    /// The script body of this plot.
    pub open spec fn plot_data_spec(&self) -> Seq<char> {
        plot_data_wire(self.trace_wires(), self.layout_wire())
    }

    /// The plain JSON document of this plot.
    pub open spec fn json_spec(&self) -> Seq<char> {
        json_doc_wire(self.trace_wires(), self.layout_wire())
    }

    /// A new plot with no traces and no layout, referencing the remotely
    /// hosted renderer script.
    pub fn new() -> (r: Plot)
        ensures
            r.trace_wires() == Seq::<Seq<char>>::empty(),
            r.layout_spec() is None,
            r.remote_plotly_js_spec(),
    {
        let r = Plot { traces: Vec::new(), layout: None, remote_plotly_js: true };
        proof {
            assert(r.trace_wires() =~= Seq::<Seq<char>>::empty());
        }
        r
    }

    /// Embeds the renderer script into rendered documents instead of
    /// referencing the remotely hosted copy: the document grows much larger
    /// but loads without network access.
    pub fn use_local_plotly(&mut self)
        ensures
            !final(self).remote_plotly_js_spec(),
            final(self).trace_wires() == old(self).trace_wires(),
            final(self).layout_spec() == old(self).layout_spec(),
    {
        self.remote_plotly_js = false;
    }

    /// Adds a trace; its fragment goes to the end of the trace order.
    pub fn add_trace<T: Trace>(&mut self, trace: T)
        ensures
            final(self).trace_wires() == old(self).trace_wires().push(trace.wire_spec()),
            final(self).layout_spec() == old(self).layout_spec(),
            final(self).remote_plotly_js_spec() == old(self).remote_plotly_js_spec(),
    {
        let s = trace.serialize();
        self.traces.push(s);
        proof {
            assert(self.trace_wires() =~= old(self).trace_wires().push(trace.wire_spec()));
        }
    }

    /// Adds several traces, keeping their order.
    pub fn add_traces<T: Trace>(&mut self, traces: Vec<T>)
        ensures
            final(self).trace_wires() == old(self).trace_wires() + traces@.map_values(
                |t: T| t.wire_spec(),
            ),
            final(self).layout_spec() == old(self).layout_spec(),
            final(self).remote_plotly_js_spec() == old(self).remote_plotly_js_spec(),
    {
        let ghost all = traces@.map_values(|t: T| t.wire_spec());
        let mut rest = traces;
        while rest.len() > 0
            invariant
                old(self).trace_wires() + all == self.trace_wires() + rest@.map_values(
                    |t: T| t.wire_spec(),
                ),
                self.layout_spec() == old(self).layout_spec(),
                self.remote_plotly_js_spec() == old(self).remote_plotly_js_spec(),
            decreases rest.len(),
        {
            let ghost before = rest@;
            let t = rest.remove(0);
            self.add_trace(t);
            proof {
                assert(before.map_values(|t: T| t.wire_spec()) =~= seq![t.wire_spec()]
                    + rest@.map_values(|t: T| t.wire_spec()));
                assert(old(self).trace_wires() + all =~= self.trace_wires() + rest@.map_values(
                    |t: T| t.wire_spec(),
                ));
            }
        }
        proof {
            assert(rest@.map_values(|t: T| t.wire_spec()) =~= Seq::<Seq<char>>::empty());
            assert(final(self).trace_wires() =~= old(self).trace_wires() + all);
        }
    }

    /// Sets the layout; a later call replaces the earlier one.
    pub fn set_layout(&mut self, layout: Layout)
        ensures
            final(self).layout_spec() == Some(layout),
            final(self).trace_wires() == old(self).trace_wires(),
            final(self).remote_plotly_js_spec() == old(self).remote_plotly_js_spec(),
    {
        self.layout = Some(layout);
    }

    /// Appends the layout fragment: the serialized layout, or `{}` when no
    /// layout was set.
    fn append_layout_wire(&self, out: &mut String)
        ensures
            final(out)@ == old(out)@ + self.layout_wire(),
    {
        match &self.layout {
            Some(l) => {
                let lw = l.to_wire();
                out.append(lw.as_str());
            },
            None => {
                out.append("{}");
                proof {
                    reveal_strlit("{}");
                    assert("{}"@ =~= obj_wire(Seq::<(Seq<char>, Seq<char>)>::empty()));
                }
            },
        }
    }

    /// The script body: every trace bound to a `trace_<i>` variable, the
    /// `data` array listing them in insertion order, and the layout.
    fn render_plot_data(&self) -> (r: String)
        ensures
            r@ == self.plot_data_spec(),
    {
        let mut out = String::new();
        let mut i: usize = 0;
        while i < self.traces.len()
            invariant
                i <= self.traces@.len(),
                out@ == trace_vars(self.trace_wires().take(i as int)),
            decreases self.traces@.len() - i,
        {
            out.append("var trace_");
            let n = json_u64(i as u64);
            out.append(n.as_str());
            out.append(" = ");
            out.append(self.traces[i].as_str());
            out.append(";\n");
            proof {
                let tw = self.trace_wires();
                assert(tw.take(i + 1).drop_last() =~= tw.take(i as int));
                assert(tw.take(i + 1).last() == tw[i as int]);
                assert(out@ =~= trace_vars(tw.take(i + 1)));
            }
            i = i + 1;
        }
        proof {
            assert(self.trace_wires().take(self.traces@.len() as int) =~= self.trace_wires());
        }
        out.append("var data = [");
        let mut j: usize = 0;
        let ghost vars_then_open = out@;
        while j < self.traces.len()
            invariant
                j <= self.traces@.len(),
                out@ == vars_then_open + data_refs(j as nat),
            decreases self.traces@.len() - j,
        {
            if j != 0 {
                out.append(",");
            }
            out.append("trace_");
            let n = json_u64(j as u64);
            out.append(n.as_str());
            proof {
                assert(out@ =~= vars_then_open + data_refs((j + 1) as nat));
            }
            j = j + 1;
        }
        out.append("];\n");
        out.append("var layout = ");
        self.append_layout_wire(&mut out);
        out.append(";");
        assert(out@ =~= self.plot_data_spec());
        out
    }

    /// The plain JSON document `{"data": [...], "layout": ...}`, the payload
    /// handed to external static-image exporters. Its content is a pure
    /// function of the plot's state, so rendering an unmodified plot twice
    /// yields identical text.
    pub fn to_json(&self) -> (r: String)
        ensures
            r@ == self.json_spec(),
    {
        let mut out = String::from_str("{\"data\": [");
        let ghost opening = out@;
        let mut i: usize = 0;
        while i < self.traces.len()
            invariant
                i <= self.traces@.len(),
                out@ == opening + arr_inner(self.trace_wires().take(i as int)),
            decreases self.traces@.len() - i,
        {
            if i != 0 {
                out.append(",");
            }
            out.append(self.traces[i].as_str());
            proof {
                let tw = self.trace_wires();
                reveal_strlit(",");
                assert(","@ =~= seq![',']);
                assert(tw.take(i + 1).drop_last() =~= tw.take(i as int));
                assert(tw.take(i + 1).last() == tw[i as int]);
                assert(out@ =~= opening + arr_inner(tw.take(i + 1)));
            }
            i = i + 1;
        }
        proof {
            assert(self.trace_wires().take(self.traces@.len() as int) =~= self.trace_wires());
        }
        out.append("], \"layout\": ");
        self.append_layout_wire(&mut out);
        out.append("}");
        assert(out@ =~= self.json_spec());
        out
    }

    /// The standalone HTML document embedding this plot. When the plot
    /// references the remote renderer script, `plotly_javascript` is unused;
    /// otherwise it is the script source to embed. When `export_image` is
    /// set, the document also triggers an image download in the given format
    /// and pixel size when opened.
    pub fn render(
        &self,
        export_image: bool,
        image_type: &str,
        image_width: usize,
        image_height: usize,
        plotly_javascript: &str,
    ) -> (r: String)
        ensures
            r@ == html_doc_wire(
                self.plot_data_spec(),
                plotly_javascript@,
                self.remote_plotly_js_spec(),
                export_image,
                image_type@,
                image_width as nat,
                image_height as nat,
            ),
    {
        let pd = self.render_plot_data();
        let mut out = String::from_str("<!DOCTYPE html>\n<html>\n<head>\n<meta charset=\"utf-8\" />\n");
        if self.remote_plotly_js {
            out.append("<script src=\"https://cdn.plot.ly/plotly-1.54.6.min.js\"></script>\n");
        } else {
            out.append("<script type=\"text/javascript\">\n");
            out.append(plotly_javascript);
            out.append("\n</script>\n");
        }
        out.append("</head>\n<body>\n");
        out.append("<div id=\"plotly-div\" class=\"plotly-graph-div\"></div>\n");
        out.append("<script type=\"text/javascript\">\n");
        out.append(pd.as_str());
        out.append("\nPlotly.newPlot(\"plotly-div\", data, layout).then(function(gd) {\n");
        if export_image {
            out.append("    return Plotly.downloadImage(gd, {format: \"");
            out.append(image_type);
            out.append("\", width: ");
            let w = json_u64(image_width as u64);
            out.append(w.as_str());
            out.append(", height: ");
            let h = json_u64(image_height as u64);
            out.append(h.as_str());
            out.append(", filename: \"plot\"});\n");
        }
        out.append("});\n</script>\n</body>\n</html>\n");
        assert(out@ =~= html_doc_wire(
            self.plot_data_spec(),
            plotly_javascript@,
            self.remote_plotly_js_spec(),
            export_image,
            image_type@,
            image_width as nat,
            image_height as nat,
        ));
        out
    }

    /// The embeddable HTML fragment rendering into the given container.
    fn render_inline(&self, plot_div_id: &str) -> (r: String)
        ensures
            r@ == inline_html_wire(self.plot_data_spec(), plot_div_id@),
    {
        let pd = self.render_plot_data();
        let mut out = String::from_str("<div id=\"");
        out.append(plot_div_id);
        out.append("\" class=\"plotly-graph-div\"></div>\n");
        out.append("<script type=\"text/javascript\">\n");
        out.append(pd.as_str());
        out.append("\nPlotly.newPlot(\"");
        out.append(plot_div_id);
        out.append("\", data, layout);\n");
        out.append("</script>\n");
        assert(out@ =~= inline_html_wire(self.plot_data_spec(), plot_div_id@));
        out
    }

    /// The embeddable HTML fragment of this plot, for insertion into a page
    /// that already provides the renderer script. The container identifier
    /// is the caller's when one is supplied — the caller keeps it unique —
    /// and a fresh 20-character alphanumeric identifier otherwise.
    pub fn to_inline_html(&self, plot_div_id: Option<&str>) -> (r: String)
        ensures
            match plot_div_id {
                Some(id) => r@ == inline_html_wire(self.plot_data_spec(), id@),
                None => exists|id: Seq<char>|
                    id.len() == 20 && alnum_seq(id) && r@ == inline_html_wire(
                        self.plot_data_spec(),
                        id,
                    ),
            },
    {
        match plot_div_id {
            Some(id) => self.render_inline(id),
            None => {
                let rand_id = random_alphanumeric(20);
                self.render_inline(rand_id.as_str())
            },
        }
    }
}

/// Two renderings of the plain JSON document of one unmodified plot are
/// byte-identical: the document is a pure function of the plot's state.
pub proof fn lemma_json_document_deterministic(p: &Plot, r1: Seq<char>, r2: Seq<char>)
    requires
        r1 == p.json_spec(),
        r2 == p.json_spec(),
    ensures
        r1 == r2,
{
}

/// Adding a trace appends its fragment at the end of the `data` array: the
/// comma-joined fragment list of the extended trace sequence is the previous
/// list followed by the new fragment (with no comma when it is the first).
pub proof fn lemma_trace_order_preserved(ts: Seq<Seq<char>>, t: Seq<char>)
    ensures
        arr_inner(ts.push(t)) == if ts.len() == 0 {
            t
        } else {
            arr_inner(ts) + seq![','] + t
        },
{
    crate::wire::lemma_arr_inner_push(ts, t);
}

/// A plot with no layout serializes its layout as the empty object `{}`,
/// both in the script body and in the plain JSON document.
pub proof fn lemma_empty_layout_wire(p: &Plot)
    requires
        p.layout_spec() is None,
    ensures
        p.layout_wire() == "{}"@,
        p.json_spec() == json_doc_wire(p.trace_wires(), "{}"@),
        p.plot_data_spec() == plot_data_wire(p.trace_wires(), "{}"@),
{
    reveal_strlit("{}");
    assert(obj_wire(Seq::<(Seq<char>, Seq<char>)>::empty()) =~= "{}"@);
}

} // verus!
