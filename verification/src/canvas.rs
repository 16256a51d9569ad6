//! Pages that draw on a canvas.
//!
//! A page is fixed text with the geometry of the drawing and the settings
//! written into it. Every function here says which text it writes: the
//! parts in their order, each setting in the form in which it appears.

use vstd::prelude::*;
use vstd::string::*;
use crate::markup::{
    bool_str, bool_text, checked_str, checked_text, command_div, command_div_text, congruence_js,
    congruence_js_text, option_text, ranges_json, ranges_json_text, select_html, select_text,
    serde_json_string_array, steps_string, steps_text, string_array_text,
};
use crate::options::EmbedOptions;
use crate::params::{without_points_text, Params, ParamsText};
use crate::strings::{decimal_string, decimal_text, texts};
use crate::visibility::WhenToShow;
use crate::canvas_parts::{
    CANVAS_MARKUP, EMBED_01, EMBED_02, EMBED_03, EMBED_04, EMBED_05, EMBED_06, EMBED_07, EMBED_08,
    EMBED_09, EMBED_10, EMBED_11, EMBED_12, EMBED_13, EMBED_14, EMBED_15, EMBED_16, EMBED_17,
    EMBED_18, EMBED_19, EMBED_20, EMBED_21, EMBED_22, EMBED_23, FRAGMENT_01, FRAGMENT_02, FULL_01,
    FULL_02, FULL_03, FULL_04, FULL_05, FULL_06, FULL_07, FULL_08, FULL_09, FULL_10, FULL_11,
    FULL_12, FULL_13, FULL_14, FULL_15, FULL_16, FULL_17, FULL_18, FULL_19, FULL_20, FULL_21,
    FULL_22, FULL_23, FULL_24, FULL_25, FULL_26, FULL_27, FULL_28, FULL_29, FULL_30, FULL_31,
    PAGE_01, PAGE_02,
};

verus! {

/// The name of the third option of a selection box.
pub const OPTION_LABEL: &'static str = "Congruence";

/// The name of the list of residues of a selection box.
pub const LIST_TITLE: &'static str = "congruents";

/// The selection box for `w` as this renderer writes it.
pub open spec fn selection_text(id: Seq<char>, label: Seq<char>, w: WhenToShow) -> Seq<char> {
    select_text(id, label, w, OPTION_LABEL@, LIST_TITLE@)
}

/// Writes the selection box for `w`, with the identifier `id` and under the
/// label `label`.
pub fn when_to_show_select_html(id: &str, label: &str, w: &WhenToShow) -> (out: String)
    ensures
        out@ == selection_text(id@, label@, *w),
{
    select_html(id, label, w, OPTION_LABEL, LIST_TITLE)
}

/// The text of `canvas_markup`.
pub open spec fn canvas_markup_text() -> Seq<char> {
    CANVAS_MARKUP@
}

/// Writes the drawing area: a canvas of a thousand by a thousand points,
/// shown at half that size.
pub fn canvas_markup() -> (out: String)
    ensures
        out@ == canvas_markup_text(),
{
    String::from_str(CANVAS_MARKUP)
}

pub const UPDATE_TRACE_HEAD: &'static str = "  traceVisible = ";

pub const UPDATE_TRACE_TAIL: &'static str = ");\n  if (!traceVisible) traceHistory = [];";

pub const UPDATE_CONTOUR_HEAD: &'static str = "  contourVisible = ";

pub const UPDATE_CIRCLES_HEAD: &'static str = "  fourierVisible = ";

pub const UPDATE_TAIL: &'static str = ");";

fn is_never(w: &WhenToShow) -> (b: bool)
    ensures
        b == (*w is Never),
{
    match w {
        WhenToShow::Never => true,
        _ => false,
    }
}

/// The text of `inner_content_full`.
pub open spec fn full_content_text(
    p: ParamsText,
    opts: EmbedOptions,
    command: Option<Seq<char>>,
) -> Seq<char> {
    command_div_text(command)
        + FULL_01@
        + canvas_markup_text()
        + FULL_02@
        + decimal_text(opts.max_harmonics as nat)
        + FULL_03@
        + steps_text(opts.steps.ranges@)
        + FULL_04@
        + selection_text("selContour"@, "Contour"@, opts.show_contour)
        + FULL_05@
        + checked_text(opts.show_point)
        + FULL_06@
        + selection_text("selTrace"@, "Trace"@, opts.show_trace)
        + FULL_07@
        + checked_text(opts.show_nh)
        + FULL_08@
        + selection_text("selCircles"@, "Circles"@, opts.show_fourier_circles)
        + FULL_09@
        + opts.opacity@
        + FULL_10@
        + opts.opacity@
        + FULL_11@
        + opts.trace_length@
        + FULL_12@
        + opts.trace_length@
        + FULL_13@
        + opts.trace_width@
        + FULL_14@
        + opts.trace_width@
        + FULL_15@
        + opts.contour_width@
        + FULL_16@
        + opts.contour_width@
        + FULL_17@
        + p.vb_x
        + FULL_18@
        + p.vb_y
        + FULL_19@
        + p.vb_size
        + FULL_20@
        + p.svg_path
        + FULL_21@
        + p.points_array
        + FULL_22@
        + p.fourier_json
        + FULL_23@
        + string_array_text(texts(opts.trace_colors@))
        + FULL_24@
        + p.dot_r
        + FULL_25@
        + bool_text(opts.show_point)
        + FULL_26@
        + bool_text(opts.show_nh)
        + FULL_27@
        + opts.opacity@
        + FULL_28@
        + opts.trace_width@
        + FULL_29@
        + opts.contour_width@
        + FULL_30@
        + decimal_text(opts.max_harmonics as nat)
        + FULL_31@
}

/// Writes what stands inside a page of its own: the line that shows the
/// command, the drawing area, the controls, and the script that animates
/// the drawing and recomputes the schedule when a reader edits it.
pub fn inner_content_full(p: &Params, opts: &EmbedOptions, command: Option<&str>) -> (out: String)
    ensures
        out@ == full_content_text(p@, *opts, option_text(command)),
{
    let canvas = canvas_markup();
    let command_line = command_div(command);
    let max_harmonics = decimal_string(opts.max_harmonics);
    let steps = steps_string(&opts.steps.ranges);
    let contour_select = when_to_show_select_html("selContour", "Contour", &opts.show_contour);
    let trace_select = when_to_show_select_html("selTrace", "Trace", &opts.show_trace);
    let circles_select =
        when_to_show_select_html("selCircles", "Circles", &opts.show_fourier_circles);
    let trace_colors = serde_json_string_array(&opts.trace_colors);
    let mut out = String::from_str(command_line.as_str());
    out.append(FULL_01);
    out.append(canvas.as_str());
    out.append(FULL_02);
    out.append(max_harmonics.as_str());
    out.append(FULL_03);
    out.append(steps.as_str());
    out.append(FULL_04);
    out.append(contour_select.as_str());
    out.append(FULL_05);
    out.append(checked_str(opts.show_point));
    out.append(FULL_06);
    out.append(trace_select.as_str());
    out.append(FULL_07);
    out.append(checked_str(opts.show_nh));
    out.append(FULL_08);
    out.append(circles_select.as_str());
    out.append(FULL_09);
    out.append(opts.opacity.as_str());
    out.append(FULL_10);
    out.append(opts.opacity.as_str());
    out.append(FULL_11);
    out.append(opts.trace_length.as_str());
    out.append(FULL_12);
    out.append(opts.trace_length.as_str());
    out.append(FULL_13);
    out.append(opts.trace_width.as_str());
    out.append(FULL_14);
    out.append(opts.trace_width.as_str());
    out.append(FULL_15);
    out.append(opts.contour_width.as_str());
    out.append(FULL_16);
    out.append(opts.contour_width.as_str());
    out.append(FULL_17);
    out.append(p.vb_x.as_str());
    out.append(FULL_18);
    out.append(p.vb_y.as_str());
    out.append(FULL_19);
    out.append(p.vb_size.as_str());
    out.append(FULL_20);
    out.append(p.svg_path.as_str());
    out.append(FULL_21);
    out.append(p.points_array.as_str());
    out.append(FULL_22);
    out.append(p.fourier_json.as_str());
    out.append(FULL_23);
    out.append(trace_colors.as_str());
    out.append(FULL_24);
    out.append(p.dot_r.as_str());
    out.append(FULL_25);
    out.append(bool_str(opts.show_point));
    out.append(FULL_26);
    out.append(bool_str(opts.show_nh));
    out.append(FULL_27);
    out.append(opts.opacity.as_str());
    out.append(FULL_28);
    out.append(opts.trace_width.as_str());
    out.append(FULL_29);
    out.append(opts.contour_width.as_str());
    out.append(FULL_30);
    out.append(max_harmonics.as_str());
    out.append(FULL_31);
    out
}

/// The text of `inner_content_embed`.
pub open spec fn embed_content_text(p: ParamsText, opts: EmbedOptions) -> Seq<char> {
    canvas_markup_text()
        + EMBED_01@
        + p.vb_x
        + EMBED_02@
        + p.vb_y
        + EMBED_03@
        + p.vb_size
        + EMBED_04@
        + p.svg_path
        + EMBED_05@
        + p.points_array
        + EMBED_06@
        + p.fourier_json
        + EMBED_07@
        + string_array_text(texts(opts.trace_colors@))
        + EMBED_08@
        + p.dot_r
        + EMBED_09@
        + bool_text(!(opts.show_contour is Never))
        + EMBED_10@
        + bool_text(!(opts.show_trace is Never))
        + EMBED_11@
        + bool_text(!(opts.show_fourier_circles is Never))
        + EMBED_12@
        + bool_text(!opts.show_point)
        + EMBED_13@
        + bool_text(opts.show_nh)
        + EMBED_14@
        + opts.opacity@
        + EMBED_15@
        + opts.trace_width@
        + EMBED_16@
        + opts.contour_width@
        + EMBED_17@
        + opts.trace_length@
        + EMBED_18@
        + decimal_text(opts.max_harmonics as nat)
        + EMBED_19@
        + ranges_json_text(opts.steps.ranges@)
        + EMBED_20@
        + congruence_js_text(opts.show_trace, UPDATE_TRACE_HEAD@, UPDATE_TRACE_TAIL@)
        + EMBED_21@
        + congruence_js_text(opts.show_contour, UPDATE_CONTOUR_HEAD@, UPDATE_TAIL@)
        + EMBED_22@
        + congruence_js_text(opts.show_fourier_circles, UPDATE_CIRCLES_HEAD@, UPDATE_TAIL@)
        + EMBED_23@
}

/// Writes what stands inside a fragment for another page: the drawing
/// area and the script that animates it, with the settings fixed.
pub fn inner_content_embed(p: &Params, opts: &EmbedOptions) -> (out: String)
    ensures
        out@ == embed_content_text(p@, *opts),
{
    let canvas = canvas_markup();
    let max_harmonics = decimal_string(opts.max_harmonics);
    let ranges = ranges_json(&opts.steps.ranges);
    let trace_colors = serde_json_string_array(&opts.trace_colors);
    let update_trace = congruence_js(&opts.show_trace, UPDATE_TRACE_HEAD, UPDATE_TRACE_TAIL);
    let update_contour = congruence_js(&opts.show_contour, UPDATE_CONTOUR_HEAD, UPDATE_TAIL);
    let update_circles =
        congruence_js(&opts.show_fourier_circles, UPDATE_CIRCLES_HEAD, UPDATE_TAIL);
    let mut out = String::from_str(canvas.as_str());
    out.append(EMBED_01);
    out.append(p.vb_x.as_str());
    out.append(EMBED_02);
    out.append(p.vb_y.as_str());
    out.append(EMBED_03);
    out.append(p.vb_size.as_str());
    out.append(EMBED_04);
    out.append(p.svg_path.as_str());
    out.append(EMBED_05);
    out.append(p.points_array.as_str());
    out.append(EMBED_06);
    out.append(p.fourier_json.as_str());
    out.append(EMBED_07);
    out.append(trace_colors.as_str());
    out.append(EMBED_08);
    out.append(p.dot_r.as_str());
    out.append(EMBED_09);
    out.append(bool_str(!is_never(&opts.show_contour)));
    out.append(EMBED_10);
    out.append(bool_str(!is_never(&opts.show_trace)));
    out.append(EMBED_11);
    out.append(bool_str(!is_never(&opts.show_fourier_circles)));
    out.append(EMBED_12);
    out.append(bool_str(!opts.show_point));
    out.append(EMBED_13);
    out.append(bool_str(opts.show_nh));
    out.append(EMBED_14);
    out.append(opts.opacity.as_str());
    out.append(EMBED_15);
    out.append(opts.trace_width.as_str());
    out.append(EMBED_16);
    out.append(opts.contour_width.as_str());
    out.append(EMBED_17);
    out.append(opts.trace_length.as_str());
    out.append(EMBED_18);
    out.append(max_harmonics.as_str());
    out.append(EMBED_19);
    out.append(ranges.as_str());
    out.append(EMBED_20);
    out.append(update_trace.as_str());
    out.append(EMBED_21);
    out.append(update_contour.as_str());
    out.append(EMBED_22);
    out.append(update_circles.as_str());
    out.append(EMBED_23);
    out
}

/// The text of `html_of_params`.
pub open spec fn page_text(
    p: ParamsText,
    opts: EmbedOptions,
    command: Option<Seq<char>>,
) -> Seq<char> {
    PAGE_01@
        + full_content_text(p, opts, command)
        + PAGE_02@
}

/// Writes a page of its own for the drawing with the geometry `p`.
pub fn html_of_params(p: &Params, opts: &EmbedOptions, command: Option<&str>) -> (out: String)
    ensures
        out@ == page_text(p@, *opts, option_text(command)),
{
    let inner = inner_content_full(p, opts, command);
    let mut out = String::from_str(PAGE_01);
    out.append(inner.as_str());
    out.append(PAGE_02);
    out
}

/// The text of `embed_html_of_params`.
pub open spec fn fragment_text(p: ParamsText, opts: EmbedOptions) -> Seq<char> {
    FRAGMENT_01@
        + embed_content_text(p, opts)
        + FRAGMENT_02@
}

/// Writes a fragment for another page for the drawing with the geometry `p`.
pub fn embed_html_of_params(p: &Params, opts: &EmbedOptions) -> (out: String)
    ensures
        out@ == fragment_text(p@, *opts),
{
    let inner = inner_content_embed(p, opts);
    let mut out = String::from_str(FRAGMENT_01);
    out.append(inner.as_str());
    out.append(FRAGMENT_02);
    out
}

/// The page for the outline `svg_path` alone: no points and no terms.
pub fn html_of_svg_path(svg_path: &str, opts: &EmbedOptions, command: Option<&str>) -> (out: String)
    ensures
        out@ == page_text(without_points_text(svg_path@), *opts, option_text(command)),
{
    let p = Params::without_points(svg_path);
    html_of_params(&p, opts, command)
}

} // verus!
