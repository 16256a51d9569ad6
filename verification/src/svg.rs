//! Pages that draw with vector graphics.
//!
//! A page is fixed text with the geometry of the drawing and the settings
//! written into it. Every function here says which text it writes: the
//! parts in their order, each setting in the form in which it appears.

use vstd::prelude::*;
use vstd::string::*;
use crate::markup::{
    bool_str, bool_text, checked_str, checked_text, command_div, command_div_text, congruence_js,
    congruence_js_text, option_text, ranges_json, ranges_json_text, select_html, select_text,
    serde_json_string_array, steps_string, steps_text, string_array_text,
};
use crate::options::EmbedOptions;
use crate::params::{without_points_text, Params, ParamsText};
use crate::strings::{decimal_string, decimal_text, texts};
use crate::visibility::WhenToShow;
use crate::svg_parts::{
    CIRCLES_HANDLE, CIRCLES_HIDDEN, CONTOUR_HANDLE, CONTOUR_SHOWN, EMBED_01, EMBED_02, EMBED_03,
    EMBED_04, EMBED_05, EMBED_06, EMBED_07, EMBED_08, EMBED_09, EMBED_10, EMBED_11, EMBED_12,
    EMBED_13, EMBED_14, EMBED_15, EMBED_16, EMBED_17, EMBED_18, EMBED_19, EMBED_20, FRAGMENT_01,
    FRAGMENT_02, FULL_01, FULL_02, FULL_03, FULL_04, FULL_05, FULL_06, FULL_07, FULL_08, FULL_09,
    FULL_10, FULL_11, FULL_12, FULL_13, FULL_14, FULL_15, FULL_16, FULL_17, FULL_18, FULL_19,
    FULL_20, FULL_21, FULL_22, FULL_23, FULL_24, FULL_25, FULL_26, MARKUP_01, MARKUP_02,
    MARKUP_03, MARKUP_04, MARKUP_05, MARKUP_06, MARKUP_07, MARKUP_08, MARKUP_09, MARKUP_10,
    MARKUP_11, MARKUP_12, PAGE_01, PAGE_02,
};

verus! {

/// The name of the third option of a selection box.
pub const OPTION_LABEL: &'static str = "Modulo";

/// The name of the list of residues of a selection box.
pub const LIST_TITLE: &'static str = "remainders";

/// The selection box for `w` as this renderer writes it.
pub open spec fn selection_text(id: Seq<char>, label: Seq<char>, w: WhenToShow) -> Seq<char> {
    select_text(id, label, w, OPTION_LABEL@, LIST_TITLE@)
}

/// Writes the selection box for `w`, with the identifier `id` and under the
/// label `label`.
pub fn when_to_show_select_html(id: &str, label: &str, w: &WhenToShow) -> (out: String)
    ensures
        out@ == selection_text(id@, label@, *w),
{
    select_html(id, label, w, OPTION_LABEL, LIST_TITLE)
}

/// The text of `svg_markup`.
pub open spec fn svg_markup_text(p: ParamsText) -> Seq<char> {
    MARKUP_01@
        + p.vb_x
        + MARKUP_02@
        + p.vb_y
        + MARKUP_03@
        + p.vb_size
        + MARKUP_04@
        + p.vb_size
        + MARKUP_05@
        + p.glow_std
        + MARKUP_06@
        + p.svg_path
        + MARKUP_07@
        + p.stroke
        + MARKUP_08@
        + p.stroke
        + MARKUP_09@
        + p.spark_r
        + MARKUP_10@
        + p.spark_core
        + MARKUP_11@
        + p.font_size
        + MARKUP_12@
}

/// Writes the drawing area: the outline, the group of circles, the trace,
/// the dot with its spark, and the label that counts the terms.
pub fn svg_markup(p: &Params) -> (out: String)
    ensures
        out@ == svg_markup_text(p@),
{
    let mut out = String::from_str(MARKUP_01);
    out.append(p.vb_x.as_str());
    out.append(MARKUP_02);
    out.append(p.vb_y.as_str());
    out.append(MARKUP_03);
    out.append(p.vb_size.as_str());
    out.append(MARKUP_04);
    out.append(p.vb_size.as_str());
    out.append(MARKUP_05);
    out.append(p.glow_std.as_str());
    out.append(MARKUP_06);
    out.append(p.svg_path.as_str());
    out.append(MARKUP_07);
    out.append(p.stroke.as_str());
    out.append(MARKUP_08);
    out.append(p.stroke.as_str());
    out.append(MARKUP_09);
    out.append(p.spark_r.as_str());
    out.append(MARKUP_10);
    out.append(p.spark_core.as_str());
    out.append(MARKUP_11);
    out.append(p.font_size.as_str());
    out.append(MARKUP_12);
    out
}

pub const UPDATE_TRACE_HEAD: &'static str = "  traceVisible = ";

pub const UPDATE_TRACE_TAIL: &'static str = ");";

pub const UPDATE_CONTOUR_HEAD: &'static str = "  contourPath.style.display = ";

pub const UPDATE_CIRCLES_HEAD: &'static str = "  fourierGroup.style.display = ";

pub const UPDATE_DISPLAY_TAIL: &'static str = ") ? \"\" : \"none\";";

/// The statement that sets up the trace: visible unless it is never shown.
pub open spec fn trace_visible_text(w: WhenToShow) -> Seq<char> {
    if w is Never {
        "let traceVisible = false;"@
    } else {
        "let traceVisible = true;"@
    }
}

fn trace_visible_str(w: &WhenToShow) -> (s: &'static str)
    ensures
        s@ == trace_visible_text(*w),
{
    match w {
        WhenToShow::Never => "let traceVisible = false;",
        _ => "let traceVisible = true;",
    }
}

/// The statement that sets up the outline: shown at once where it is always
/// shown, left hidden where it never is, and given a handle where the
/// script decides loop by loop.
pub open spec fn contour_init_text(w: WhenToShow) -> Seq<char> {
    match w {
        WhenToShow::Always => CONTOUR_SHOWN@,
        WhenToShow::Never => ""@,
        WhenToShow::Congruence(_) => CONTOUR_HANDLE@,
    }
}

fn contour_init_str(w: &WhenToShow) -> (s: &'static str)
    ensures
        s@ == contour_init_text(*w),
{
    match w {
        WhenToShow::Always => CONTOUR_SHOWN,
        WhenToShow::Never => "",
        WhenToShow::Congruence(_) => CONTOUR_HANDLE,
    }
}

/// The statement that sets up the circles: left shown where they always
/// are, hidden at once where they never are, and given a handle where the
/// script decides loop by loop.
pub open spec fn circles_init_text(w: WhenToShow) -> Seq<char> {
    match w {
        WhenToShow::Always => ""@,
        WhenToShow::Never => CIRCLES_HIDDEN@,
        WhenToShow::Congruence(_) => CIRCLES_HANDLE@,
    }
}

fn circles_init_str(w: &WhenToShow) -> (s: &'static str)
    ensures
        s@ == circles_init_text(*w),
{
    match w {
        WhenToShow::Always => "",
        WhenToShow::Never => CIRCLES_HIDDEN,
        WhenToShow::Congruence(_) => CIRCLES_HANDLE,
    }
}

/// The text of `inner_content_full`.
pub open spec fn full_content_text(
    p: ParamsText,
    opts: EmbedOptions,
    command: Option<Seq<char>>,
) -> Seq<char> {
    command_div_text(command)
        + FULL_01@
        + svg_markup_text(p)
        + FULL_02@
        + decimal_text(opts.max_harmonics as nat)
        + FULL_03@
        + steps_text(opts.steps.ranges@)
        + FULL_04@
        + selection_text("selContour"@, "Contour"@, opts.show_contour)
        + FULL_05@
        + checked_text(opts.show_point)
        + FULL_06@
        + selection_text("selTrace"@, "Trace"@, opts.show_trace)
        + FULL_07@
        + checked_text(opts.show_nh)
        + FULL_08@
        + selection_text("selCircles"@, "Circles"@, opts.show_fourier_circles)
        + FULL_09@
        + opts.opacity@
        + FULL_10@
        + opts.opacity@
        + FULL_11@
        + opts.trace_length@
        + FULL_12@
        + opts.trace_length@
        + FULL_13@
        + opts.trace_width@
        + FULL_14@
        + opts.trace_width@
        + FULL_15@
        + opts.contour_width@
        + FULL_16@
        + opts.contour_width@
        + FULL_17@
        + p.points_array
        + FULL_18@
        + p.fourier_json
        + FULL_19@
        + string_array_text(texts(opts.trace_colors@))
        + FULL_20@
        + p.vb_size
        + FULL_21@
        + opts.opacity@
        + FULL_22@
        + opts.trace_width@
        + FULL_23@
        + opts.contour_width@
        + FULL_24@
        + p.vb_size
        + FULL_25@
        + decimal_text(opts.max_harmonics as nat)
        + FULL_26@
}

/// Writes what stands inside a page of its own: the line that shows the
/// command, the drawing area, the controls, and the script that animates
/// the drawing and recomputes the schedule when a reader edits it.
pub fn inner_content_full(p: &Params, opts: &EmbedOptions, command: Option<&str>) -> (out: String)
    ensures
        out@ == full_content_text(p@, *opts, option_text(command)),
{
    let svg = svg_markup(p);
    let command_line = command_div(command);
    let max_harmonics = decimal_string(opts.max_harmonics);
    let steps = steps_string(&opts.steps.ranges);
    let contour_select = when_to_show_select_html("selContour", "Contour", &opts.show_contour);
    let trace_select = when_to_show_select_html("selTrace", "Trace", &opts.show_trace);
    let circles_select =
        when_to_show_select_html("selCircles", "Circles", &opts.show_fourier_circles);
    let trace_colors = serde_json_string_array(&opts.trace_colors);
    let mut out = String::from_str(command_line.as_str());
    out.append(FULL_01);
    out.append(svg.as_str());
    out.append(FULL_02);
    out.append(max_harmonics.as_str());
    out.append(FULL_03);
    out.append(steps.as_str());
    out.append(FULL_04);
    out.append(contour_select.as_str());
    out.append(FULL_05);
    out.append(checked_str(opts.show_point));
    out.append(FULL_06);
    out.append(trace_select.as_str());
    out.append(FULL_07);
    out.append(checked_str(opts.show_nh));
    out.append(FULL_08);
    out.append(circles_select.as_str());
    out.append(FULL_09);
    out.append(opts.opacity.as_str());
    out.append(FULL_10);
    out.append(opts.opacity.as_str());
    out.append(FULL_11);
    out.append(opts.trace_length.as_str());
    out.append(FULL_12);
    out.append(opts.trace_length.as_str());
    out.append(FULL_13);
    out.append(opts.trace_width.as_str());
    out.append(FULL_14);
    out.append(opts.trace_width.as_str());
    out.append(FULL_15);
    out.append(opts.contour_width.as_str());
    out.append(FULL_16);
    out.append(opts.contour_width.as_str());
    out.append(FULL_17);
    out.append(p.points_array.as_str());
    out.append(FULL_18);
    out.append(p.fourier_json.as_str());
    out.append(FULL_19);
    out.append(trace_colors.as_str());
    out.append(FULL_20);
    out.append(p.vb_size.as_str());
    out.append(FULL_21);
    out.append(opts.opacity.as_str());
    out.append(FULL_22);
    out.append(opts.trace_width.as_str());
    out.append(FULL_23);
    out.append(opts.contour_width.as_str());
    out.append(FULL_24);
    out.append(p.vb_size.as_str());
    out.append(FULL_25);
    out.append(max_harmonics.as_str());
    out.append(FULL_26);
    out
}

/// The text of `inner_content_embed`.
pub open spec fn embed_content_text(p: ParamsText, opts: EmbedOptions) -> Seq<char> {
    svg_markup_text(p)
        + EMBED_01@
        + p.points_array
        + EMBED_02@
        + p.fourier_json
        + EMBED_03@
        + string_array_text(texts(opts.trace_colors@))
        + EMBED_04@
        + p.vb_size
        + EMBED_05@
        + trace_visible_text(opts.show_trace)
        + EMBED_06@
        + opts.trace_length@
        + EMBED_07@
        + opts.opacity@
        + EMBED_08@
        + opts.trace_width@
        + EMBED_09@
        + opts.contour_width@
        + EMBED_10@
        + bool_text(opts.show_nh)
        + EMBED_11@
        + contour_init_text(opts.show_contour)
        + EMBED_12@
        + circles_init_text(opts.show_fourier_circles)
        + EMBED_13@
        + p.vb_size
        + EMBED_14@
        + bool_text(!opts.show_point)
        + EMBED_15@
        + decimal_text(opts.max_harmonics as nat)
        + EMBED_16@
        + ranges_json_text(opts.steps.ranges@)
        + EMBED_17@
        + congruence_js_text(opts.show_trace, UPDATE_TRACE_HEAD@, UPDATE_TRACE_TAIL@)
        + EMBED_18@
        + congruence_js_text(opts.show_contour, UPDATE_CONTOUR_HEAD@, UPDATE_DISPLAY_TAIL@)
        + EMBED_19@
        + congruence_js_text(opts.show_fourier_circles, UPDATE_CIRCLES_HEAD@, UPDATE_DISPLAY_TAIL@)
        + EMBED_20@
}

/// Writes what stands inside a fragment for another page: the drawing
/// area and the script that animates it, with the settings fixed.
pub fn inner_content_embed(p: &Params, opts: &EmbedOptions) -> (out: String)
    ensures
        out@ == embed_content_text(p@, *opts),
{
    let svg = svg_markup(p);
    let max_harmonics = decimal_string(opts.max_harmonics);
    let ranges = ranges_json(&opts.steps.ranges);
    let trace_colors = serde_json_string_array(&opts.trace_colors);
    let update_trace = congruence_js(&opts.show_trace, UPDATE_TRACE_HEAD, UPDATE_TRACE_TAIL);
    let update_contour =
        congruence_js(&opts.show_contour, UPDATE_CONTOUR_HEAD, UPDATE_DISPLAY_TAIL);
    let update_circles =
        congruence_js(&opts.show_fourier_circles, UPDATE_CIRCLES_HEAD, UPDATE_DISPLAY_TAIL);
    let mut out = String::from_str(svg.as_str());
    out.append(EMBED_01);
    out.append(p.points_array.as_str());
    out.append(EMBED_02);
    out.append(p.fourier_json.as_str());
    out.append(EMBED_03);
    out.append(trace_colors.as_str());
    out.append(EMBED_04);
    out.append(p.vb_size.as_str());
    out.append(EMBED_05);
    out.append(trace_visible_str(&opts.show_trace));
    out.append(EMBED_06);
    out.append(opts.trace_length.as_str());
    out.append(EMBED_07);
    out.append(opts.opacity.as_str());
    out.append(EMBED_08);
    out.append(opts.trace_width.as_str());
    out.append(EMBED_09);
    out.append(opts.contour_width.as_str());
    out.append(EMBED_10);
    out.append(bool_str(opts.show_nh));
    out.append(EMBED_11);
    out.append(contour_init_str(&opts.show_contour));
    out.append(EMBED_12);
    out.append(circles_init_str(&opts.show_fourier_circles));
    out.append(EMBED_13);
    out.append(p.vb_size.as_str());
    out.append(EMBED_14);
    out.append(bool_str(!opts.show_point));
    out.append(EMBED_15);
    out.append(max_harmonics.as_str());
    out.append(EMBED_16);
    out.append(ranges.as_str());
    out.append(EMBED_17);
    out.append(update_trace.as_str());
    out.append(EMBED_18);
    out.append(update_contour.as_str());
    out.append(EMBED_19);
    out.append(update_circles.as_str());
    out.append(EMBED_20);
    out
}

/// The text of `html_of_params`.
pub open spec fn page_text(
    p: ParamsText,
    opts: EmbedOptions,
    command: Option<Seq<char>>,
) -> Seq<char> {
    PAGE_01@
        + full_content_text(p, opts, command)
        + PAGE_02@
}

/// Writes a page of its own for the drawing with the geometry `p`.
pub fn html_of_params(p: &Params, opts: &EmbedOptions, command: Option<&str>) -> (out: String)
    ensures
        out@ == page_text(p@, *opts, option_text(command)),
{
    let inner = inner_content_full(p, opts, command);
    let mut out = String::from_str(PAGE_01);
    out.append(inner.as_str());
    out.append(PAGE_02);
    out
}

/// The text of `embed_html_of_params`.
pub open spec fn fragment_text(p: ParamsText, opts: EmbedOptions) -> Seq<char> {
    FRAGMENT_01@
        + embed_content_text(p, opts)
        + FRAGMENT_02@
}

/// Writes a fragment for another page for the drawing with the geometry `p`.
pub fn embed_html_of_params(p: &Params, opts: &EmbedOptions) -> (out: String)
    ensures
        out@ == fragment_text(p@, *opts),
{
    let inner = inner_content_embed(p, opts);
    let mut out = String::from_str(FRAGMENT_01);
    out.append(inner.as_str());
    out.append(FRAGMENT_02);
    out
}

/// The page for the outline `svg_path` alone: no points and no terms.
pub fn html_of_svg_path(svg_path: &str, opts: &EmbedOptions, command: Option<&str>) -> (out: String)
    ensures
        out@ == page_text(without_points_text(svg_path@), *opts, option_text(command)),
{
    let p = Params::without_points(svg_path);
    html_of_params(&p, opts, command)
}

} // verus!
