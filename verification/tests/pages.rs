use circles_sketch::canvas;
use circles_sketch::markup::{
    command_div, format_js_array, html_escape, ranges_json, select_html, serde_json_string_array,
    split_at_blanks, steps_string, when_to_show_every_congruents, when_to_show_every_modulo,
    when_to_show_every_remainders, when_to_show_select_val,
};
use circles_sketch::options::EmbedOptions;
use circles_sketch::params::Params;
use circles_sketch::schedule::HarmonicRange;
use circles_sketch::svg::{
    embed_html_of_params, html_of_params, html_of_svg_path, inner_content_embed, svg_markup,
    when_to_show_select_html,
};
use circles_sketch::visibility::{Congruence, WhenToShow};

fn range(from: usize, step: usize, to: usize, speed: &str) -> HarmonicRange {
    HarmonicRange { from, step, to, speed: speed.to_string() }
}

#[test]
fn test_html_of_svg_path() {
    let path = "M 0 0 L 1 0 L 1 1 L 0 0";
    let opts = EmbedOptions::default();
    let html = html_of_svg_path(path, &opts, None);
    assert!(html.contains("<html>"));
    assert!(html.contains("<svg"));
    assert!(html.contains(&format!("d=\"{}\"", path)));
    assert!(html.contains("</svg>"));
    assert!(html.contains("</html>"));
}

#[test]
fn page_starts_and_ends_as_a_document() {
    let opts = EmbedOptions::default();
    let html = html_of_svg_path("M 0 0 L 1 0", &opts, None);
    assert!(html.starts_with("<html>\n<head><title id=\"pageTitle\">Harmonics: 2</title></head>\n<body "));
    assert!(html.ends_with("\n</body>\n</html>"));
    assert!(html.contains("viewBox=\"-10 -10 120 120\""));
    assert!(html.contains("const points = [];"));
    assert!(html.contains("const fourier = null;"));
    assert!(html.contains("const maxHarmonics = 100;"));
    assert!(html.contains("value=\"1 1 100 1\""));
}

#[test]
fn page_without_points_uses_the_measured_defaults() {
    // The view box of a drawing without points, measured as for one with points.
    let (min_x, min_y, max_x, max_y) = (0.0_f64, 0.0_f64, 100.0_f64, 100.0_f64);
    let w = max_x - min_x;
    let h = max_y - min_y;
    let size = if w > h { w } else { h };
    let padding = size * 0.1;
    let vb_x = min_x - padding - (size - w) / 2.0;
    let vb_y = min_y - padding - (size - h) / 2.0;
    let vb_size = size + padding * 2.0;
    let dot_r = vb_size * 0.7 / 100.0;
    let p = Params::without_points("M 0 0");
    assert_eq!(p.svg_path, "M 0 0");
    assert_eq!(p.points_array, "[]");
    assert_eq!(p.fourier_json, "null");
    assert_eq!(p.vb_x, format!("{}", vb_x));
    assert_eq!(p.vb_y, format!("{}", vb_y));
    assert_eq!(p.vb_size, format!("{}", vb_size));
    assert_eq!(p.stroke, format!("{}", vb_size / 100.0));
    assert_eq!(p.dot_r, format!("{}", dot_r));
    assert_eq!(p.glow_std, format!("{}", vb_size * 0.5 / 100.0));
    assert_eq!(p.spark_r, format!("{}", dot_r * 1.5));
    assert_eq!(p.spark_core, format!("{}", dot_r * 0.25));
    assert_eq!(p.font_size, format!("{}", vb_size * 4.0 / 100.0));
}

#[test]
fn command_line_is_shown_escaped() {
    let opts = EmbedOptions::default();
    let html = html_of_svg_path("M 0 0", &opts, Some("sketch text \"a<b\" --font F"));
    assert!(html.contains(
        "Generated by:<br/><code>sketch text &quot;a&lt;b&quot;<br/>  --font F</code></div>"
    ));
    let none = html_of_svg_path("M 0 0", &opts, None);
    assert!(!none.contains("Generated by:"));
    assert!(none.starts_with("<html>"));
}

#[test]
fn command_div_lays_out_options() {
    assert_eq!(command_div(None), "");
    let open = "<div style=\"margin-bottom:10px;font-family:monospace;font-size:1.1em;color:#888;text-align:left\">Generated by:<br/><code>";
    assert_eq!(command_div(Some("prog")), format!("{}prog</code></div>", open));
    assert_eq!(
        command_div(Some("prog points f.yml --config c.yml -o out")),
        format!("{}prog points f.yml<br/>  --config c.yml<br/>  -o out</code></div>", open)
    );
    // An option in front of every argument stays on the first line.
    assert_eq!(command_div(Some("-v prog -x")), format!("{}-v prog<br/>  -x</code></div>", open));
    // Two blanks in a row make an empty piece, which is no option.
    assert_eq!(command_div(Some("a  b")), format!("{}a  b</code></div>", open));
    assert_eq!(command_div(Some("")), format!("{}</code></div>", open));
}

#[test]
fn split_at_blanks_keeps_empty_pieces() {
    assert_eq!(split_at_blanks(""), vec![String::new()]);
    assert_eq!(split_at_blanks("a b"), vec!["a".to_string(), "b".to_string()]);
    assert_eq!(split_at_blanks(" a "), vec!["".to_string(), "a".to_string(), "".to_string()]);
    let expected: Vec<String> = "x  y z".split(' ').map(|s| s.to_string()).collect();
    assert_eq!(split_at_blanks("x  y z"), expected);
}

#[test]
fn html_escape_replaces_the_four_characters() {
    assert_eq!(html_escape("a&b<c>d\"e"), "a&amp;b&lt;c&gt;d&quot;e");
    assert_eq!(html_escape("&amp;"), "&amp;amp;");
    assert_eq!(html_escape(""), "");
    assert_eq!(html_escape("plain 'text'"), "plain 'text'");
}

#[test]
fn arrays_are_written_as_script_literals() {
    assert_eq!(format_js_array(&vec![]), "[]");
    assert_eq!(format_js_array(&vec![0]), "[0]");
    assert_eq!(format_js_array(&vec![0, 1, 25, 1000]), "[0,1,25,1000]");
    assert_eq!(serde_json_string_array(&vec![]), "[]");
    assert_eq!(
        serde_json_string_array(&vec!["red".to_string(), "blue".to_string()]),
        "[\"red\",\"blue\"]"
    );
}

#[test]
fn schedule_is_written_in_both_forms() {
    let ranges = vec![range(1, 1, 10, "1"), range(10, 5, 100, "0.5")];
    assert_eq!(steps_string(&ranges), "1 1 10 1 ; 10 5 100 0.5");
    assert_eq!(ranges_json(&ranges), "[[1,1,10,1],[10,5,100,0.5]]");
    assert_eq!(steps_string(&vec![]), "");
    assert_eq!(ranges_json(&vec![]), "[]");
    assert_eq!(steps_string(&vec![range(2, 3, 4, "-1.5")]), "2 3 4 -1.5");
}

#[test]
fn selection_values() {
    let c = WhenToShow::Congruence(Congruence { modulo: 3, residues: vec![0, 1] });
    assert_eq!(when_to_show_select_val(&WhenToShow::Always), "always");
    assert_eq!(when_to_show_select_val(&WhenToShow::Never), "never");
    assert_eq!(when_to_show_select_val(&c), "every");
    assert_eq!(when_to_show_every_modulo(&WhenToShow::Always), 2);
    assert_eq!(when_to_show_every_modulo(&c), 3);
    assert_eq!(when_to_show_every_congruents(&WhenToShow::Never), vec![0]);
    assert_eq!(when_to_show_every_congruents(&c), vec![0, 1]);
    assert_eq!(when_to_show_every_remainders(&c), vec![0, 1]);
}

#[test]
fn selection_box_for_a_congruence() {
    let c = WhenToShow::Congruence(Congruence { modulo: 3, residues: vec![0, 1] });
    let html = when_to_show_select_html("selTrace", "Trace", &c);
    let expected = "<label>Trace: <select id=\"selTrace\">
    <option value=\"always\">Always</option>
    <option value=\"never\">Never</option>
    <option value=\"every\" selected>Modulo</option>
  </select><input type=\"number\" id=\"selTraceM\" min=\"1\" value=\"3\" style=\"width:45px;\" title=\"modulo\"/>/<input type=\"text\" id=\"selTraceR\" value=\"0,1\" style=\"width:80px;\" title=\"remainders (comma-separated)\" placeholder=\"0,1,...\"/></label>";
    assert_eq!(html, expected);
}

#[test]
fn selection_box_for_always_hides_the_inputs() {
    let html = canvas::when_to_show_select_html("selContour", "Contour", &WhenToShow::Always);
    let expected = "<label>Contour: <select id=\"selContour\">
    <option value=\"always\" selected>Always</option>
    <option value=\"never\">Never</option>
    <option value=\"every\">Congruence</option>
  </select><input type=\"number\" id=\"selContourM\" min=\"1\" value=\"2\" style=\"width:45px;display:none;\" title=\"modulo\"/>/<input type=\"text\" id=\"selContourR\" value=\"0\" style=\"width:80px;display:none;\" title=\"congruents (comma-separated)\" placeholder=\"0,1,...\"/></label>";
    assert_eq!(html, expected);
    let same = select_html("selContour", "Contour", &WhenToShow::Always, "Congruence", "congruents");
    assert_eq!(same, expected);
}

#[test]
fn drawing_area_holds_the_geometry() {
    let p = Params::without_points("M 1 2 L 3 4");
    let svg = svg_markup(&p);
    assert!(svg.starts_with("<svg id=\"svg\" xmlns=\"http://www.w3.org/2000/svg\" viewBox=\"-10 -10 120 120\" width=\"500\" height=\"500\">"));
    assert!(svg.contains("<feGaussianBlur stdDeviation=\"0.6\" result=\"blur\"/>"));
    assert!(svg.contains("<path id=\"contour-path\" d=\"M 1 2 L 3 4\" fill=\"none\" stroke=\"white\" stroke-width=\"1.2\" style=\"display:none\"/>"));
    assert!(svg.contains("r=\"1.26\" fill=\"url(#sparkGrad)\""));
    assert!(svg.contains("<circle cx=\"0\" cy=\"0\" r=\"0.21\" fill=\"white\"/>"));
    assert!(svg.contains("font-size=\"4.8\""));
    assert!(svg.ends_with("</svg>"));
    assert_eq!(
        canvas::canvas_markup(),
        "<canvas id=\"canvas\" width=\"1000\" height=\"1000\" style=\"width:500px;height:500px\"></canvas>"
    );
}

#[test]
fn fragment_follows_the_settings() {
    let mut opts = EmbedOptions::default();
    opts.show_trace = WhenToShow::Congruence(Congruence { modulo: 3, residues: vec![0, 1] });
    opts.show_contour = WhenToShow::Never;
    opts.show_point = false;
    opts.steps.ranges = vec![range(1, 1, 10, "1"), range(10, 5, 100, "2")];
    let p = Params::without_points("M 0 0");
    let html = embed_html_of_params(&p, &opts);
    assert!(html.starts_with("<div style=\"display:flex;flex-direction:column;align-items:center;background:black;color:white\">\n<svg id=\"svg\""));
    assert!(html.ends_with("</script>\n</div>"));
    assert!(html.contains("let traceVisible = true;"));
    assert!(html.contains("  traceVisible = [0,1].includes(loopIndex % 3);"));
    assert!(html.contains("const ranges = [[1,1,10,1],[10,5,100,2]];"));
    assert!(!html.contains("contourPath.style.display"));
    let inner = inner_content_embed(&p, &opts);
    assert!(html.contains(&inner));

    let page = canvas::embed_html_of_params(&p, &opts);
    assert!(page.contains("<canvas id=\"canvas\""));
    assert!(page.contains("  traceVisible = [0,1].includes(loopIndex % 3);\n  if (!traceVisible) traceHistory = [];"));
    assert!(page.contains("const ranges = [[1,1,10,1],[10,5,100,2]];"));
}

#[test]
fn canvas_page_holds_the_outline_and_the_controls() {
    let opts = EmbedOptions::default();
    let html = canvas::html_of_svg_path("M 0 0 L 1 0 L 1 1 L 0 0", &opts, None);
    assert!(html.starts_with("<html>"));
    assert!(html.ends_with("</html>"));
    assert!(html.contains("<canvas id=\"canvas\""));
    assert!(html.contains("new Path2D(\"M 0 0 L 1 0 L 1 1 L 0 0\")"));
    assert!(html.contains("const VB_X = -10;"));
    assert!(html.contains("const dotR = 0.84;"));
    let p = Params::without_points("M 0 0 L 1 0 L 1 1 L 0 0");
    assert_eq!(html, canvas::html_of_params(&p, &opts, None));
    assert_eq!(
        html_of_svg_path("M 0 0", &opts, Some("x")),
        html_of_params(&Params::without_points("M 0 0"), &opts, Some("x"))
    );
}
