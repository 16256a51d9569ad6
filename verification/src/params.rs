//! The geometry of a drawing as the text that goes into a page.
//!
//! Coordinates and sizes are measured elsewhere and arrive as written
//! numbers. For a drawing without points the view box is the square from
//! (0, 0) to (100, 100) with a margin of a tenth on every side.

use vstd::prelude::*;
use vstd::string::*;

verus! {

/// What a page needs to know of the drawing.
#[derive(Clone, Debug)]
pub struct Params {
    /// The outline as path data.
    pub svg_path: String,
    /// The points as an array literal of a script.
    pub points_array: String,
    /// The terms of the decomposition as an array literal of a script, or `null`.
    pub fourier_json: String,
    /// The left edge of the view box.
    pub vb_x: String,
    /// The upper edge of the view box.
    pub vb_y: String,
    /// The side of the view box.
    pub vb_size: String,
    /// The width of a stroke: a hundredth of the view box.
    pub stroke: String,
    /// The radius of the moving dot.
    pub dot_r: String,
    /// The spread of the glow around the dot.
    pub glow_std: String,
    /// The radius of the spark around the dot.
    pub spark_r: String,
    /// The radius of the core of the spark.
    pub spark_core: String,
    /// The size of the label that counts the terms.
    pub font_size: String,
}

/// What a `Params` stands for.
pub ghost struct ParamsText {
    pub svg_path: Seq<char>,
    pub points_array: Seq<char>,
    pub fourier_json: Seq<char>,
    pub vb_x: Seq<char>,
    pub vb_y: Seq<char>,
    pub vb_size: Seq<char>,
    pub stroke: Seq<char>,
    pub dot_r: Seq<char>,
    pub glow_std: Seq<char>,
    pub spark_r: Seq<char>,
    pub spark_core: Seq<char>,
    pub font_size: Seq<char>,
}

impl View for Params {
    type V = ParamsText;

    open spec fn view(&self) -> ParamsText {
        ParamsText {
            svg_path: self.svg_path@,
            points_array: self.points_array@,
            fourier_json: self.fourier_json@,
            vb_x: self.vb_x@,
            vb_y: self.vb_y@,
            vb_size: self.vb_size@,
            stroke: self.stroke@,
            dot_r: self.dot_r@,
            glow_std: self.glow_std@,
            spark_r: self.spark_r@,
            spark_core: self.spark_core@,
            font_size: self.font_size@,
        }
    }
}

/// The geometry of a drawing that has the outline `svg_path` and no points.
pub open spec fn without_points_text(svg_path: Seq<char>) -> ParamsText {
    ParamsText {
        svg_path,
        points_array: "[]"@,
        fourier_json: "null"@,
        vb_x: "-10"@,
        vb_y: "-10"@,
        vb_size: "120"@,
        stroke: "1.2"@,
        dot_r: "0.84"@,
        glow_std: "0.6"@,
        spark_r: "1.26"@,
        spark_core: "0.21"@,
        font_size: "4.8"@,
    }
}

impl Params {
    /// The geometry of a drawing that has the outline `svg_path` and no points.
    pub fn without_points(svg_path: &str) -> (p: Params)
        ensures
            p@ == without_points_text(svg_path@),
    {
        Params {
            svg_path: String::from_str(svg_path),
            points_array: String::from_str("[]"),
            fourier_json: String::from_str("null"),
            vb_x: String::from_str("-10"),
            vb_y: String::from_str("-10"),
            vb_size: String::from_str("120"),
            stroke: String::from_str("1.2"),
            dot_r: String::from_str("0.84"),
            glow_std: String::from_str("0.6"),
            spark_r: String::from_str("1.26"),
            spark_core: String::from_str("0.21"),
            font_size: String::from_str("4.8"),
        }
    }
}

} // verus!
