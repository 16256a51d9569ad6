//! Drawing a contour with circles.
//!
//! A closed contour is resampled, decomposed into Fourier terms, and shown as
//! an animation of epicycles that draws it with more and more terms. This
//! library holds the parts of that work that are exact:
//!
//! - `tokens`, `commands`, `document`: reading path data into drawing commands;
//! - `outline`: writing a point sequence back as path data;
//! - `resample`: where the samples of a resampled contour lie;
//! - `spectrum`: which frequencies are computed and in which order the terms
//!   are drawn;
//! - `glyphs`: setting the glyphs of a text side by side;
//! - `schedule`, `visibility`, `options`: how many terms each loop draws, how
//!   fast, what is shown in it, and the validation of these settings;
//! - `markup`, `params`, `svg`, `canvas`: the pages, as text.
//!
//! Coordinates are measured in floating point by the caller. Where a number
//! with a fraction passes through the library, it does so as written text.

use vstd::prelude::*;

pub mod canvas;
pub mod canvas_parts;
pub mod commands;
pub mod document;
pub mod glyphs;
pub mod markup;
pub mod options;
pub mod outline;
pub mod params;
pub mod resample;
pub mod schedule;
pub mod spectrum;
pub mod strings;
pub mod svg;
pub mod svg_parts;
pub mod tokens;
pub mod visibility;

verus! {

} // verus!
