//! The settings of a rendering, and their validation.
//!
//! Settings with fractional values (speeds, widths, opacity) are decimal
//! numbers kept as written: the library never computes with them, it only
//! writes them into the page.

use vstd::prelude::*;
use vstd::string::*;
use crate::commands::{is_number, is_number_token};
use crate::schedule::{ranges_ordered, HarmonicRange, HarmonicSteps};
use crate::strings::push_decimal;
use crate::visibility::{Congruence, WhenToShow};

verus! {

/// An element of the drawing whose visibility can be set.
#[derive(Clone, Copy, Debug, PartialEq, Eq, Structural)]
pub enum Element {
    Contour,
    Trace,
    Circles,
}

/// A setting with a fractional value.
#[derive(Clone, Copy, Debug, PartialEq, Eq, Structural)]
pub enum Knob {
    TraceLength,
    Opacity,
    TraceWidth,
    ContourWidth,
}

/// Why settings are refused.
#[derive(Clone, Copy, Debug, PartialEq, Eq, Structural)]
pub enum ConfigError {
    /// The largest number of terms is 0.
    ZeroMaxHarmonics,
    /// The range `index` ends at or before its start.
    EmptyRange { index: usize },
    /// The speed of the range `index` is no decimal number.
    MalformedSpeed { index: usize },
    /// The range `index` starts before the range in front of it ends.
    UnorderedRanges { index: usize },
    /// The period of the congruence of `element` is 0.
    ZeroModulo { element: Element },
    /// The residue `index` of the congruence of `element` is not below the period.
    ResidueOutOfRange { element: Element, index: usize },
    /// The value of `knob` is no decimal number.
    MalformedNumber { knob: Knob },
}

/// The settings of a rendering.
#[derive(Clone, Debug)]
pub struct EmbedOptions {
    /// The largest number of terms that a loop draws.
    pub max_harmonics: usize,
    pub steps: HarmonicSteps,
    pub show_contour: WhenToShow,
    pub show_trace: WhenToShow,
    pub show_fourier_circles: WhenToShow,
    pub show_point: bool,
    /// Whether the number of terms is written into the drawing.
    pub show_nh: bool,
    /// The length of the trace, as a fraction of the number of points.
    pub trace_length: String,
    pub opacity: String,
    pub trace_width: String,
    pub contour_width: String,
    /// The colors of the trace, one per loop, used in turn.
    pub trace_colors: Vec<String>,
    pub flip_y: bool,
}

/// What is wrong with the range `k` taken by itself and with the one in
/// front of it, if anything.
pub open spec fn range_error(ranges: Seq<HarmonicRange>, k: int) -> Option<ConfigError> {
    if ranges[k].to <= ranges[k].from {
        Some(ConfigError::EmptyRange { index: k as usize })
    } else if !is_number(ranges[k].speed@) {
        Some(ConfigError::MalformedSpeed { index: k as usize })
    } else if k > 0 && ranges[k].from < ranges[k - 1].to {
        Some(ConfigError::UnorderedRanges { index: k as usize })
    } else {
        None
    }
}

/// The first error among the ranges from `k` on.
pub open spec fn first_range_error(ranges: Seq<HarmonicRange>, k: int) -> Option<ConfigError>
    decreases ranges.len() - k,
{
    if k < 0 || k >= ranges.len() {
        None
    } else {
        match range_error(ranges, k) {
            Some(e) => Some(e),
            None => first_range_error(ranges, k + 1),
        }
    }
}

/// The first residue from `k` on that is not below the period.
pub open spec fn first_residue_error(c: Congruence, element: Element, k: int) -> Option<
    ConfigError,
>
    decreases c.residues@.len() - k,
{
    if k < 0 || k >= c.residues@.len() {
        None
    } else if c.residues@[k] >= c.modulo {
        Some(ConfigError::ResidueOutOfRange { element, index: k as usize })
    } else {
        first_residue_error(c, element, k + 1)
    }
}

/// What is wrong with the visibility of `element`, if anything.
pub open spec fn visibility_error(w: WhenToShow, element: Element) -> Option<ConfigError> {
    match w {
        WhenToShow::Congruence(c) => if c.modulo == 0 {
            Some(ConfigError::ZeroModulo { element })
        } else {
            first_residue_error(c, element, 0)
        },
        _ => None,
    }
}

/// What is wrong with the value `text` of `knob`, if anything.
pub open spec fn knob_error(text: Seq<char>, knob: Knob) -> Option<ConfigError> {
    if is_number(text) {
        None
    } else {
        Some(ConfigError::MalformedNumber { knob })
    }
}

/// What is wrong with the largest number of terms, if anything.
pub open spec fn harmonics_error(max_harmonics: usize) -> Option<ConfigError> {
    if max_harmonics == 0 {
        Some(ConfigError::ZeroMaxHarmonics)
    } else {
        None
    }
}

/// `first` if it is an error, else `second`.
pub open spec fn or_else(first: Option<ConfigError>, second: Option<ConfigError>) -> Option<
    ConfigError,
> {
    match first {
        Some(e) => Some(e),
        None => second,
    }
}

impl EmbedOptions {
    /// Whether the settings can be used: at least one term is allowed, the
    /// ranges are non-empty and in order, every congruence has a positive
    /// period and residues below it, and every fractional value is a decimal
    /// number.
    pub open spec fn valid(&self) -> bool {
        &&& self.max_harmonics > 0
        &&& ranges_ordered(self.steps.ranges@)
        &&& forall|k: int|
            0 <= k < self.steps.ranges@.len() ==> is_number(
                (#[trigger] self.steps.ranges@[k]).speed@,
            )
        &&& self.show_contour.valid()
        &&& self.show_trace.valid()
        &&& self.show_fourier_circles.valid()
        &&& is_number(self.trace_length@)
        &&& is_number(self.opacity@)
        &&& is_number(self.trace_width@)
        &&& is_number(self.contour_width@)
    }

    /// The first thing that is wrong with the settings, if anything: the
    /// largest number of terms is looked at first, then the ranges, then the
    /// visibility of the contour, of the trace and of the circles, then the
    /// fractional values.
    pub open spec fn first_error(&self) -> Option<ConfigError> {
        or_else(harmonics_error(self.max_harmonics), self.first_error_behind_terms())
    }

    /// The first thing that is wrong with the settings apart from the
    /// largest number of terms.
    pub open spec fn first_error_behind_terms(&self) -> Option<ConfigError> {
        or_else(
            first_range_error(self.steps.ranges@, 0),
            or_else(
                visibility_error(self.show_contour, Element::Contour),
                or_else(
                    visibility_error(self.show_trace, Element::Trace),
                    or_else(
                        visibility_error(self.show_fourier_circles, Element::Circles),
                        or_else(
                            knob_error(self.trace_length@, Knob::TraceLength),
                            or_else(
                                knob_error(self.opacity@, Knob::Opacity),
                                or_else(
                                    knob_error(self.trace_width@, Knob::TraceWidth),
                                    knob_error(self.contour_width@, Knob::ContourWidth),
                                ),
                            ),
                        ),
                    ),
                ),
            ),
        )
    }

    /// Checks the settings. They pass exactly when they are valid, and what
    /// is reported otherwise is the first error.
    pub fn validate(&self) -> (r: Result<(), ConfigError>)
        ensures
            r is Ok <==> self.valid(),
            r is Ok <==> self.first_error() is None,
            r is Err ==> self.first_error() == Some(r->Err_0),
    {
        proof {
            lemma_first_error_none_iff_valid(*self);
        }
        if self.max_harmonics == 0 {
            return Err(ConfigError::ZeroMaxHarmonics);
        }
        match check_ranges(&self.steps.ranges) {
            Some(e) => {
                return Err(e);
            },
            None => {},
        }
        match check_visibility(&self.show_contour, Element::Contour) {
            Some(e) => {
                return Err(e);
            },
            None => {},
        }
        match check_visibility(&self.show_trace, Element::Trace) {
            Some(e) => {
                return Err(e);
            },
            None => {},
        }
        match check_visibility(&self.show_fourier_circles, Element::Circles) {
            Some(e) => {
                return Err(e);
            },
            None => {},
        }
        if !is_number_token(self.trace_length.as_str()) {
            return Err(ConfigError::MalformedNumber { knob: Knob::TraceLength });
        }
        if !is_number_token(self.opacity.as_str()) {
            return Err(ConfigError::MalformedNumber { knob: Knob::Opacity });
        }
        if !is_number_token(self.trace_width.as_str()) {
            return Err(ConfigError::MalformedNumber { knob: Knob::TraceWidth });
        }
        if !is_number_token(self.contour_width.as_str()) {
            return Err(ConfigError::MalformedNumber { knob: Knob::ContourWidth });
        }
        Ok(())
    }
}

/// Finds the first error among the ranges.
pub fn check_ranges(ranges: &Vec<HarmonicRange>) -> (r: Option<ConfigError>)
    ensures
        r == first_range_error(ranges@, 0),
{
    let mut k: usize = 0;
    while k < ranges.len()
        invariant
            k <= ranges.len(),
            first_range_error(ranges@, 0) == first_range_error(ranges@, k as int),
        decreases ranges.len() - k,
    {
        if ranges[k].to <= ranges[k].from {
            return Some(ConfigError::EmptyRange { index: k });
        }
        if !is_number_token(ranges[k].speed.as_str()) {
            return Some(ConfigError::MalformedSpeed { index: k });
        }
        if k > 0 && ranges[k].from < ranges[k - 1].to {
            return Some(ConfigError::UnorderedRanges { index: k });
        }
        k += 1;
    }
    None
}

/// Finds what is wrong with the visibility of `element`.
pub fn check_visibility(w: &WhenToShow, element: Element) -> (r: Option<ConfigError>)
    ensures
        r == visibility_error(*w, element),
{
    match w {
        WhenToShow::Congruence(c) => {
            if c.modulo == 0 {
                return Some(ConfigError::ZeroModulo { element });
            }
            let mut k: usize = 0;
            while k < c.residues.len()
                invariant
                    k <= c.residues.len(),
                    visibility_error(*w, element) == first_residue_error(*c, element, 0),
                    first_residue_error(*c, element, 0) == first_residue_error(
                        *c,
                        element,
                        k as int,
                    ),
                decreases c.residues.len() - k,
            {
                if c.residues[k] >= c.modulo {
                    return Some(ConfigError::ResidueOutOfRange { element, index: k });
                }
                k += 1;
            }
            None
        },
        _ => None,
    }
}

proof fn lemma_ranges_checked(ranges: Seq<HarmonicRange>, k: int)
    requires
        0 <= k <= ranges.len(),
    ensures
        first_range_error(ranges, k) is None <==> forall|m: int|
            k <= m < ranges.len() ==> range_error(ranges, m) is None,
    decreases ranges.len() - k,
{
    if k < ranges.len() {
        lemma_ranges_checked(ranges, k + 1);
        if first_range_error(ranges, k) is None {
            assert forall|m: int| k <= m < ranges.len() implies range_error(ranges, m) is None by {
                if m > k {
                }
            }
        }
    }
}

proof fn lemma_residues_checked(c: Congruence, element: Element, k: int)
    requires
        0 <= k <= c.residues@.len(),
    ensures
        first_residue_error(c, element, k) is None <==> forall|m: int|
            k <= m < c.residues@.len() ==> (#[trigger] c.residues@[m]) < c.modulo,
    decreases c.residues@.len() - k,
{
    if k < c.residues@.len() {
        lemma_residues_checked(c, element, k + 1);
        if first_residue_error(c, element, k) is None {
            assert forall|m: int| k <= m < c.residues@.len() implies (#[trigger] c.residues@[m])
                < c.modulo by {
                if m > k {
                }
            }
        }
    }
}

proof fn lemma_visibility_checked(w: WhenToShow, element: Element)
    ensures
        visibility_error(w, element) is None <==> w.valid(),
{
    match w {
        WhenToShow::Congruence(c) => {
            lemma_residues_checked(c, element, 0);
        },
        _ => {},
    }
}

/// Settings have no first error exactly when they are valid.
pub proof fn lemma_first_error_none_iff_valid(opts: EmbedOptions)
    ensures
        opts.first_error() is None <==> opts.valid(),
{
    let ranges = opts.steps.ranges@;
    lemma_ranges_checked(ranges, 0);
    lemma_visibility_checked(opts.show_contour, Element::Contour);
    lemma_visibility_checked(opts.show_trace, Element::Trace);
    lemma_visibility_checked(opts.show_fourier_circles, Element::Circles);
    if first_range_error(ranges, 0) is None {
        assert forall|k: int| 0 <= k < ranges.len() implies (#[trigger] ranges[k]).from
            < ranges[k].to && is_number(ranges[k].speed@) by {
            assert(range_error(ranges, k) is None);
        }
        assert forall|k: int| 0 <= k && k + 1 < ranges.len() implies (#[trigger] ranges[k]).to
            <= ranges[k + 1].from by {
            assert(range_error(ranges, k + 1) is None);
        }
    }
    if ranges_ordered(ranges) && (forall|k: int|
        0 <= k < ranges.len() ==> is_number((#[trigger] ranges[k]).speed@)) {
        assert forall|m: int| 0 <= m < ranges.len() implies range_error(ranges, m) is None by {
            if m > 0 {
                assert(ranges[m - 1].to <= ranges[m - 1 + 1].from);
            }
        }
    }
}

/// The name of `element` in messages.
pub open spec fn element_name(element: Element) -> Seq<char> {
    match element {
        Element::Contour => "contour"@,
        Element::Trace => "trace"@,
        Element::Circles => "circles"@,
    }
}

/// The name of `knob` in messages.
pub open spec fn knob_name(knob: Knob) -> Seq<char> {
    match knob {
        Knob::TraceLength => "trace_length"@,
        Knob::Opacity => "opacity"@,
        Knob::TraceWidth => "trace_width"@,
        Knob::ContourWidth => "contour_width"@,
    }
}

fn name_of_element(element: Element) -> (name: &'static str)
    ensures
        name@ == element_name(element),
{
    match element {
        Element::Contour => "contour",
        Element::Trace => "trace",
        Element::Circles => "circles",
    }
}

fn name_of_knob(knob: Knob) -> (name: &'static str)
    ensures
        name@ == knob_name(knob),
{
    match knob {
        Knob::TraceLength => "trace_length",
        Knob::Opacity => "opacity",
        Knob::TraceWidth => "trace_width",
        Knob::ContourWidth => "contour_width",
    }
}

impl ConfigError {
    /// The sentence that `message` writes.
    pub open spec fn message_text(&self) -> Seq<char> {
        match *self {
            ConfigError::ZeroMaxHarmonics => "max_harmonics: must be greater than 0"@,
            ConfigError::EmptyRange { index } => "range "@ + crate::strings::decimal_text(
                index as nat,
            ) + ": `to` must be greater than `from`"@,
            ConfigError::MalformedSpeed { index } => "range "@ + crate::strings::decimal_text(
                index as nat,
            ) + ": the speed is not a decimal number"@,
            ConfigError::UnorderedRanges { index } => "range "@ + crate::strings::decimal_text(
                index as nat,
            ) + ": starts before the previous range ends"@,
            ConfigError::ZeroModulo { element } => element_name(element)
                + ": the modulo must be greater than 0"@,
            ConfigError::ResidueOutOfRange { element, index } => element_name(element)
                + ": residue "@ + crate::strings::decimal_text(index as nat)
                + " is not below the modulo"@,
            ConfigError::MalformedNumber { knob } => knob_name(knob)
                + ": not a decimal number"@,
        }
    }

    /// Says in words what is wrong.
    pub fn message(&self) -> (s: String)
        ensures
            s@ == self.message_text(),
    {
        let mut s = String::new();
        match *self {
            ConfigError::ZeroMaxHarmonics => {
                s.append("max_harmonics: must be greater than 0");
            },
            ConfigError::EmptyRange { index } => {
                s.append("range ");
                push_decimal(&mut s, index);
                s.append(": `to` must be greater than `from`");
            },
            ConfigError::MalformedSpeed { index } => {
                s.append("range ");
                push_decimal(&mut s, index);
                s.append(": the speed is not a decimal number");
            },
            ConfigError::UnorderedRanges { index } => {
                s.append("range ");
                push_decimal(&mut s, index);
                s.append(": starts before the previous range ends");
            },
            ConfigError::ZeroModulo { element } => {
                s.append(name_of_element(element));
                s.append(": the modulo must be greater than 0");
            },
            ConfigError::ResidueOutOfRange { element, index } => {
                s.append(name_of_element(element));
                s.append(": residue ");
                push_decimal(&mut s, index);
                s.append(" is not below the modulo");
            },
            ConfigError::MalformedNumber { knob } => {
                s.append(name_of_knob(knob));
                s.append(": not a decimal number");
            },
        }
        assert(s@ =~= self.message_text());
        s
    }
}

/// The settings that `EmbedOptions::default` gives.
pub open spec fn is_default(opts: EmbedOptions) -> bool {
    &&& opts.max_harmonics == 100
    &&& opts.steps.ranges@.len() == 1
    &&& opts.steps.ranges@[0].from == 1
    &&& opts.steps.ranges@[0].step == 1
    &&& opts.steps.ranges@[0].to == 100
    &&& opts.steps.ranges@[0].speed@ == "1"@
    &&& opts.show_contour is Always
    &&& opts.show_trace is Always
    &&& opts.show_fourier_circles is Always
    &&& opts.show_point
    &&& opts.show_nh
    &&& opts.trace_length@ == "1"@
    &&& opts.opacity@ == "1"@
    &&& opts.trace_width@ == "0.5"@
    &&& opts.contour_width@ == "1"@
    &&& opts.trace_colors@.len() == 1
    &&& opts.trace_colors@[0]@ == "red"@
    &&& !opts.flip_y
}

/// The default settings are valid.
pub proof fn lemma_default_valid(opts: EmbedOptions)
    requires
        is_default(opts),
    ensures
        opts.valid(),
{
    reveal_strlit("1");
    reveal_strlit("0.5");
    let one = "1"@;
    let half = "0.5"@;
    assert(crate::commands::number_body(one) =~= one);
    assert(crate::commands::number_body(half) =~= half);
    assert(crate::strings::is_digit(crate::commands::number_body(one)[0]));
    assert(crate::strings::is_digit(crate::commands::number_body(half)[0]));
    assert(is_number(one));
    assert(is_number(half));
}

impl Default for EmbedOptions {
    /// A hundred terms at most, reached one term per loop at speed 1;
    /// everything shown in every loop.
    fn default() -> (opts: EmbedOptions)
        ensures
            is_default(opts),
            opts.valid(),
    {
        let mut ranges: Vec<HarmonicRange> = Vec::new();
        ranges.push(HarmonicRange { from: 1, step: 1, to: 100, speed: String::from_str("1") });
        let mut trace_colors: Vec<String> = Vec::new();
        trace_colors.push(String::from_str("red"));
        let opts = EmbedOptions {
            max_harmonics: 100,
            steps: HarmonicSteps { ranges },
            show_contour: WhenToShow::Always,
            show_trace: WhenToShow::Always,
            show_fourier_circles: WhenToShow::Always,
            show_point: true,
            show_nh: true,
            trace_length: String::from_str("1"),
            opacity: String::from_str("1"),
            trace_width: String::from_str("0.5"),
            contour_width: String::from_str("1"),
            trace_colors,
            flip_y: false,
        };
        proof {
            lemma_default_valid(opts);
        }
        opts
    }
}

} // verus!
