use circles_sketch::options::{
    check_ranges, check_visibility, ConfigError, Element, EmbedOptions, Knob,
};
use circles_sketch::schedule::{build_schedule, HarmonicRange};
use circles_sketch::strings::{collect_chars, decimal_string, push_decimal, string_of_chars};
use circles_sketch::visibility::{Congruence, WhenToShow};

fn range(from: usize, step: usize, to: usize, speed: &str) -> HarmonicRange {
    HarmonicRange { from, step, to, speed: speed.to_string() }
}

#[test]
fn default_settings_are_valid() {
    let opts = EmbedOptions::default();
    assert_eq!(opts.validate(), Ok(()));
    assert_eq!(opts.max_harmonics, 100);
    assert_eq!(opts.steps.ranges.len(), 1);
    assert_eq!(opts.steps.ranges[0].from, 1);
    assert_eq!(opts.steps.ranges[0].step, 1);
    assert_eq!(opts.steps.ranges[0].to, 100);
    assert_eq!(opts.steps.ranges[0].speed, "1");
    assert!(matches!(opts.show_contour, WhenToShow::Always));
    assert!(matches!(opts.show_trace, WhenToShow::Always));
    assert!(matches!(opts.show_fourier_circles, WhenToShow::Always));
    assert!(opts.show_point && opts.show_nh && !opts.flip_y);
    assert_eq!(opts.trace_length, "1");
    assert_eq!(opts.opacity, "1");
    assert_eq!(opts.trace_width, "0.5");
    assert_eq!(opts.contour_width, "1");
    assert_eq!(opts.trace_colors, vec!["red".to_string()]);
}

#[test]
fn default_schedule_reaches_the_cap() {
    let opts = EmbedOptions::default();
    let out = build_schedule(&opts.steps, 100);
    assert_eq!(out.len(), 100);
    assert_eq!(out[0].harmonics, 1);
    assert_eq!(out.last().unwrap().harmonics, 100);
    let out = build_schedule(&opts.steps, 37);
    assert_eq!(out.last().unwrap().harmonics, 37);
}

#[test]
fn ranges_are_validated_in_order() {
    let mut opts = EmbedOptions::default();
    opts.steps.ranges = vec![range(1, 1, 10, "1"), range(10, 5, 100, "2")];
    assert_eq!(opts.validate(), Ok(()));
    opts.steps.ranges = vec![range(1, 1, 10, "1"), range(9, 5, 100, "2")];
    assert_eq!(opts.validate(), Err(ConfigError::UnorderedRanges { index: 1 }));
    opts.steps.ranges = vec![range(1, 1, 1, "1")];
    assert_eq!(opts.validate(), Err(ConfigError::EmptyRange { index: 0 }));
    opts.steps.ranges = vec![range(1, 1, 10, "1"), range(20, 1, 15, "x")];
    assert_eq!(opts.validate(), Err(ConfigError::EmptyRange { index: 1 }));
    opts.steps.ranges = vec![range(1, 1, 10, "fast"), range(5, 1, 3, "1")];
    assert_eq!(opts.validate(), Err(ConfigError::MalformedSpeed { index: 0 }));
    opts.steps.ranges = vec![range(20, 1, 30, "1"), range(1, 1, 10, "1")];
    assert_eq!(opts.validate(), Err(ConfigError::UnorderedRanges { index: 1 }));
    opts.steps.ranges = vec![];
    assert_eq!(opts.validate(), Ok(()));
    assert_eq!(check_ranges(&vec![range(3, 0, 4, "NaN")]), Some(ConfigError::MalformedSpeed { index: 0 }));
    assert_eq!(check_ranges(&vec![range(3, 0, 4, "-0.5")]), None);
}

#[test]
fn congruences_are_validated() {
    let mut opts = EmbedOptions::default();
    opts.show_trace = WhenToShow::Congruence(Congruence { modulo: 0, residues: vec![] });
    assert_eq!(opts.validate(), Err(ConfigError::ZeroModulo { element: Element::Trace }));
    opts.show_contour = WhenToShow::Congruence(Congruence { modulo: 3, residues: vec![0, 1, 3, 7] });
    assert_eq!(
        opts.validate(),
        Err(ConfigError::ResidueOutOfRange { element: Element::Contour, index: 2 })
    );
    opts.show_contour = WhenToShow::Congruence(Congruence { modulo: 3, residues: vec![0, 1] });
    opts.show_trace = WhenToShow::Never;
    opts.show_fourier_circles = WhenToShow::Congruence(Congruence { modulo: 2, residues: vec![2] });
    assert_eq!(
        opts.validate(),
        Err(ConfigError::ResidueOutOfRange { element: Element::Circles, index: 0 })
    );
    opts.show_fourier_circles = WhenToShow::Congruence(Congruence { modulo: 2, residues: vec![1] });
    assert_eq!(opts.validate(), Ok(()));
    assert_eq!(check_visibility(&WhenToShow::Always, Element::Trace), None);
}

#[test]
fn fractional_settings_are_validated() {
    let mut opts = EmbedOptions::default();
    opts.contour_width = "wide".to_string();
    assert_eq!(opts.validate(), Err(ConfigError::MalformedNumber { knob: Knob::ContourWidth }));
    opts.trace_width = "".to_string();
    assert_eq!(opts.validate(), Err(ConfigError::MalformedNumber { knob: Knob::TraceWidth }));
    opts.opacity = "inf".to_string();
    assert_eq!(opts.validate(), Err(ConfigError::MalformedNumber { knob: Knob::Opacity }));
    opts.trace_length = "0.5\"".to_string();
    assert_eq!(opts.validate(), Err(ConfigError::MalformedNumber { knob: Knob::TraceLength }));
    opts.show_trace = WhenToShow::Congruence(Congruence { modulo: 0, residues: vec![] });
    assert_eq!(opts.validate(), Err(ConfigError::ZeroModulo { element: Element::Trace }));
    // Every finite float, written the usual way, passes.
    let mut opts = EmbedOptions::default();
    opts.opacity = format!("{}", 0.35_f64);
    opts.trace_width = format!("{}", 1e-7_f64);
    opts.contour_width = format!("{}", 1e21_f64);
    opts.trace_length = format!("{}", -0.0_f64);
    assert_eq!(opts.validate(), Ok(()));
    opts.opacity = format!("{}", f64::NAN);
    assert_eq!(opts.validate(), Err(ConfigError::MalformedNumber { knob: Knob::Opacity }));
}

#[test]
fn errors_say_what_is_wrong() {
    assert_eq!(
        ConfigError::EmptyRange { index: 3 }.message(),
        "range 3: `to` must be greater than `from`"
    );
    assert_eq!(
        ConfigError::MalformedSpeed { index: 0 }.message(),
        "range 0: the speed is not a decimal number"
    );
    assert_eq!(
        ConfigError::UnorderedRanges { index: 12 }.message(),
        "range 12: starts before the previous range ends"
    );
    assert_eq!(
        ConfigError::ZeroModulo { element: Element::Circles }.message(),
        "circles: the modulo must be greater than 0"
    );
    assert_eq!(
        ConfigError::ResidueOutOfRange { element: Element::Contour, index: 5 }.message(),
        "contour: residue 5 is not below the modulo"
    );
    assert_eq!(
        ConfigError::MalformedNumber { knob: Knob::TraceLength }.message(),
        "trace_length: not a decimal number"
    );
    assert_eq!(
        ConfigError::MalformedNumber { knob: Knob::Opacity }.message(),
        "opacity: not a decimal number"
    );
}

#[test]
fn numbers_are_written_in_decimal() {
    for n in [0usize, 1, 9, 10, 11, 99, 100, 101, 12345, 1000000, usize::MAX] {
        assert_eq!(decimal_string(n), n.to_string());
    }
    let mut s = "n=".to_string();
    push_decimal(&mut s, 4207);
    assert_eq!(s, "n=4207");
}

#[test]
fn characters_are_walked_in_order() {
    assert_eq!(collect_chars("héllo"), vec!['h', 'é', 'l', 'l', 'o']);
    assert_eq!(collect_chars(""), Vec::<char>::new());
    let chars = collect_chars("abcdef");
    assert_eq!(string_of_chars(&chars, 1, 4), "bcd");
    assert_eq!(string_of_chars(&chars, 2, 2), "");
    assert_eq!(string_of_chars(&chars, 0, 6), "abcdef");
}

#[test]
fn no_terms_at_all_are_refused() {
    let mut opts = EmbedOptions::default();
    opts.max_harmonics = 0;
    assert_eq!(opts.validate(), Err(ConfigError::ZeroMaxHarmonics));
    // It is the first thing that is looked at.
    opts.steps.ranges = vec![range(5, 1, 5, "x")];
    opts.opacity = "".to_string();
    assert_eq!(opts.validate(), Err(ConfigError::ZeroMaxHarmonics));
    opts.max_harmonics = 1;
    assert_eq!(opts.validate(), Err(ConfigError::EmptyRange { index: 0 }));
    assert_eq!(ConfigError::ZeroMaxHarmonics.message(), "max_harmonics: must be greater than 0");
}
