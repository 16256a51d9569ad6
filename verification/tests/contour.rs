use circles_sketch::resample::{sample_counts, sample_position, SamplePosition};
use circles_sketch::spectrum::{descending_order, frequencies};

// The glue of a caller: the library says where a sample lies, which
// frequencies are computed and in which order the terms are drawn; the
// arithmetic on coordinates is floating point.

fn blend(a: f64, b: f64, numer: usize, denom: usize) -> f64 {
    if numer == 0 {
        a
    } else if numer == denom {
        b
    } else {
        let frac = numer as f64 / denom as f64;
        a * (1.0 - frac) + b * frac
    }
}

fn interpolate(points: &[(f64, f64)], n: usize) -> Vec<(f64, f64)> {
    (0..n)
        .map(|i| match sample_position(points.len(), n, i) {
            SamplePosition::Origin => (0.0, 0.0),
            SamplePosition::Single => points[0],
            SamplePosition::Between { index, numer, denom } => (
                blend(points[index].0, points[index + 1].0, numer, denom),
                blend(points[index].1, points[index + 1].1, numer, denom),
            ),
        })
        .collect()
}

struct Coeff {
    freq: i32,
    re: f64,
    im: f64,
}

impl Coeff {
    fn radius(&self) -> f64 {
        (self.re * self.re + self.im * self.im).sqrt()
    }
}

fn fourier_decomposition(points: &[(f64, f64)], num_terms: usize) -> Vec<Coeff> {
    let n = points.len();
    let two_pi = 2.0 * std::f64::consts::PI;
    let mut coeffs = Vec::new();
    for &k in &frequencies(num_terms) {
        let mut re = 0.0;
        let mut im = 0.0;
        for j in 0..n {
            let angle = -two_pi * k as f64 * j as f64 / n as f64;
            let (xj, yj) = points[j];
            re += xj * angle.cos() - yj * angle.sin();
            im += xj * angle.sin() + yj * angle.cos();
        }
        coeffs.push(Coeff { freq: k, re: re / n as f64, im: im / n as f64 });
    }
    let keys: Vec<u64> = coeffs.iter().map(|c| c.radius().to_bits()).collect();
    let order = descending_order(&keys);
    order.into_iter().map(|i| Coeff { freq: coeffs[i].freq, re: coeffs[i].re, im: coeffs[i].im }).collect()
}

fn eval(coeffs: &[Coeff], t: f64) -> (f64, f64) {
    let two_pi = 2.0 * std::f64::consts::PI;
    let mut x = 0.0;
    let mut y = 0.0;
    for c in coeffs {
        let angle = two_pi * c.freq as f64 * t;
        x += c.re * angle.cos() - c.im * angle.sin();
        y += c.im * angle.cos() + c.re * angle.sin();
    }
    (x, y)
}

#[test]
fn test_fourier_decomposition_circle() {
    // A circle: x = 50 + 20*cos(t), y = 50 + 20*sin(t)
    let n = 64;
    let points: Vec<(f64, f64)> = (0..n)
        .map(|i| {
            let t = 2.0 * std::f64::consts::PI * i as f64 / n as f64;
            (50.0 + 20.0 * t.cos(), 50.0 + 20.0 * t.sin())
        })
        .collect();

    let fd = fourier_decomposition(&points, 4);
    assert_eq!(fd.len(), 9);

    let eps = 1e-10;

    let c0 = fd.iter().find(|c| c.freq == 0).unwrap();
    assert!((c0.re - 50.0).abs() < eps);
    assert!((c0.im - 50.0).abs() < eps);

    let c1 = fd.iter().find(|c| c.freq == 1).unwrap();
    assert!((c1.radius() - 20.0).abs() < eps, "c1 radius: {}", c1.radius());

    for c in &fd {
        if c.freq != 0 && c.freq != 1 {
            assert!(c.radius() < eps, "freq {} has radius {}", c.freq, c.radius());
        }
    }

    // The terms come largest first.
    assert_eq!(fd[0].freq, 0);
    assert_eq!(fd[1].freq, 1);
    for w in fd.windows(2) {
        assert!(w[0].radius() >= w[1].radius());
    }

    for i in 0..n {
        let t = i as f64 / n as f64;
        let (rx, ry) = eval(&fd, t);
        let orig_t = 2.0 * std::f64::consts::PI * i as f64 / n as f64;
        let ox = 50.0 + 20.0 * orig_t.cos();
        let oy = 50.0 + 20.0 * orig_t.sin();
        assert!((rx - ox).abs() < eps, "x mismatch at i={}: {} vs {}", i, rx, ox);
        assert!((ry - oy).abs() < eps, "y mismatch at i={}: {} vs {}", i, ry, oy);
    }
}

#[test]
fn frequencies_alternate_around_zero() {
    assert_eq!(frequencies(0), vec![0]);
    assert_eq!(frequencies(1), vec![0, 1, -1]);
    assert_eq!(frequencies(4), vec![0, 1, -1, 2, -2, 3, -3, 4, -4]);
    let f = frequencies(500);
    assert_eq!(f.len(), 1001);
    let mut sorted = f.clone();
    sorted.sort();
    let all: Vec<i32> = (-500..=500).collect();
    assert_eq!(sorted, all);
}

#[test]
fn terms_are_ordered_largest_first() {
    assert_eq!(descending_order(&vec![]), Vec::<usize>::new());
    assert_eq!(descending_order(&vec![7]), vec![0]);
    assert_eq!(descending_order(&vec![1, 5, 3]), vec![1, 2, 0]);
    // Equal keys keep their order.
    assert_eq!(descending_order(&vec![2, 9, 2, 9, 2]), vec![1, 3, 0, 2, 4]);
    assert_eq!(descending_order(&vec![0, 0, 0]), vec![0, 1, 2]);
    assert_eq!(descending_order(&vec![u64::MAX, 0, u64::MAX]), vec![0, 2, 1]);
    // The same order as a stable sort by descending key.
    let keys: Vec<u64> = (0..200u64).map(|i| (i * 7919 + 13) % 31).collect();
    let mut expected: Vec<usize> = (0..keys.len()).collect();
    expected.sort_by(|&a, &b| keys[b].cmp(&keys[a]));
    assert_eq!(descending_order(&keys), expected);
}

#[test]
fn radius_bits_grow_with_the_radius() {
    let radii = [0.0_f64, 1e-300, 0.5, 1.0, 1.5, 20.0, 1e300, f64::INFINITY];
    let keys: Vec<u64> = radii.iter().map(|r| r.to_bits()).collect();
    let order = descending_order(&keys);
    assert_eq!(order, vec![7, 6, 5, 4, 3, 2, 1, 0]);
}

#[test]
fn samples_of_the_square() {
    let square = vec![(0.0, 0.0), (1.0, 0.0), (1.0, 1.0), (0.0, 0.0)];
    // Seven samples lie at t = 0, 1/6, 2/6, ..., 1.
    let s = interpolate(&square, 7);
    assert_eq!(s[0], (0.0, 0.0));
    assert_eq!(s[1], (0.5, 0.0));
    assert_eq!(s[2], (1.0, 0.0));
    assert_eq!(s[3], (1.0, 0.5));
    assert_eq!(s[4], (1.0, 1.0));
    assert_eq!(s[5], (0.5, 0.5));
    assert_eq!(s[6], (0.0, 0.0));
    assert_eq!(sample_position(4, 7, 2), SamplePosition::Between { index: 1, numer: 0, denom: 6 });
    assert_eq!(sample_position(4, 7, 5), SamplePosition::Between { index: 2, numer: 3, denom: 6 });
    assert_eq!(sample_position(4, 7, 6), SamplePosition::Between { index: 2, numer: 6, denom: 6 });
}

#[test]
fn resampling_keeps_the_first_and_the_last_point() {
    let contour = vec![(3.0, 0.25), (-1.0, 7.0), (2.5, 2.5), (10.0, -4.0), (0.1, 0.2)];
    for n in [2usize, 3, 4, 5, 6, 7, 100, 1000] {
        let s = interpolate(&contour, n);
        assert_eq!(s.len(), n);
        assert_eq!(s[0], contour[0]);
        assert_eq!(s[n - 1], contour[4]);
    }
    let line = vec![(3.0, 0.0), (3.0, 5.0)];
    let s = interpolate(&line, 6);
    assert_eq!(s[0], (3.0, 0.0));
    assert_eq!(s[5], (3.0, 5.0));
    assert!((s[1].0 - 3.0).abs() < 1e-12 && (s[1].1 - 1.0).abs() < 1e-12);
}

#[test]
fn resampling_of_degenerate_contours() {
    assert_eq!(interpolate(&[], 3), vec![(0.0, 0.0); 3]);
    assert_eq!(interpolate(&[(4.0, 5.0)], 3), vec![(4.0, 5.0); 3]);
    // A single sample is taken at the start.
    assert_eq!(interpolate(&[(1.0, 2.0), (3.0, 4.0)], 1), vec![(1.0, 2.0)]);
    assert_eq!(sample_position(0, 1, 0), SamplePosition::Origin);
    assert_eq!(sample_position(1, 5, 4), SamplePosition::Single);
    assert_eq!(sample_position(2, 1, 0), SamplePosition::Between { index: 0, numer: 0, denom: 1 });
}

#[test]
fn sample_positions_are_exact() {
    // 10 points, 4 samples: sample 1 lies at 9/3 = 3 exactly, sample 2 at 6.
    assert_eq!(sample_position(10, 4, 1), SamplePosition::Between { index: 3, numer: 0, denom: 3 });
    // 3 points, 4 samples: sample 1 lies at 2/3, sample 2 at 4/3.
    assert_eq!(sample_position(3, 4, 1), SamplePosition::Between { index: 0, numer: 2, denom: 3 });
    assert_eq!(sample_position(3, 4, 2), SamplePosition::Between { index: 1, numer: 1, denom: 3 });
    assert_eq!(sample_position(3, 4, 3), SamplePosition::Between { index: 1, numer: 3, denom: 3 });
    // Large numbers do not overflow.
    let big = usize::MAX;
    assert_eq!(
        sample_position(big, big, big - 1),
        SamplePosition::Between { index: big - 2, numer: big - 1, denom: big - 1 }
    );
    assert_eq!(
        sample_position(big, big, 1),
        SamplePosition::Between { index: 1, numer: 0, denom: big - 1 }
    );
}

#[test]
fn sample_and_term_counts() {
    assert_eq!(sample_counts(0, 1), (1000, 500));
    assert_eq!(sample_counts(4, 100), (1000, 500));
    assert_eq!(sample_counts(999, 499), (1000, 500));
    assert_eq!(sample_counts(1001, 500), (1001, 500));
    assert_eq!(sample_counts(1001, 501), (1002, 500));
    assert_eq!(sample_counts(5000, 600), (5000, 500));
    assert_eq!(sample_counts(5000, 4000), (8000, 500));
    assert_eq!(sample_counts(usize::MAX, usize::MAX / 2), (usize::MAX, 500));
    assert_eq!(sample_counts(7, usize::MAX / 2), (usize::MAX - 1, 500));
}
