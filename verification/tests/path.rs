use circles_sketch::commands::{
    chars_are_number, commands_of_svg_path, commands_of_tokens, is_number_token, token_info,
    CommandKind, PathCommand, PathError,
};
use circles_sketch::document::path_data_of_svg;
use circles_sketch::outline::{svg_path_of_points, OutlinePoint};
use circles_sketch::tokens::{classify_chars, tokenize_svg_path, tokens_of_classified, ClassifiedChar};

fn strings(items: &[&str]) -> Vec<String> {
    items.iter().map(|s| s.to_string()).collect()
}

fn shape(commands: &[PathCommand]) -> Vec<(CommandKind, bool, Vec<String>)> {
    commands.iter().map(|c| (c.kind, c.relative, c.operands.clone())).collect()
}

// Replays commands in floating point, as a caller of the library does.
fn points_of(path: &str) -> Vec<(f64, f64)> {
    let commands = commands_of_svg_path(path).unwrap();
    let mut points = Vec::new();
    let (mut cx, mut cy, mut sx, mut sy) = (0.0_f64, 0.0_f64, 0.0_f64, 0.0_f64);
    for c in &commands {
        let v: Vec<f64> = c.operands.iter().map(|t| t.parse::<f64>().unwrap()).collect();
        let (ox, oy) = if c.relative { (cx, cy) } else { (0.0, 0.0) };
        match c.kind {
            CommandKind::MoveTo => {
                cx = ox + v[0];
                cy = oy + v[1];
                sx = cx;
                sy = cy;
                points.push((cx, cy));
            }
            CommandKind::LineTo => {
                cx = ox + v[0];
                cy = oy + v[1];
                points.push((cx, cy));
            }
            CommandKind::HorizontalTo => {
                cx = ox + v[0];
                points.push((cx, cy));
            }
            CommandKind::VerticalTo => {
                cy = oy + v[0];
                points.push((cx, cy));
            }
            CommandKind::CubicTo => {
                let p = [(cx, cy), (ox + v[0], oy + v[1]), (ox + v[2], oy + v[3]), (ox + v[4], oy + v[5])];
                for i in 1..=8 {
                    let t = i as f64 / 8.0;
                    let u = 1.0 - t;
                    points.push((
                        u * u * u * p[0].0 + 3.0 * u * u * t * p[1].0 + 3.0 * u * t * t * p[2].0 + t * t * t * p[3].0,
                        u * u * u * p[0].1 + 3.0 * u * u * t * p[1].1 + 3.0 * u * t * t * p[2].1 + t * t * t * p[3].1,
                    ));
                }
                cx = p[3].0;
                cy = p[3].1;
            }
            CommandKind::QuadTo => {
                let p = [(cx, cy), (ox + v[0], oy + v[1]), (ox + v[2], oy + v[3])];
                for i in 1..=8 {
                    let t = i as f64 / 8.0;
                    let u = 1.0 - t;
                    points.push((
                        u * u * p[0].0 + 2.0 * u * t * p[1].0 + t * t * p[2].0,
                        u * u * p[0].1 + 2.0 * u * t * p[1].1 + t * t * p[2].1,
                    ));
                }
                cx = p[2].0;
                cy = p[2].1;
            }
            CommandKind::Close => {
                cx = sx;
                cy = sy;
                points.push((cx, cy));
            }
        }
    }
    points
}

// Writes points as path data, as a caller of the library does: a step of
// more than five times the mean length is a jump.
fn path_of(points: &[(f64, f64)]) -> String {
    let dist = |a: (f64, f64), b: (f64, f64)| ((b.0 - a.0).powi(2) + (b.1 - a.1).powi(2)).sqrt();
    let mut total = 0.0;
    for i in 1..points.len() {
        total += dist(points[i - 1], points[i]);
    }
    let threshold = if points.len() > 1 { total / (points.len() - 1) as f64 * 5.0 } else { 0.0 };
    let outline: Vec<OutlinePoint> = points
        .iter()
        .enumerate()
        .map(|(i, &(x, y))| OutlinePoint {
            x: format!("{}", x),
            y: format!("{}", y),
            jump: i > 0 && dist(points[i - 1], points[i]) > threshold,
        })
        .collect();
    svg_path_of_points(&outline)
}

#[test]
fn test_svg_path_of_contour_square() {
    let square = vec![(0.0, 0.0), (1.0, 0.0), (1.0, 1.0), (0.0, 0.0)];
    assert_eq!(path_of(&square), "M 0 0 L 1 0 L 1 1 L 0 0");
}

#[test]
fn test_svg_path_of_contour_empty() {
    assert_eq!(path_of(&[]), "");
    assert_eq!(svg_path_of_points(&vec![]), "");
}

#[test]
fn path_round_trip_of_the_square() {
    let square = vec![(0.0, 0.0), (1.0, 0.0), (1.0, 1.0), (0.0, 0.0)];
    let path = path_of(&square);
    assert_eq!(points_of(&path), square);
}

#[test]
fn outline_moves_across_a_jump() {
    let points = vec![
        OutlinePoint { x: "0".to_string(), y: "0".to_string(), jump: true },
        OutlinePoint { x: "1".to_string(), y: "0.5".to_string(), jump: false },
        OutlinePoint { x: "90".to_string(), y: "-3".to_string(), jump: true },
        OutlinePoint { x: "91".to_string(), y: "-3".to_string(), jump: false },
    ];
    assert_eq!(svg_path_of_points(&points), "M 0 0 L 1 0.5 M 90 -3 L 91 -3");
    let two = vec![(0.0, 0.0), (7.0, 0.0)];
    assert_eq!(path_of(&two), "M 0 0 L 7 0");
    let far = vec![(0.0, 0.0), (1.0, 0.0), (2.0, 0.0), (3.0, 0.0), (4.0, 0.0), (5.0, 0.0), (6.0, 0.0), (100.0, 0.0), (101.0, 0.0)];
    assert_eq!(path_of(&far), "M 0 0 L 1 0 L 2 0 L 3 0 L 4 0 L 5 0 L 6 0 M 100 0 L 101 0");
}

#[test]
fn tokenizer_cuts_letters_and_numbers() {
    assert_eq!(tokenize_svg_path("M 0 0 L 1 0"), strings(&["M", "0", "0", "L", "1", "0"]));
    assert_eq!(tokenize_svg_path("M10,20L-3.5.25"), strings(&["M", "10", "20", "L", "-3.5.25"]));
    assert_eq!(tokenize_svg_path("M1-2-3"), strings(&["M", "1", "-2", "-3"]));
    assert_eq!(tokenize_svg_path(""), Vec::<String>::new());
    assert_eq!(tokenize_svg_path(" ,\t\n"), Vec::<String>::new());
    assert_eq!(tokenize_svg_path("zZ"), strings(&["z", "Z"]));
    assert_eq!(tokenize_svg_path("1e5"), strings(&["1", "e", "5"]));
}

#[test]
fn tokenizer_drops_what_starts_no_token() {
    // A minus sign with nothing behind it, and a character of no class.
    assert_eq!(tokenize_svg_path("M - 1"), strings(&["M", "1"]));
    assert_eq!(tokenize_svg_path("M 1 + 2 # 3"), strings(&["M", "1", "2", "3"]));
    assert_eq!(tokenize_svg_path("--1"), strings(&["-1"]));
    assert_eq!(tokenize_svg_path("-"), Vec::<String>::new());
}

#[test]
fn tokenizer_follows_unicode_classes() {
    // A no-break space sets tokens apart; a letter of any script is a token.
    assert_eq!(tokenize_svg_path("M\u{a0}1\u{2003}2"), strings(&["M", "1", "2"]));
    assert_eq!(tokenize_svg_path("é1"), strings(&["é", "1"]));
    let classified = classify_chars("a 1");
    assert_eq!(
        classified,
        vec![
            ClassifiedChar { ch: 'a', whitespace: false, alphabetic: true },
            ClassifiedChar { ch: ' ', whitespace: true, alphabetic: false },
            ClassifiedChar { ch: '1', whitespace: false, alphabetic: false },
        ]
    );
}

#[test]
fn tokenizer_goes_by_the_classes_it_is_given() {
    // A digit marked as a letter is a token of its own; one marked as white
    // space is dropped.
    let marked = vec![
        ClassifiedChar { ch: '1', whitespace: false, alphabetic: true },
        ClassifiedChar { ch: '2', whitespace: true, alphabetic: false },
        ClassifiedChar { ch: '3', whitespace: false, alphabetic: false },
        ClassifiedChar { ch: '4', whitespace: false, alphabetic: true },
    ];
    // Inside a number only the character counts, not its class.
    assert_eq!(tokens_of_classified(&marked), strings(&["1", "34"]));
}

#[test]
fn numbers_are_recognised() {
    for good in ["0", "12", "-7", "1.5", "-0.25", ".5", "5.", "-.5", "007"] {
        assert!(is_number_token(good), "{}", good);
        assert!(good.parse::<f64>().is_ok(), "{}", good);
    }
    for bad in ["", "-", ".", "-.", "1.2.3", "..", "1-2", "--1", "+1", "1e5", "a", "1 ", "M"] {
        assert!(!is_number_token(bad), "{}", bad);
    }
    assert!(chars_are_number(&vec!['-', '4', '.', '2']));
    assert!(!chars_are_number(&vec!['4', '-']));
    let info = token_info("-1.5");
    assert!(info.number && info.starts_number && info.command.is_none());
    let info = token_info("m");
    assert!(!info.number && !info.starts_number);
    assert_eq!(info.command, Some((CommandKind::MoveTo, true)));
    let info = token_info(".");
    assert!(!info.number && info.starts_number);
}

#[test]
fn commands_of_the_square() {
    let commands = commands_of_svg_path("M 0 0 L 1 0 L 1 1 L 0 0").unwrap();
    assert_eq!(
        shape(&commands),
        vec![
            (CommandKind::MoveTo, false, strings(&["0", "0"])),
            (CommandKind::LineTo, false, strings(&["1", "0"])),
            (CommandKind::LineTo, false, strings(&["1", "1"])),
            (CommandKind::LineTo, false, strings(&["0", "0"])),
        ]
    );
}

#[test]
fn commands_repeat_and_skip() {
    // Further pairs after a move are lines of the same form.
    let commands = commands_of_svg_path("m 1 2 3 4 5 6 z").unwrap();
    assert_eq!(
        shape(&commands),
        vec![
            (CommandKind::MoveTo, true, strings(&["1", "2"])),
            (CommandKind::LineTo, true, strings(&["3", "4"])),
            (CommandKind::LineTo, true, strings(&["5", "6"])),
            (CommandKind::Close, false, vec![]),
        ]
    );
    // Horizontal and vertical take one number; what follows is skipped.
    let commands = commands_of_svg_path("H 5 6 v -2 X 9 A").unwrap();
    assert_eq!(
        shape(&commands),
        vec![
            (CommandKind::HorizontalTo, false, strings(&["5"])),
            (CommandKind::VerticalTo, true, strings(&["-2"])),
        ]
    );
    // A curve with nothing behind it draws nothing; one with all its
    // numbers is read, and a further group is owed in full.
    assert_eq!(commands_of_svg_path("C").unwrap().len(), 0);
    assert_eq!(commands_of_svg_path("M 1 2 q z").unwrap().len(), 2);
    let commands = commands_of_svg_path("C 1 2 3 4 5 6").unwrap();
    assert_eq!(
        shape(&commands),
        vec![(CommandKind::CubicTo, false, strings(&["1", "2", "3", "4", "5", "6"]))]
    );
    assert_eq!(
        commands_of_svg_path("C 1 2 3 4 5 6 7 8 9").unwrap_err(),
        PathError::MissingOperand { at: 10 }
    );
    assert_eq!(
        commands_of_svg_path("Q 1 2 3 4 5 6 7").unwrap_err(),
        PathError::MissingOperand { at: 8 }
    );
    assert_eq!(commands_of_svg_path("c 1 2 3").unwrap_err(), PathError::MissingOperand { at: 4 });
    assert_eq!(commands_of_svg_path("q 1").unwrap_err(), PathError::MissingOperand { at: 2 });
    assert_eq!(
        commands_of_svg_path("C 1 2 3 4 5 6 7 8 9 Q 1 2 3").unwrap_err(),
        PathError::MalformedNumber { at: 10 }
    );
    let commands = commands_of_svg_path("c 1 2 3 4 5 6 1 2 3 4 5 6 q 0 0 1 1").unwrap();
    assert_eq!(commands.len(), 3);
    assert!(commands[1].relative && commands[1].kind == CommandKind::CubicTo);
    assert_eq!(commands_of_tokens(&vec![]).unwrap().len(), 0);
}

#[test]
fn commands_report_the_first_error() {
    assert_eq!(commands_of_svg_path("M 1").unwrap_err(), PathError::MissingOperand { at: 2 });
    assert_eq!(commands_of_svg_path("M").unwrap_err(), PathError::MissingOperand { at: 1 });
    assert_eq!(commands_of_svg_path("M 1 L").unwrap_err(), PathError::MalformedNumber { at: 2 });
    assert_eq!(commands_of_svg_path("M 1 2 3").unwrap_err(), PathError::MissingOperand { at: 4 });
    assert_eq!(commands_of_svg_path("L 1.2.3 4").unwrap_err(), PathError::MalformedNumber { at: 1 });
    assert_eq!(commands_of_svg_path("H").unwrap_err(), PathError::MissingOperand { at: 1 });
    assert_eq!(commands_of_svg_path("V z").unwrap_err(), PathError::MalformedNumber { at: 1 });
    assert_eq!(
        commands_of_svg_path("C 1 2 3 . 5 6").unwrap_err(),
        PathError::MalformedNumber { at: 4 }
    );
    assert_eq!(
        commands_of_tokens(&strings(&["M", "1", "2", "3", "x"])).unwrap_err(),
        PathError::MalformedNumber { at: 4 }
    );
    assert_eq!(
        PathError::MissingOperand { at: 12 }.message(),
        "path data ends where number 12 is required"
    );
    assert_eq!(
        PathError::MalformedNumber { at: 0 }.message(),
        "token 0 of the path data is not a number"
    );
}

#[test]
fn curves_are_sampled_at_eight_steps() {
    let points = points_of("M 0 0 Q 4 8 8 0");
    assert_eq!(points.len(), 9);
    assert_eq!(points[0], (0.0, 0.0));
    assert_eq!(points[4], (4.0, 4.0));
    assert_eq!(points[8], (8.0, 0.0));
    let points = points_of("M 1 1 c 0 8 8 8 8 0 z");
    assert_eq!(points.len(), 10);
    assert_eq!(points[4], (5.0, 7.0));
    assert_eq!(points[8], (9.0, 1.0));
    assert_eq!(points[9], (1.0, 1.0));
    let points = points_of("M 1 2 h 3 V 7 l -1 -1 H 0");
    assert_eq!(points, vec![(1.0, 2.0), (4.0, 2.0), (4.0, 7.0), (3.0, 6.0), (0.0, 6.0)]);
}

#[test]
fn path_data_is_found_in_a_document() {
    let doc = "<svg><path d=\"M 0 0 L 1 1\"/><path fill=\"x\" d=\"M 2 2\"/></svg>";
    assert_eq!(path_data_of_svg(doc), strings(&["M 0 0 L 1 1", "M 2 2"]));
    assert_eq!(path_data_of_svg("<svg/>"), Vec::<String>::new());
    // An attribute that is never closed holds nothing; `id=` is no `d=`.
    assert_eq!(path_data_of_svg("<path id=\"a\" d=\"M 1"), Vec::<String>::new());
    assert_eq!(path_data_of_svg("<path d=\"\"/>"), strings(&[""]));
    // An opening inside a value counts: it ends at the next quote.
    assert_eq!(path_data_of_svg(" d=\" d=\"x\""), strings(&[" d=", "x"]));
}

#[test]
fn white_space_is_what_the_list_says() {
    let listed = |c: char| {
        matches!(
            c,
            '\u{9}'..='\u{d}'
                | ' '
                | '\u{85}'
                | '\u{a0}'
                | '\u{1680}'
                | '\u{2000}'..='\u{200a}'
                | '\u{2028}'
                | '\u{2029}'
                | '\u{202f}'
                | '\u{205f}'
                | '\u{3000}'
        )
    };
    let all: String = (0..=0x10ffff_u32).filter_map(char::from_u32).collect();
    let classified = classify_chars(&all);
    assert_eq!(classified.len(), 0x110000 - 0x800);
    for c in &classified {
        assert_eq!(c.whitespace, listed(c.ch), "{:?}", c.ch);
        assert_eq!(c.alphabetic, c.ch.is_alphabetic(), "{:?}", c.ch);
    }
    // Each kind of white space sets two numbers apart.
    for c in ['\t', '\n', '\u{b}', '\u{c}', '\r', ' ', '\u{85}', '\u{2028}', '\u{3000}'] {
        assert_eq!(tokenize_svg_path(&format!("1{}2", c)), strings(&["1", "2"]));
    }
}
