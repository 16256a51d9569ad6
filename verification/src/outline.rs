//! Writing a point sequence as path data.
//!
//! The path moves to the first point and draws a line to each further
//! point, except across a jump: there it moves, so that two separate
//! outlines are not joined by a stroke. Which steps are jumps is decided by
//! whoever measured the distances; coordinates arrive as written numbers.

use vstd::prelude::*;
use vstd::string::*;

verus! {

/// One point of an outline: its coordinates as text, and whether the step
/// from the point before it is a jump.
#[derive(Clone, Debug)]
pub struct OutlinePoint {
    pub x: String,
    pub y: String,
    pub jump: bool,
}

/// The command that brings the pen to `p`: a move if `moves`, else a line.
pub open spec fn step_text(p: OutlinePoint, moves: bool) -> Seq<char> {
    (if moves {
        "M "@
    } else {
        "L "@
    }) + p.x@ + " "@ + p.y@
}

/// The path data of the first `n` points of `points`.
pub open spec fn path_text_upto(points: Seq<OutlinePoint>, n: int) -> Seq<char>
    decreases n,
{
    if n <= 0 {
        Seq::empty()
    } else if n == 1 {
        step_text(points[0], true)
    } else {
        path_text_upto(points, n - 1) + " "@ + step_text(points[n - 1], points[n - 1].jump)
    }
}

/// The path data of `points`: empty for no point; else the steps set apart
/// by single blanks, the first of them a move.
pub open spec fn path_text(points: Seq<OutlinePoint>) -> Seq<char> {
    path_text_upto(points, points.len() as int)
}

fn push_step(out: &mut String, p: &OutlinePoint, moves: bool)
    ensures
        final(out)@ == old(out)@ + step_text(*p, moves),
{
    let ghost base = out@;
    if moves {
        out.append("M ");
    } else {
        out.append("L ");
    }
    out.append(p.x.as_str());
    out.append(" ");
    out.append(p.y.as_str());
    assert(out@ =~= base + step_text(*p, moves));
}

/// Writes `points` as path data.
pub fn svg_path_of_points(points: &Vec<OutlinePoint>) -> (path: String)
    ensures
        path@ == path_text(points@),
{
    let mut path = String::new();
    if points.len() == 0 {
        return path;
    }
    push_step(&mut path, &points[0], true);
    assert(path@ =~= path_text_upto(points@, 1));
    let mut i: usize = 1;
    while i < points.len()
        invariant
            1 <= i <= points.len(),
            path@ == path_text_upto(points@, i as int),
        decreases points.len() - i,
    {
        let ghost before = path@;
        path.append(" ");
        push_step(&mut path, &points[i], points[i].jump);
        i += 1;
        assert(path@ =~= path_text_upto(points@, i as int));
    }
    path
}

} // verus!
