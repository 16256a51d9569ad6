//! Setting the glyphs of a text side by side.
//!
//! A font says which glyph draws a character and how far the pen advances
//! behind it. Whoever reads the font hands over, for each character of the
//! text, what the font said. A character without a glyph is left out. Each
//! glyph is placed where the advances of the glyphs before it end; a glyph
//! without an advance moves the pen by nothing.

use vstd::prelude::*;

verus! {

/// What a font says of one character that it can draw: the number of the
/// glyph, and how far the pen advances behind it, if the font says so.
#[derive(Clone, Copy, Debug, PartialEq, Eq)]
pub struct Lookup {
    pub glyph: u16,
    pub advance: Option<u16>,
}

/// A glyph and the place where it is drawn.
#[derive(Clone, Copy, Debug, PartialEq, Eq)]
pub struct PlacedGlyph {
    pub glyph: u16,
    /// How far to the right of the start of the text the glyph begins.
    pub x_offset: u128,
}

/// How far the pen moves for a character with the lookup `lookup`: by the
/// advance of its glyph, and by nothing where glyph or advance is missing.
pub open spec fn pen_step(lookup: Option<Lookup>) -> int {
    match lookup {
        Some(l) => match l.advance {
            Some(a) => a as int,
            None => 0,
        },
        None => 0,
    }
}

/// Where the pen stands behind the first `n` characters.
pub open spec fn pen_after(lookups: Seq<Option<Lookup>>, n: int) -> int
    decreases n,
{
    if n <= 0 {
        0
    } else {
        pen_after(lookups, n - 1) + pen_step(lookups[n - 1])
    }
}

/// The glyphs of the first `n` characters, each where the pen stands when
/// its character is reached. A character without a glyph is left out.
pub open spec fn placed_upto(lookups: Seq<Option<Lookup>>, n: int) -> Seq<PlacedGlyph>
    decreases n,
{
    if n <= 0 {
        Seq::empty()
    } else {
        match lookups[n - 1] {
            Some(l) => placed_upto(lookups, n - 1).push(
                PlacedGlyph { glyph: l.glyph, x_offset: pen_after(lookups, n - 1) as u128 },
            ),
            None => placed_upto(lookups, n - 1),
        }
    }
}

/// The glyphs of a line whose characters have the lookups `lookups`.
pub open spec fn placed_line(lookups: Seq<Option<Lookup>>) -> Seq<PlacedGlyph> {
    placed_upto(lookups, lookups.len() as int)
}

/// The pen never moves back, and by no more than the largest advance for
/// each character; at most one glyph is placed for each character.
pub proof fn lemma_pen_bound(lookups: Seq<Option<Lookup>>, n: int)
    requires
        0 <= n <= lookups.len(),
    ensures
        0 <= pen_after(lookups, n) <= n * 0xffff,
        placed_upto(lookups, n).len() <= n,
    decreases n,
{
    if n > 0 {
        lemma_pen_bound(lookups, n - 1);
    }
}

/// Sets side by side the glyphs of a line whose characters have the lookups
/// `lookups`.
pub fn place_lookups(lookups: &Vec<Option<Lookup>>) -> (placed: Vec<PlacedGlyph>)
    ensures
        placed@ == placed_line(lookups@),
{
    let mut placed: Vec<PlacedGlyph> = Vec::new();
    let mut pen: u128 = 0;
    let mut i: usize = 0;
    while i < lookups.len()
        invariant
            i <= lookups.len(),
            pen == pen_after(lookups@, i as int),
            placed@ == placed_upto(lookups@, i as int),
        decreases lookups.len() - i,
    {
        proof {
            lemma_pen_bound(lookups@, i as int);
            assert(i * 0xffff <= usize::MAX * 0xffff) by (nonlinear_arith)
                requires
                    i <= usize::MAX,
            ;
        }
        match &lookups[i] {
            Some(l) => {
                placed.push(PlacedGlyph { glyph: l.glyph, x_offset: pen });
                match l.advance {
                    Some(a) => {
                        pen = pen + a as u128;
                    },
                    None => {},
                }
            },
            None => {},
        }
        i += 1;
    }
    placed
}

} // verus!
