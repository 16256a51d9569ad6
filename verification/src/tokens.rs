//! Cutting path data into tokens.
//!
//! Path data is a run of one-letter commands and decimal numbers, set apart
//! by blanks and commas. A letter is a token by itself. A number is an
//! optional minus sign followed by the longest run of digits and points; a
//! minus sign with nothing after it is dropped, and so is any character that
//! starts neither a separator, nor a letter, nor a number.

use vstd::prelude::*;
use crate::strings::{char_at, collect_chars, is_digit, texts};

verus! {

/// Whether `c` is white space: one of the code points to which Unicode
/// gives the property `White_Space`.
pub open spec fn is_whitespace_char(c: char) -> bool {
    ||| ('\u{9}' <= c && c <= '\u{d}')
    ||| c == ' '
    ||| c == '\u{85}'
    ||| c == '\u{a0}'
    ||| c == '\u{1680}'
    ||| ('\u{2000}' <= c && c <= '\u{200a}')
    ||| c == '\u{2028}'
    ||| c == '\u{2029}'
    ||| c == '\u{202f}'
    ||| c == '\u{205f}'
    ||| c == '\u{3000}'
}

/// Whether `char::is_alphabetic` of the standard library holds of `c`, that
/// is whether Unicode gives `c` the property `Alphabetic`.
pub uninterp spec fn is_alphabetic_char(c: char) -> bool;

/// `char::is_whitespace` says whether a character has the Unicode property
/// `White_Space`; `is_whitespace_char` lists the code points that have it.
pub assume_specification[ char::is_whitespace ](c: char) -> (b: bool)
    ensures
        b == is_whitespace_char(c),
;

/// `char::is_alphabetic` depends on the character alone; its answer is
/// given the name `is_alphabetic_char`.
pub assume_specification[ char::is_alphabetic ](c: char) -> (b: bool)
    ensures
        b == is_alphabetic_char(c),
;

/// A character of path data together with the two Unicode properties that
/// decide how it is read.
#[derive(Clone, Copy, Debug, PartialEq, Eq)]
pub struct ClassifiedChar {
    pub ch: char,
    pub whitespace: bool,
    pub alphabetic: bool,
}

/// The classification that the standard library gives to `c`.
pub open spec fn classified(c: char) -> ClassifiedChar {
    ClassifiedChar { ch: c, whitespace: is_whitespace_char(c), alphabetic: is_alphabetic_char(c) }
}

/// The classification of every character of `text`.
pub open spec fn classified_text(text: Seq<char>) -> Seq<ClassifiedChar> {
    Seq::new(text.len(), |i: int| classified(text[i]))
}

/// Whether `c` can stand inside a number: a digit or the decimal point.
pub open spec fn is_number_body(c: char) -> bool {
    is_digit(c) || c == '.'
}

/// Whether `c` sets tokens apart: white space or a comma.
pub open spec fn is_separator(c: ClassifiedChar) -> bool {
    c.whitespace || c.ch == ','
}

/// The first position at or after `pos` whose character cannot stand inside
/// a number, or the length of `s` if there is none.
pub open spec fn number_end(s: Seq<ClassifiedChar>, pos: int) -> int
    decreases s.len() - pos,
{
    if 0 <= pos < s.len() && is_number_body(s[pos].ch) {
        number_end(s, pos + 1)
    } else {
        pos
    }
}

/// The characters of `s` from `from` up to `to`, without their classification.
pub open spec fn chars_between(s: Seq<ClassifiedChar>, from: int, to: int) -> Seq<char> {
    Seq::new((to - from) as nat, |i: int| s[from + i].ch)
}

/// The tokens of `s` that start at or after `pos`.
pub open spec fn tokens_from(s: Seq<ClassifiedChar>, pos: int) -> Seq<Seq<char>>
    decreases s.len() - pos,
{
    if pos < 0 || pos >= s.len() {
        Seq::empty()
    } else if is_separator(s[pos]) {
        tokens_from(s, pos + 1)
    } else if s[pos].alphabetic {
        seq![seq![s[pos].ch]] + tokens_from(s, pos + 1)
    } else {
        let body = if s[pos].ch == '-' {
            pos + 1
        } else {
            pos
        };
        let end = number_end(s, body);
        if body < end <= s.len() {
            seq![chars_between(s, pos, end)] + tokens_from(s, end)
        } else {
            tokens_from(s, pos + 1)
        }
    }
}

/// The tokens of classified path data.
pub open spec fn tokens_of(s: Seq<ClassifiedChar>) -> Seq<Seq<char>> {
    tokens_from(s, 0)
}

pub proof fn lemma_number_end_bounds(s: Seq<ClassifiedChar>, pos: int)
    requires
        0 <= pos <= s.len(),
    ensures
        pos <= number_end(s, pos) <= s.len(),
        forall|i: int| pos <= i < number_end(s, pos) ==> is_number_body(#[trigger] s[i].ch),
        number_end(s, pos) < s.len() ==> !is_number_body(s[number_end(s, pos)].ch),
    decreases s.len() - pos,
{
    if pos < s.len() && is_number_body(s[pos].ch) {
        lemma_number_end_bounds(s, pos + 1);
    }
}

fn char_is_number_body(c: char) -> (b: bool)
    ensures
        b == is_number_body(c),
{
    ('0' <= c && c <= '9') || c == '.'
}

/// Classifies every character of `path`.
pub fn classify_chars(path: &str) -> (out: Vec<ClassifiedChar>)
    ensures
        out@ == classified_text(path@),
{
    let chars = collect_chars(path);
    let mut out: Vec<ClassifiedChar> = Vec::new();
    let mut i: usize = 0;
    while i < chars.len()
        invariant
            i <= chars.len(),
            chars@ == path@,
            out.len() == i,
            forall|j: int| 0 <= j < i ==> out@[j] == classified(#[trigger] path@[j]),
        decreases chars.len() - i,
    {
        let c = char_at(&chars, i);
        let whitespace = c.is_whitespace();
        let alphabetic = c.is_alphabetic();
        out.push(ClassifiedChar { ch: c, whitespace, alphabetic });
        i += 1;
    }
    assert(out@ =~= classified_text(path@));
    out
}

/// Cuts classified path data into tokens.
pub fn tokens_of_classified(s: &Vec<ClassifiedChar>) -> (tokens: Vec<String>)
    ensures
        texts(tokens@) == tokens_of(s@),
{
    let mut tokens: Vec<String> = Vec::new();
    let mut pos: usize = 0;
    while pos < s.len()
        invariant
            pos <= s.len(),
            tokens_of(s@) == texts(tokens@) + tokens_from(s@, pos as int),
        decreases s.len() - pos,
    {
        let c = s[pos];
        if c.whitespace || c.ch == ',' {
            pos += 1;
        } else if c.alphabetic {
            let mut t = String::new();
            t.push(c.ch);
            let ghost before = tokens@;
            tokens.push(t);
            proof {
                assert(t@ =~= seq![c.ch]);
                assert(texts(tokens@) =~= texts(before) + seq![seq![c.ch]]);
                assert(tokens_of(s@) =~= texts(tokens@) + tokens_from(s@, pos + 1));
            }
            pos += 1;
        } else {
            let body: usize = if c.ch == '-' {
                pos + 1
            } else {
                pos
            };
            let mut end: usize = body;
            while end < s.len() && char_is_number_body(s[end].ch)
                invariant
                    body <= end <= s.len(),
                    number_end(s@, body as int) == number_end(s@, end as int),
                decreases s.len() - end,
            {
                end += 1;
            }
            proof {
                lemma_number_end_bounds(s@, end as int);
            }
            if end > body {
                let mut t = String::new();
                let mut k: usize = pos;
                while k < end
                    invariant
                        pos <= k <= end <= s.len(),
                        t@ == chars_between(s@, pos as int, k as int),
                    decreases end - k,
                {
                    t.push(s[k].ch);
                    k += 1;
                    assert(t@ =~= chars_between(s@, pos as int, k as int));
                }
                let ghost before = tokens@;
                tokens.push(t);
                proof {
                    assert(texts(tokens@) =~= texts(before) + seq![
                        chars_between(s@, pos as int, end as int),
                    ]);
                    assert(tokens_of(s@) =~= texts(tokens@) + tokens_from(s@, end as int));
                }
                pos = end;
            } else {
                pos += 1;
            }
        }
    }
    assert(texts(tokens@) =~= tokens_of(s@));
    tokens
}

/// Cuts path data into tokens: the characters are classified by the
/// standard library, then read as `tokens_of` says.
pub fn tokenize_svg_path(path: &str) -> (tokens: Vec<String>)
    ensures
        texts(tokens@) == tokens_of(classified_text(path@)),
{
    let s = classify_chars(path);
    tokens_of_classified(&s)
}

} // verus!
