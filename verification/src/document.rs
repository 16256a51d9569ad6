//! Finding the path data in a vector graphics document.
//!
//! Path data is the value of an attribute `d`: it begins behind the four
//! characters blank, `d`, `=`, double quote, and ends before the next double
//! quote. An attribute whose closing quote is missing holds no path data.

use vstd::prelude::*;
use crate::strings::{char_at, collect_chars, string_of_chars, texts};

verus! {

/// Whether the four characters that open an attribute `d` stand at `m`.
pub open spec fn opens_at(s: Seq<char>, m: int) -> bool {
    &&& 0 <= m
    &&& m + 4 <= s.len()
    &&& s[m] == ' '
    &&& s[m + 1] == 'd'
    &&& s[m + 2] == '='
    &&& s[m + 3] == '"'
}

/// The first position at or after `k` that holds a double quote, or the
/// length of `s` if there is none.
pub open spec fn quote_from(s: Seq<char>, k: int) -> int
    decreases s.len() - k,
{
    if 0 <= k < s.len() && s[k] != '"' {
        quote_from(s, k + 1)
    } else {
        k
    }
}

/// The path data of the attributes that open at or after `m`, in order.
pub open spec fn path_data_from(s: Seq<char>, m: int) -> Seq<Seq<char>>
    decreases s.len() - m,
{
    if m < 0 || m >= s.len() {
        Seq::empty()
    } else if opens_at(s, m) && m + 4 <= quote_from(s, m + 4) < s.len() {
        seq![s.subrange(m + 4, quote_from(s, m + 4))] + path_data_from(s, m + 1)
    } else {
        path_data_from(s, m + 1)
    }
}

/// The path data of every attribute `d` of the document `s`, in order.
pub open spec fn path_data(s: Seq<char>) -> Seq<Seq<char>> {
    path_data_from(s, 0)
}

/// Finds the path data of every attribute `d` of `content`.
pub fn path_data_of_svg(content: &str) -> (out: Vec<String>)
    ensures
        texts(out@) == path_data(content@),
{
    let chars = collect_chars(content);
    let n = chars.len();
    let mut out: Vec<String> = Vec::new();
    let mut m: usize = 0;
    assert(texts(out@) + path_data_from(chars@, 0) =~= path_data(content@));
    while m < n
        invariant
            m <= n,
            n == chars.len(),
            chars@ == content@,
            path_data(content@) == texts(out@) + path_data_from(chars@, m as int),
        decreases n - m,
    {
        if n - m >= 4 && char_at(&chars, m) == ' ' && char_at(&chars, m + 1) == 'd' && char_at(
            &chars,
            m + 2,
        ) == '=' && char_at(&chars, m + 3) == '"' {
            let mut e: usize = m + 4;
            while e < n && char_at(&chars, e) != '"'
                invariant
                    m + 4 <= e <= n,
                    n == chars.len(),
                    quote_from(chars@, m + 4) == quote_from(chars@, e as int),
                decreases n - e,
            {
                e += 1;
            }
            if e < n {
                let ghost before = out@;
                let d = string_of_chars(&chars, m + 4, e);
                out.push(d);
                proof {
                    assert(texts(out@) =~= texts(before) + seq![
                        chars@.subrange(m + 4, e as int),
                    ]);
                    assert(texts(before) + (seq![chars@.subrange(m + 4, e as int)]
                        + path_data_from(chars@, m + 1)) =~= texts(out@) + path_data_from(
                        chars@,
                        m + 1,
                    ));
                }
            }
        }
        m += 1;
    }
    assert(texts(out@) + Seq::<Seq<char>>::empty() =~= texts(out@));
    out
}

} // verus!
