//! Pieces of page text that every rendering shares: escaping, lists of
//! numbers and strings as script literals, the schedule as text, and the
//! line that shows the command a page came from.

use vstd::prelude::*;
use vstd::string::*;
use crate::schedule::HarmonicRange;
use crate::strings::{collect_chars, decimal_text, push_decimal, texts};
use crate::visibility::WhenToShow;

verus! {

/// What stands for the character `c` in page text.
pub open spec fn escape_char(c: char) -> Seq<char> {
    if c == '&' {
        "&amp;"@
    } else if c == '<' {
        "&lt;"@
    } else if c == '>' {
        "&gt;"@
    } else if c == '"' {
        "&quot;"@
    } else {
        seq![c]
    }
}

/// `s` with each of `&`, `<`, `>` and `"` replaced by its entity.
pub open spec fn escaped_text(s: Seq<char>) -> Seq<char>
    decreases s.len(),
{
    if s.len() == 0 {
        Seq::empty()
    } else {
        escaped_text(s.drop_last()) + escape_char(s.last())
    }
}

/// Replaces each of `&`, `<`, `>` and `"` by its entity.
pub fn html_escape(s: &str) -> (out: String)
    ensures
        out@ == escaped_text(s@),
{
    let chars = collect_chars(s);
    let mut out = String::new();
    let mut i: usize = 0;
    while i < chars.len()
        invariant
            i <= chars.len(),
            chars@ == s@,
            out@ == escaped_text(s@.subrange(0, i as int)),
        decreases chars.len() - i,
    {
        let c = chars[i];
        let ghost before = out@;
        if c == '&' {
            out.append("&amp;");
        } else if c == '<' {
            out.append("&lt;");
        } else if c == '>' {
            out.append("&gt;");
        } else if c == '"' {
            out.append("&quot;");
        } else {
            out.push(c);
            assert(out@ =~= before + seq![c]);
        }
        i += 1;
        proof {
            let now = s@.subrange(0, i as int);
            assert(now.drop_last() =~= s@.subrange(0, i - 1));
            assert(now.last() == c);
        }
    }
    assert(s@.subrange(0, i as int) =~= s@);
    out
}

/// The first `n` numbers of `v` in decimal, set apart by commas.
pub open spec fn decimals_upto(v: Seq<usize>, n: int) -> Seq<char>
    decreases n,
{
    if n <= 0 {
        Seq::empty()
    } else if n == 1 {
        decimal_text(v[0] as nat)
    } else {
        decimals_upto(v, n - 1) + ","@ + decimal_text(v[n - 1] as nat)
    }
}

/// The numbers of `v` in decimal, set apart by commas.
pub open spec fn decimals_text(v: Seq<usize>) -> Seq<char> {
    decimals_upto(v, v.len() as int)
}

/// The numbers of `v` as an array literal of a script: `[1,2,3]`.
pub open spec fn js_array_text(v: Seq<usize>) -> Seq<char> {
    "["@ + decimals_text(v) + "]"@
}

/// Appends the numbers of `v` in decimal, set apart by commas.
pub fn push_decimals(out: &mut String, v: &Vec<usize>)
    ensures
        final(out)@ == old(out)@ + decimals_text(v@),
{
    let ghost base = out@;
    let mut i: usize = 0;
    assert(out@ =~= base + decimals_upto(v@, 0));
    while i < v.len()
        invariant
            i <= v.len(),
            out@ == base + decimals_upto(v@, i as int),
        decreases v.len() - i,
    {
        if i > 0 {
            out.append(",");
        }
        push_decimal(out, v[i]);
        i += 1;
        assert(out@ =~= base + decimals_upto(v@, i as int));
    }
}

/// Writes the numbers of `v` as an array literal of a script.
pub fn format_js_array(v: &Vec<usize>) -> (out: String)
    ensures
        out@ == js_array_text(v@),
{
    let mut out = String::from_str("[");
    push_decimals(&mut out, v);
    out.append("]");
    out
}

/// The first `n` strings of `v`, each between double quotes, set apart by
/// commas. Nothing inside a string is escaped.
pub open spec fn quoted_upto(v: Seq<Seq<char>>, n: int) -> Seq<char>
    decreases n,
{
    if n <= 0 {
        Seq::empty()
    } else if n == 1 {
        "\""@ + v[0] + "\""@
    } else {
        quoted_upto(v, n - 1) + ","@ + "\""@ + v[n - 1] + "\""@
    }
}

/// The strings of `v` as an array literal of a script: `["a","b"]`.
pub open spec fn string_array_text(v: Seq<Seq<char>>) -> Seq<char> {
    "["@ + quoted_upto(v, v.len() as int) + "]"@
}

/// Writes the strings of `v` as an array literal of a script. The strings
/// are taken as they are: a quote inside one is not escaped.
pub fn serde_json_string_array(v: &Vec<String>) -> (out: String)
    ensures
        out@ == string_array_text(texts(v@)),
{
    let mut out = String::from_str("[");
    let ghost all = texts(v@);
    let mut i: usize = 0;
    assert(out@ =~= "["@ + quoted_upto(all, 0));
    while i < v.len()
        invariant
            i <= v.len(),
            all == texts(v@),
            out@ == "["@ + quoted_upto(all, i as int),
        decreases v.len() - i,
    {
        if i > 0 {
            out.append(",");
        }
        out.append("\"");
        out.append(v[i].as_str());
        out.append("\"");
        i += 1;
        assert(out@ =~= "["@ + quoted_upto(all, i as int));
    }
    out.append("]");
    out
}

/// One range as the four numbers `from step to speed`, set apart by `sep`.
pub open spec fn range_text(r: HarmonicRange, sep: Seq<char>) -> Seq<char> {
    decimal_text(r.from as nat) + sep + decimal_text(r.step as nat) + sep + decimal_text(
        r.to as nat,
    ) + sep + r.speed@
}

fn push_range(out: &mut String, r: &HarmonicRange, sep: &str)
    ensures
        final(out)@ == old(out)@ + range_text(*r, sep@),
{
    let ghost base = out@;
    push_decimal(out, r.from);
    out.append(sep);
    push_decimal(out, r.step);
    out.append(sep);
    push_decimal(out, r.to);
    out.append(sep);
    out.append(r.speed.as_str());
    assert(out@ =~= base + range_text(*r, sep@));
}

/// The first `n` ranges as the text that a reader edits: `1 1 10 1 ; 10 5 100 2`.
pub open spec fn steps_upto(ranges: Seq<HarmonicRange>, n: int) -> Seq<char>
    decreases n,
{
    if n <= 0 {
        Seq::empty()
    } else if n == 1 {
        range_text(ranges[0], " "@)
    } else {
        steps_upto(ranges, n - 1) + " ; "@ + range_text(ranges[n - 1], " "@)
    }
}

/// The ranges as the text that a reader edits.
pub open spec fn steps_text(ranges: Seq<HarmonicRange>) -> Seq<char> {
    steps_upto(ranges, ranges.len() as int)
}

/// Writes the ranges as the text that a reader edits.
pub fn steps_string(ranges: &Vec<HarmonicRange>) -> (out: String)
    ensures
        out@ == steps_text(ranges@),
{
    let mut out = String::new();
    let mut i: usize = 0;
    while i < ranges.len()
        invariant
            i <= ranges.len(),
            out@ == steps_upto(ranges@, i as int),
        decreases ranges.len() - i,
    {
        if i > 0 {
            out.append(" ; ");
        }
        push_range(&mut out, &ranges[i], " ");
        i += 1;
        assert(out@ =~= steps_upto(ranges@, i as int));
    }
    out
}

/// The first `n` ranges as array literals of a script, set apart by commas.
pub open spec fn ranges_upto(ranges: Seq<HarmonicRange>, n: int) -> Seq<char>
    decreases n,
{
    if n <= 0 {
        Seq::empty()
    } else if n == 1 {
        "["@ + range_text(ranges[0], ","@) + "]"@
    } else {
        ranges_upto(ranges, n - 1) + ","@ + "["@ + range_text(ranges[n - 1], ","@) + "]"@
    }
}

/// The ranges as an array literal of a script: `[[1,1,10,1],[10,5,100,2]]`.
pub open spec fn ranges_json_text(ranges: Seq<HarmonicRange>) -> Seq<char> {
    "["@ + ranges_upto(ranges, ranges.len() as int) + "]"@
}

/// Writes the ranges as an array literal of a script.
pub fn ranges_json(ranges: &Vec<HarmonicRange>) -> (out: String)
    ensures
        out@ == ranges_json_text(ranges@),
{
    let mut out = String::from_str("[");
    let mut i: usize = 0;
    assert(out@ =~= "["@ + ranges_upto(ranges@, 0));
    while i < ranges.len()
        invariant
            i <= ranges.len(),
            out@ == "["@ + ranges_upto(ranges@, i as int),
        decreases ranges.len() - i,
    {
        if i > 0 {
            out.append(",");
        }
        out.append("[");
        push_range(&mut out, &ranges[i], ",");
        out.append("]");
        i += 1;
        assert(out@ =~= "["@ + ranges_upto(ranges@, i as int));
    }
    out.append("]");
    out
}

/// `true` or `false`, as a script writes it.
pub open spec fn bool_text(b: bool) -> Seq<char> {
    if b {
        "true"@
    } else {
        "false"@
    }
}

/// Writes `b` as a script does.
pub fn bool_str(b: bool) -> (s: &'static str)
    ensures
        s@ == bool_text(b),
{
    if b {
        "true"
    } else {
        "false"
    }
}

/// The attribute that ticks a box, where `on` holds.
pub open spec fn checked_text(on: bool) -> Seq<char> {
    if on {
        " checked"@
    } else {
        ""@
    }
}

/// Writes the attribute that ticks a box, where `on` holds.
pub fn checked_str(on: bool) -> (s: &'static str)
    ensures
        s@ == checked_text(on),
{
    if on {
        " checked"
    } else {
        ""
    }
}

/// The value that a selection box has for `w`.
pub open spec fn select_val_text(w: WhenToShow) -> Seq<char> {
    match w {
        WhenToShow::Always => "always"@,
        WhenToShow::Never => "never"@,
        WhenToShow::Congruence(_) => "every"@,
    }
}

/// The value that a selection box has for `w`.
pub fn when_to_show_select_val(w: &WhenToShow) -> (s: &'static str)
    ensures
        s@ == select_val_text(*w),
{
    match w {
        WhenToShow::Always => "always",
        WhenToShow::Never => "never",
        WhenToShow::Congruence(_) => "every",
    }
}

/// The period that the page offers for `w`: its own, and 2 where it has none.
pub open spec fn every_modulo(w: WhenToShow) -> usize {
    match w {
        WhenToShow::Congruence(c) => c.modulo,
        _ => 2,
    }
}

/// The period that the page offers for `w`.
pub fn when_to_show_every_modulo(w: &WhenToShow) -> (m: usize)
    ensures
        m == every_modulo(*w),
{
    match w {
        WhenToShow::Congruence(c) => c.modulo,
        _ => 2,
    }
}

/// The residues that the page offers for `w`: its own, and 0 alone where it
/// has none.
pub open spec fn every_residues(w: WhenToShow) -> Seq<usize> {
    match w {
        WhenToShow::Congruence(c) => c.residues@,
        _ => seq![0usize],
    }
}

/// The residues that the page offers for `w`.
pub fn when_to_show_every_congruents(w: &WhenToShow) -> (residues: Vec<usize>)
    ensures
        residues@ == every_residues(*w),
{
    let mut residues: Vec<usize> = Vec::new();
    match w {
        WhenToShow::Congruence(c) => {
            let mut i: usize = 0;
            while i < c.residues.len()
                invariant
                    i <= c.residues.len(),
                    residues@ == c.residues@.subrange(0, i as int),
                decreases c.residues.len() - i,
            {
                residues.push(c.residues[i]);
                i += 1;
                assert(residues@ =~= c.residues@.subrange(0, i as int));
            }
            assert(residues@ =~= c.residues@);
        },
        _ => {
            residues.push(0);
            assert(residues@ =~= seq![0usize]);
        },
    }
    residues
}

/// The residues that the page offers for `w`.
pub fn when_to_show_every_remainders(w: &WhenToShow) -> (residues: Vec<usize>)
    ensures
        residues@ == every_residues(*w),
{
    when_to_show_every_congruents(w)
}

/// The attribute that marks an option as chosen, where `on` holds.
pub open spec fn selected_text(on: bool) -> Seq<char> {
    if on {
        " selected"@
    } else {
        ""@
    }
}

fn selected_str(on: bool) -> (s: &'static str)
    ensures
        s@ == selected_text(on),
{
    if on {
        " selected"
    } else {
        ""
    }
}

/// The style that hides the two inputs of a congruence, where `w` is none.
pub open spec fn every_display_text(w: WhenToShow) -> Seq<char> {
    if w is Congruence {
        ""@
    } else {
        "display:none;"@
    }
}

/// The selection box for `w`, with the two inputs of a congruence behind it.
/// `option_label` names the third option and `list_title` the list of
/// residues.
pub open spec fn select_text(
    id: Seq<char>,
    label: Seq<char>,
    w: WhenToShow,
    option_label: Seq<char>,
    list_title: Seq<char>,
) -> Seq<char> {
    "<label>"@ + label + ": <select id=\""@ + id + "\">\n    <option value=\"always\""@
        + selected_text(w is Always) + ">Always</option>\n    <option value=\"never\""@
        + selected_text(w is Never) + ">Never</option>\n    <option value=\"every\""@
        + selected_text(w is Congruence) + ">"@ + option_label
        + "</option>\n  </select><input type=\"number\" id=\""@ + id + "M\" min=\"1\" value=\""@
        + decimal_text(every_modulo(w) as nat) + "\" style=\"width:45px;"@ + every_display_text(w)
        + "\" title=\"modulo\"/>/<input type=\"text\" id=\""@ + id + "R\" value=\""@
        + decimals_text(every_residues(w)) + "\" style=\"width:80px;"@ + every_display_text(w)
        + "\" title=\""@ + list_title + " (comma-separated)\" placeholder=\"0,1,...\"/></label>"@
}

/// Writes the selection box for `w`.
pub fn select_html(id: &str, label: &str, w: &WhenToShow, option_label: &str, list_title: &str)
    -> (out: String)
    ensures
        out@ == select_text(id@, label@, *w, option_label@, list_title@),
{
    let modulo = when_to_show_every_modulo(w);
    let residues = when_to_show_every_congruents(w);
    let (always, never, every) = match w {
        WhenToShow::Always => (true, false, false),
        WhenToShow::Never => (false, true, false),
        WhenToShow::Congruence(_) => (false, false, true),
    };
    let every_display = if every {
        ""
    } else {
        "display:none;"
    };
    let mut out = String::from_str("<label>");
    out.append(label);
    out.append(": <select id=\"");
    out.append(id);
    out.append("\">\n    <option value=\"always\"");
    out.append(selected_str(always));
    out.append(">Always</option>\n    <option value=\"never\"");
    out.append(selected_str(never));
    out.append(">Never</option>\n    <option value=\"every\"");
    out.append(selected_str(every));
    out.append(">");
    out.append(option_label);
    out.append("</option>\n  </select><input type=\"number\" id=\"");
    out.append(id);
    out.append("M\" min=\"1\" value=\"");
    push_decimal(&mut out, modulo);
    out.append("\" style=\"width:45px;");
    out.append(every_display);
    out.append("\" title=\"modulo\"/>/<input type=\"text\" id=\"");
    out.append(id);
    out.append("R\" value=\"");
    push_decimals(&mut out, &residues);
    out.append("\" style=\"width:80px;");
    out.append(every_display);
    out.append("\" title=\"");
    out.append(list_title);
    out.append(" (comma-separated)\" placeholder=\"0,1,...\"/></label>");
    out
}

/// The pieces into which single blanks cut `s`: one more than there are
/// blanks, some of them possibly empty.
pub open spec fn pieces(s: Seq<char>) -> Seq<Seq<char>>
    decreases s.len(),
{
    if s.len() == 0 {
        seq![Seq::empty()]
    } else {
        let before = pieces(s.drop_last());
        if s.last() == ' ' {
            before.push(Seq::empty())
        } else {
            before.drop_last().push(before.last().push(s.last()))
        }
    }
}

/// Cuts `s` at every blank.
pub fn split_at_blanks(s: &str) -> (out: Vec<String>)
    ensures
        texts(out@) == pieces(s@),
{
    let chars = collect_chars(s);
    let mut out: Vec<String> = Vec::new();
    let mut current = String::new();
    let mut i: usize = 0;
    assert(s@.subrange(0, 0) =~= Seq::<char>::empty());
    assert(texts(out@).push(current@) =~= pieces(s@.subrange(0, 0)));
    while i < chars.len()
        invariant
            i <= chars.len(),
            chars@ == s@,
            texts(out@).push(current@) == pieces(s@.subrange(0, i as int)),
        decreases chars.len() - i,
    {
        let c = chars[i];
        let ghost done = texts(out@);
        let ghost word = current@;
        let ghost prefix = s@.subrange(0, i as int);
        proof {
            let now = s@.subrange(0, i + 1);
            assert(now.drop_last() =~= prefix);
            assert(now.last() == c);
            assert(done.push(word).drop_last() =~= done);
        }
        if c == ' ' {
            out.push(current);
            current = String::new();
            assert(texts(out@) =~= done.push(word));
        } else {
            current.push(c);
        }
        i += 1;
    }
    assert(s@.subrange(0, i as int) =~= s@);
    let ghost done = texts(out@);
    out.push(current);
    assert(texts(out@) =~= done.push(current@));
    out
}

/// Whether a piece of a command line is an option: it begins with a minus sign.
pub open spec fn is_flag(piece: Seq<char>) -> bool {
    piece.len() > 0 && piece[0] == '-'
}

/// The first `n` pieces of a command line laid out for reading, and whether
/// a piece that is no option is among them. An option that follows such a
/// piece starts a new line; any other piece follows a blank.
pub open spec fn laid_out(all: Seq<Seq<char>>, n: int) -> (Seq<char>, bool)
    decreases n,
{
    if n <= 0 {
        (Seq::empty(), false)
    } else {
        let (acc, past) = laid_out(all, n - 1);
        let piece = all[n - 1];
        let lead = if is_flag(piece) && past {
            "<br/>  "@
        } else if acc.len() > 0 {
            " "@
        } else {
            ""@
        };
        (acc + lead + piece, past || !is_flag(piece))
    }
}

/// The line that shows the command `command`, escaped and laid out; nothing
/// where there is no command.
pub open spec fn command_div_text(command: Option<Seq<char>>) -> Seq<char> {
    match command {
        Some(c) => {
            let all = pieces(escaped_text(c));
            COMMAND_DIV_OPEN@ + laid_out(all, all.len() as int).0 + COMMAND_DIV_CLOSE@
        },
        None => Seq::empty(),
    }
}

/// The text of an optional string.
pub open spec fn option_text(s: Option<&str>) -> Option<Seq<char>> {
    match s {
        Some(t) => Some(t@),
        None => None,
    }
}

pub const COMMAND_DIV_OPEN: &'static str =
    "<div style=\"margin-bottom:10px;font-family:monospace;font-size:1.1em;color:#888;text-align:left\">Generated by:<br/><code>";

pub const COMMAND_DIV_CLOSE: &'static str = "</code></div>";

/// Writes the line that shows the command `command`.
pub fn command_div(command: Option<&str>) -> (out: String)
    ensures
        out@ == command_div_text(option_text(command)),
{
    match command {
        None => String::new(),
        Some(c) => {
            let escaped = html_escape(c);
            let all = split_at_blanks(escaped.as_str());
            let mut acc = String::new();
            let mut past = false;
            let mut i: usize = 0;
            while i < all.len()
                invariant
                    i <= all.len(),
                    (acc@, past) == laid_out(texts(all@), i as int),
                decreases all.len() - i,
            {
                let piece = all[i].as_str();
                let flag = !piece.is_empty() && piece.get_char(0) == '-';
                assert(flag == is_flag(texts(all@)[i as int]));
                let ghost before = acc@;
                if flag && past {
                    acc.append("<br/>  ");
                } else if !acc.as_str().is_empty() {
                    acc.append(" ");
                } else {
                    assert(before + ""@ =~= before) by {
                        reveal_strlit("");
                    }
                }
                acc.append(piece);
                past = past || !flag;
                i += 1;
            }
            let mut out = String::from_str(COMMAND_DIV_OPEN);
            out.append(acc.as_str());
            out.append(COMMAND_DIV_CLOSE);
            out
        },
    }
}

/// The statement with which a script follows a congruence loop by loop:
/// `head`, the residues, the test of the loop index against them, `tail`.
/// Nothing where `w` is no congruence.
pub open spec fn congruence_js_text(w: WhenToShow, head: Seq<char>, tail: Seq<char>) -> Seq<char> {
    match w {
        WhenToShow::Congruence(c) => head + js_array_text(c.residues@) + ".includes(loopIndex % "@
            + decimal_text(c.modulo as nat) + tail,
        _ => Seq::empty(),
    }
}

/// Writes the statement with which a script follows a congruence.
pub fn congruence_js(w: &WhenToShow, head: &str, tail: &str) -> (out: String)
    ensures
        out@ == congruence_js_text(*w, head@, tail@),
{
    match w {
        WhenToShow::Congruence(c) => {
            let array = format_js_array(&c.residues);
            let mut out = String::from_str(head);
            out.append(array.as_str());
            out.append(".includes(loopIndex % ");
            push_decimal(&mut out, c.modulo);
            out.append(tail);
            out
        },
        _ => String::new(),
    }
}

} // verus!
