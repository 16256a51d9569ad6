//! Reading a token sequence as drawing commands.
//!
//! The commands are the move, line, horizontal, vertical, cubic, quadratic
//! and close commands of path data, each in an absolute (upper case) and a
//! relative (lower case) form. A token that stands where a command is
//! expected and is none of these letters is skipped. A token that stands
//! where a number is required and is no number, or is missing, is an error:
//! behind a command letter, and in every further group of numbers that a
//! line or a curve begins.

use vstd::prelude::*;
use vstd::string::*;
use crate::strings::{
    char_at, collect_chars, decimal_text, is_digit, push_decimal, texts,
};
use crate::tokens::{classified_text, is_number_body, tokenize_svg_path, tokens_of};

verus! {

/// What a command draws.
#[derive(Clone, Copy, Debug, PartialEq, Eq, Structural)]
pub enum CommandKind {
    MoveTo,
    LineTo,
    HorizontalTo,
    VerticalTo,
    CubicTo,
    QuadTo,
    Close,
}

/// One drawing command with its numbers, kept as they were written.
#[derive(Clone, Debug)]
pub struct PathCommand {
    pub kind: CommandKind,
    /// Whether the numbers are offsets from the current point.
    pub relative: bool,
    pub operands: Vec<String>,
}

/// What a `PathCommand` stands for.
pub ghost struct PathCommandText {
    pub kind: CommandKind,
    pub relative: bool,
    pub operands: Seq<Seq<char>>,
}

impl View for PathCommand {
    type V = PathCommandText;

    open spec fn view(&self) -> PathCommandText {
        PathCommandText {
            kind: self.kind,
            relative: self.relative,
            operands: texts(self.operands@),
        }
    }
}

/// Why a token sequence is not a path.
#[derive(Clone, Copy, Debug, PartialEq, Eq, Structural)]
pub enum PathError {
    /// The tokens end where the number with index `at` is required.
    MissingOperand { at: usize },
    /// The token with index `at` stands where a number is required and is none.
    MalformedNumber { at: usize },
}

/// What the parser expects next: a command letter, or one more group of
/// numbers for the command `kind`.
#[derive(Clone, Copy, Debug, PartialEq, Eq, Structural)]
pub enum Mode {
    Command,
    Repeat { kind: CommandKind, relative: bool },
}

/// How many numbers a command of this kind takes.
pub open spec fn arity(kind: CommandKind) -> nat {
    match kind {
        CommandKind::MoveTo => 2,
        CommandKind::LineTo => 2,
        CommandKind::HorizontalTo => 1,
        CommandKind::VerticalTo => 1,
        CommandKind::CubicTo => 6,
        CommandKind::QuadTo => 4,
        CommandKind::Close => 0,
    }
}

/// The part of a number after its sign.
pub open spec fn number_body(t: Seq<char>) -> Seq<char> {
    if t.len() > 0 && t[0] == '-' {
        t.subrange(1, t.len() as int)
    } else {
        t
    }
}

/// Whether `t` is a decimal number: an optional minus sign, then digits with
/// at most one point among them, and at least one digit.
pub open spec fn is_number(t: Seq<char>) -> bool {
    let body = number_body(t);
    &&& forall|i: int| 0 <= i < body.len() ==> is_number_body(#[trigger] body[i])
    &&& exists|i: int| 0 <= i < body.len() && is_digit(#[trigger] body[i])
    &&& forall|i: int, j: int|
        0 <= i < j < body.len() ==> !(#[trigger] body[i] == '.' && #[trigger] body[j] == '.')
}

/// Whether `t` begins like a number: with a digit, a minus sign or a point.
pub open spec fn starts_number(t: Seq<char>) -> bool {
    t.len() > 0 && (is_digit(t[0]) || t[0] == '-' || t[0] == '.')
}

/// The command that the letter `c` names, and whether it is the relative form.
pub open spec fn command_of_letter(c: char) -> Option<(CommandKind, bool)> {
    if c == 'M' {
        Some((CommandKind::MoveTo, false))
    } else if c == 'm' {
        Some((CommandKind::MoveTo, true))
    } else if c == 'L' {
        Some((CommandKind::LineTo, false))
    } else if c == 'l' {
        Some((CommandKind::LineTo, true))
    } else if c == 'H' {
        Some((CommandKind::HorizontalTo, false))
    } else if c == 'h' {
        Some((CommandKind::HorizontalTo, true))
    } else if c == 'V' {
        Some((CommandKind::VerticalTo, false))
    } else if c == 'v' {
        Some((CommandKind::VerticalTo, true))
    } else if c == 'C' {
        Some((CommandKind::CubicTo, false))
    } else if c == 'c' {
        Some((CommandKind::CubicTo, true))
    } else if c == 'Q' {
        Some((CommandKind::QuadTo, false))
    } else if c == 'q' {
        Some((CommandKind::QuadTo, true))
    } else if c == 'Z' || c == 'z' {
        Some((CommandKind::Close, false))
    } else {
        None
    }
}

/// The command that the token `t` names, if it is a command letter.
pub open spec fn command_of_token(t: Seq<char>) -> Option<(CommandKind, bool)> {
    if t.len() == 1 {
        command_of_letter(t[0])
    } else {
        None
    }
}

/// The first of the `count` tokens from `from` on that is missing or is no
/// number, if there is one.
pub open spec fn first_bad_operand(tokens: Seq<Seq<char>>, from: int, count: nat) -> Option<
    PathError,
>
    decreases count,
{
    if count == 0 {
        None
    } else if from < 0 || from >= tokens.len() {
        Some(PathError::MissingOperand { at: from as usize })
    } else if !is_number(tokens[from]) {
        Some(PathError::MalformedNumber { at: from as usize })
    } else {
        first_bad_operand(tokens, from + 1, (count - 1) as nat)
    }
}

/// Whether one more group of numbers begins at token `i`: the token begins
/// like a number. The group is then owed in full.
pub open spec fn repeat_continues(tokens: Seq<Seq<char>>, i: int) -> bool {
    0 <= i < tokens.len() && starts_number(tokens[i])
}

/// `first` put in front of the commands of `rest`, if `rest` has any.
pub open spec fn prepend(first: Seq<PathCommandText>, rest: Result<Seq<PathCommandText>, PathError>)
    -> Result<Seq<PathCommandText>, PathError> {
    match rest {
        Ok(cmds) => Ok(first + cmds),
        Err(e) => Err(e),
    }
}

/// The command of kind `kind` whose numbers are the tokens from `from` on.
pub open spec fn command_at(tokens: Seq<Seq<char>>, from: int, kind: CommandKind, relative: bool)
    -> PathCommandText {
    PathCommandText { kind, relative, operands: tokens.subrange(from, from + arity(kind)) }
}

/// How far the parser still has to go from token `i`.
pub open spec fn remaining(tokens: Seq<Seq<char>>, i: int) -> int {
    if i < tokens.len() {
        tokens.len() - i
    } else {
        0
    }
}

/// The commands that the tokens from `i` on spell when read in mode `mode`,
/// or the first error met.
pub open spec fn parse_in(tokens: Seq<Seq<char>>, i: int, mode: Mode) -> Result<
    Seq<PathCommandText>,
    PathError,
>
    decreases remaining(tokens, i), (if mode is Command { 0int } else { 1int }),
{
    if i < 0 || i >= tokens.len() {
        Ok(Seq::empty())
    } else {
        match mode {
            Mode::Repeat { kind, relative } => {
                if repeat_continues(tokens, i) && arity(kind) > 0 {
                    match first_bad_operand(tokens, i, arity(kind)) {
                        Some(e) => Err(e),
                        None => prepend(
                            seq![command_at(tokens, i, kind, relative)],
                            parse_in(tokens, i + arity(kind), mode),
                        ),
                    }
                } else {
                    parse_in(tokens, i, Mode::Command)
                }
            },
            Mode::Command => {
                match command_of_token(tokens[i]) {
                    None => parse_in(tokens, i + 1, Mode::Command),
                    Some((kind, relative)) => {
                        match kind {
                            CommandKind::LineTo | CommandKind::CubicTo | CommandKind::QuadTo => {
                                parse_in(tokens, i + 1, Mode::Repeat { kind, relative })
                            },
                            CommandKind::Close => prepend(
                                seq![command_at(tokens, i + 1, kind, relative)],
                                parse_in(tokens, i + 1, Mode::Command),
                            ),
                            _ => {
                                match first_bad_operand(tokens, i + 1, arity(kind)) {
                                    Some(e) => Err(e),
                                    None => prepend(
                                        seq![command_at(tokens, i + 1, kind, relative)],
                                        parse_in(
                                            tokens,
                                            i + 1 + arity(kind),
                                            if kind == CommandKind::MoveTo {
                                                Mode::Repeat { kind: CommandKind::LineTo, relative }
                                            } else {
                                                Mode::Command
                                            },
                                        ),
                                    ),
                                }
                            },
                        }
                    },
                }
            },
        }
    }
}

/// The commands that `tokens` spell, or the first error met.
pub open spec fn parse(tokens: Seq<Seq<char>>) -> Result<Seq<PathCommandText>, PathError> {
    parse_in(tokens, 0, Mode::Command)
}

/// What each command of `cmds` stands for.
pub open spec fn command_texts(cmds: Seq<PathCommand>) -> Seq<PathCommandText> {
    Seq::new(cmds.len(), |i: int| cmds[i]@)
}

/// What is known of one token before it is read as part of a command.
#[derive(Clone, Copy, Debug)]
pub struct TokenInfo {
    pub number: bool,
    pub starts_number: bool,
    pub command: Option<(CommandKind, bool)>,
}

/// Whether `info` says of the token `t` what holds of it.
pub open spec fn describes(info: TokenInfo, t: Seq<char>) -> bool {
    &&& info.number == is_number(t)
    &&& info.starts_number == starts_number(t)
    &&& info.command == command_of_token(t)
}

fn letter_command(c: char) -> (r: Option<(CommandKind, bool)>)
    ensures
        r == command_of_letter(c),
{
    if c == 'M' {
        Some((CommandKind::MoveTo, false))
    } else if c == 'm' {
        Some((CommandKind::MoveTo, true))
    } else if c == 'L' {
        Some((CommandKind::LineTo, false))
    } else if c == 'l' {
        Some((CommandKind::LineTo, true))
    } else if c == 'H' {
        Some((CommandKind::HorizontalTo, false))
    } else if c == 'h' {
        Some((CommandKind::HorizontalTo, true))
    } else if c == 'V' {
        Some((CommandKind::VerticalTo, false))
    } else if c == 'v' {
        Some((CommandKind::VerticalTo, true))
    } else if c == 'C' {
        Some((CommandKind::CubicTo, false))
    } else if c == 'c' {
        Some((CommandKind::CubicTo, true))
    } else if c == 'Q' {
        Some((CommandKind::QuadTo, false))
    } else if c == 'q' {
        Some((CommandKind::QuadTo, true))
    } else if c == 'Z' || c == 'z' {
        Some((CommandKind::Close, false))
    } else {
        None
    }
}

fn arity_of(kind: CommandKind) -> (n: usize)
    ensures
        n == arity(kind),
{
    match kind {
        CommandKind::MoveTo => 2,
        CommandKind::LineTo => 2,
        CommandKind::HorizontalTo => 1,
        CommandKind::VerticalTo => 1,
        CommandKind::CubicTo => 6,
        CommandKind::QuadTo => 4,
        CommandKind::Close => 0,
    }
}

/// Whether the characters `chars` spell a decimal number.
pub fn chars_are_number(chars: &Vec<char>) -> (b: bool)
    ensures
        b == is_number(chars@),
{
    let n = chars.len();
    let start: usize = if n > 0 && chars[0] == '-' {
        1
    } else {
        0
    };
    let ghost body = number_body(chars@);
    let mut k: usize = start;
    let mut seen_digit = false;
    let mut seen_dot = false;
    let ghost mut digit_at: int = 0;
    let ghost mut dot_at: int = 0;
    while k < n
        invariant
            start <= k <= n,
            n == chars.len(),
            body == number_body(chars@),
            body.len() == n - start,
            forall|j: int| 0 <= j < body.len() ==> #[trigger] body[j] == chars@[j + start],
            forall|j: int| 0 <= j < k - start ==> is_number_body(#[trigger] body[j]),
            seen_digit ==> 0 <= digit_at < k - start && is_digit(body[digit_at]),
            !seen_digit ==> forall|j: int| 0 <= j < k - start ==> !is_digit(#[trigger] body[j]),
            seen_dot ==> 0 <= dot_at < k - start && body[dot_at] == '.',
            !seen_dot ==> forall|j: int| 0 <= j < k - start ==> #[trigger] body[j] != '.',
            forall|i: int, j: int|
                0 <= i < j < k - start ==> !(#[trigger] body[i] == '.' && #[trigger] body[j]
                    == '.'),
        decreases n - k,
    {
        let c = chars[k];
        assert(body[k - start] == c);
        if '0' <= c && c <= '9' {
            seen_digit = true;
            proof {
                digit_at = k - start;
            }
        } else if c == '.' {
            if seen_dot {
                assert(body[dot_at] == '.' && body[k - start] == '.');
                return false;
            }
            seen_dot = true;
            proof {
                dot_at = k - start;
            }
        } else {
            assert(!is_number_body(body[k - start]));
            return false;
        }
        k += 1;
    }
    seen_digit
}

/// Whether `token` is a decimal number.
pub fn is_number_token(token: &str) -> (b: bool)
    ensures
        b == is_number(token@),
{
    let chars = collect_chars(token);
    chars_are_number(&chars)
}

/// Looks at one token.
pub fn token_info(token: &str) -> (info: TokenInfo)
    ensures
        describes(info, token@),
{
    let chars = collect_chars(token);
    let number = chars_are_number(&chars);
    let first_like_number = if chars.len() > 0 {
        let c = char_at(&chars, 0);
        ('0' <= c && c <= '9') || c == '-' || c == '.'
    } else {
        false
    };
    let command = if chars.len() == 1 {
        letter_command(char_at(&chars, 0))
    } else {
        None
    };
    TokenInfo { number, starts_number: first_like_number, command }
}

/// Whether `infos` describes the tokens `tokens` one by one.
pub open spec fn describes_all(infos: Seq<TokenInfo>, tokens: Seq<Seq<char>>) -> bool {
    &&& infos.len() == tokens.len()
    &&& forall|i: int| 0 <= i < infos.len() ==> describes(#[trigger] infos[i], tokens[i])
}

fn token_infos(tokens: &Vec<String>) -> (infos: Vec<TokenInfo>)
    ensures
        describes_all(infos@, texts(tokens@)),
{
    let mut infos: Vec<TokenInfo> = Vec::new();
    let mut i: usize = 0;
    while i < tokens.len()
        invariant
            i <= tokens.len(),
            infos.len() == i,
            forall|j: int| 0 <= j < i ==> describes(#[trigger] infos@[j], tokens@[j]@),
        decreases tokens.len() - i,
    {
        let info = token_info(tokens[i].as_str());
        infos.push(info);
        i += 1;
    }
    infos
}

/// Takes the `count` numbers that start at token `from`.
fn take_operands(tokens: &Vec<String>, infos: &Vec<TokenInfo>, from: usize, count: usize) -> (r:
    Result<Vec<String>, PathError>)
    requires
        describes_all(infos@, texts(tokens@)),
        from <= tokens.len(),
        count <= 6,
    ensures
        match r {
            Ok(ops) => {
                &&& first_bad_operand(texts(tokens@), from as int, count as nat) is None
                &&& from + count <= tokens.len()
                &&& texts(ops@) == texts(tokens@).subrange(from as int, from + count)
            },
            Err(e) => first_bad_operand(texts(tokens@), from as int, count as nat) == Some(e),
        },
{
    let ghost all = texts(tokens@);
    let mut ops: Vec<String> = Vec::new();
    let mut k: usize = 0;
    while k < count
        invariant
            k <= count <= 6,
            all == texts(tokens@),
            describes_all(infos@, all),
            from + k <= tokens.len(),
            first_bad_operand(all, from as int, count as nat) == first_bad_operand(
                all,
                from + k,
                (count - k) as nat,
            ),
            texts(ops@) == all.subrange(from as int, from + k),
        decreases count - k,
    {
        let at: usize = from + k;
        if at >= tokens.len() {
            return Err(PathError::MissingOperand { at });
        }
        let info = infos[at];
        assert(describes(infos@[at as int], all[at as int]));
        if !info.number {
            return Err(PathError::MalformedNumber { at });
        }
        let ghost before = ops@;
        let operand = tokens[at].clone();
        ops.push(operand);
        proof {
            assert(operand@ == all[at as int]);
            assert(texts(ops@) =~= texts(before).push(operand@));
            assert(all.subrange(from as int, from + k + 1) =~= all.subrange(
                from as int,
                from + k,
            ).push(all[at as int]));
        }
        k += 1;
    }
    Ok(ops)
}

/// Whether the parser can be in mode `mode`: only lines and curves repeat.
pub open spec fn mode_repeats(mode: Mode) -> bool {
    match mode {
        Mode::Command => true,
        Mode::Repeat { kind, relative } => kind == CommandKind::LineTo || kind
            == CommandKind::CubicTo || kind == CommandKind::QuadTo,
    }
}

/// Reads `tokens` as drawing commands. The result is `parse` of the tokens:
/// every command in order with its numbers as written, or the first error.
pub fn commands_of_tokens(tokens: &Vec<String>) -> (r: Result<Vec<PathCommand>, PathError>)
    ensures
        match r {
            Ok(cmds) => parse(texts(tokens@)) == Ok::<Seq<PathCommandText>, PathError>(
                command_texts(cmds@),
            ),
            Err(e) => parse(texts(tokens@)) == Err::<Seq<PathCommandText>, PathError>(e),
        },
{
    let ghost all = texts(tokens@);
    let infos = token_infos(tokens);
    let n = tokens.len();
    let mut out: Vec<PathCommand> = Vec::new();
    let mut i: usize = 0;
    let mut mode = Mode::Command;
    assert(prepend(command_texts(out@), parse_in(all, 0, mode)) == parse(all)) by {
        let rest = parse_in(all, 0, mode);
        match rest {
            Ok(cmds) => {
                assert(command_texts(out@) + cmds =~= cmds);
            },
            Err(e) => {},
        }
    }
    loop
        invariant
            all == texts(tokens@),
            n == tokens.len(),
            describes_all(infos@, all),
            i <= n,
            mode_repeats(mode),
            parse(all) == prepend(command_texts(out@), parse_in(all, i as int, mode)),
        decreases n - i, (if mode is Command { 0int } else { 1int }),
    {
        if i >= n {
            proof {
                assert(command_texts(out@) + Seq::<PathCommandText>::empty() =~= command_texts(
                    out@,
                ));
            }
            return Ok(out);
        }
        let info = infos[i];
        assert(describes(infos@[i as int], all[i as int]));
        match mode {
            Mode::Repeat { kind, relative } => {
                let count = arity_of(kind);
                if info.starts_number {
                    match take_operands(tokens, &infos, i, count) {
                        Err(e) => {
                            return Err(e);
                        },
                        Ok(operands) => {
                            let ghost before = out@;
                            let cmd = PathCommand { kind, relative, operands };
                            out.push(cmd);
                            proof {
                                let first = seq![command_at(all, i as int, kind, relative)];
                                let rest = parse_in(all, i + count, mode);
                                assert(cmd@ == command_at(all, i as int, kind, relative));
                                assert(command_texts(out@) =~= command_texts(before) + first);
                                lemma_prepend_twice(command_texts(before), first, rest);
                            }
                            i = i + count;
                        },
                    }
                } else {
                    mode = Mode::Command;
                }
            },
            Mode::Command => {
                match info.command {
                    None => {
                        i += 1;
                    },
                    Some((kind, relative)) => {
                        match kind {
                            CommandKind::LineTo | CommandKind::CubicTo | CommandKind::QuadTo => {
                                mode = Mode::Repeat { kind, relative };
                                i += 1;
                            },
                            _ => {
                                let count = arity_of(kind);
                                match take_operands(tokens, &infos, i + 1, count) {
                                    Err(e) => {
                                        return Err(e);
                                    },
                                    Ok(operands) => {
                                        let ghost before = out@;
                                        let cmd = PathCommand { kind, relative, operands };
                                        out.push(cmd);
                                        let next = match kind {
                                            CommandKind::MoveTo => Mode::Repeat {
                                                kind: CommandKind::LineTo,
                                                relative,
                                            },
                                            _ => Mode::Command,
                                        };
                                        proof {
                                            let first = seq![
                                                command_at(all, i + 1, kind, relative),
                                            ];
                                            let rest = parse_in(all, i + 1 + count, next);
                                            assert(cmd@ == command_at(all, i + 1, kind, relative));
                                            assert(command_texts(out@) =~= command_texts(before)
                                                + first);
                                            lemma_prepend_twice(command_texts(before), first, rest);
                                        }
                                        mode = next;
                                        i = i + 1 + count;
                                    },
                                }
                            },
                        }
                    },
                }
            },
        }
    }
}

/// Putting `a` in front, after `b` was put in front, puts `a + b` in front.
pub proof fn lemma_prepend_twice(
    a: Seq<PathCommandText>,
    b: Seq<PathCommandText>,
    rest: Result<Seq<PathCommandText>, PathError>,
)
    ensures
        prepend(a, prepend(b, rest)) == prepend(a + b, rest),
{
    match rest {
        Ok(cmds) => {
            assert(a + (b + cmds) =~= (a + b) + cmds);
        },
        Err(e) => {},
    }
}

/// Reads path data as drawing commands: the data is cut into tokens, and
/// the tokens are read as `parse` says.
pub fn commands_of_svg_path(path: &str) -> (r: Result<Vec<PathCommand>, PathError>)
    ensures
        match r {
            Ok(cmds) => parse(tokens_of(classified_text(path@))) == Ok::<
                Seq<PathCommandText>,
                PathError,
            >(command_texts(cmds@)),
            Err(e) => parse(tokens_of(classified_text(path@))) == Err::<
                Seq<PathCommandText>,
                PathError,
            >(e),
        },
{
    let tokens = tokenize_svg_path(path);
    commands_of_tokens(&tokens)
}

impl PathError {
    /// The sentence that `message` writes.
    pub open spec fn message_text(&self) -> Seq<char> {
        match *self {
            PathError::MissingOperand { at } => "path data ends where number "@ + decimal_text(
                at as nat,
            ) + " is required"@,
            PathError::MalformedNumber { at } => "token "@ + decimal_text(at as nat)
                + " of the path data is not a number"@,
        }
    }

    /// Says in words what is wrong; tokens are counted from 0.
    pub fn message(&self) -> (s: String)
        ensures
            s@ == self.message_text(),
    {
        let mut s = String::new();
        match *self {
            PathError::MissingOperand { at } => {
                s.append("path data ends where number ");
                push_decimal(&mut s, at);
                s.append(" is required");
            },
            PathError::MalformedNumber { at } => {
                s.append("token ");
                push_decimal(&mut s, at);
                s.append(" of the path data is not a number");
            },
        }
        assert(s@ =~= self.message_text());
        s
    }
}

} // verus!
