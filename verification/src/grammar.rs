//! The grammar of script text.
//!
//! A script is the word `version` and a number, the word `start` and a way to
//! start, and one or more lines. White space and `//` comments may stand
//! before, between and behind lines. A line is a tick, `>`, key letters, and
//! up to two parts that each begin with `|`: where the mouse goes, and a tool.
//!
//! The grammar is read from left to right without looking back: every part
//! takes the longest text that fits, and an optional part that does not fit
//! is taken to be absent. Each part is given here twice: as a function of the
//! text and a position, which says what the part is, and as the reader that
//! computes it.

use vstd::prelude::*;
use crate::decimal::{decimal_value, lemma_decimal_value_grows};
use crate::script::{
    DecimalNumber, DecimalModel, LineModel, Script, ScriptLine, ScriptModel, StartModel, StartType,
    Tool, ToolModel,
};
use crate::text::{
    is_digit, is_word_start, lemma_run_end, run_end, scan, starts_with, string_of, test_digit,
    test_starts_with, test_word_start, CharClass,
};

verus! {

/// The word that opens a script.
pub open spec fn word_version() -> Seq<char> {
    seq!['v', 'e', 'r', 's', 'i', 'o', 'n']
}

/// The word that opens the start clause.
pub open spec fn word_start() -> Seq<char> {
    seq!['s', 't', 'a', 'r', 't']
}

/// The word for a start in the world as it is.
pub open spec fn word_now() -> Seq<char> {
    seq!['n', 'o', 'w']
}

/// The word for a start from a new game.
pub open spec fn word_newgame() -> Seq<char> {
    seq!['n', 'e', 'w', 'g', 'a', 'm', 'e']
}

/// The word for a start from a save file.
pub open spec fn word_save() -> Seq<char> {
    seq!['s', 'a', 'v', 'e']
}

/// The word that opens the tool that sets the player's position.
pub open spec fn word_setpos() -> Seq<char> {
    seq!['s', 'e', 't', 'p', 'o', 's']
}

/// The two characters that open a comment.
pub open spec fn comment_mark() -> Seq<char> {
    seq!['/', '/']
}

/// What the text should have held where it stopped being a script.
#[derive(Clone, Copy, Debug, PartialEq, Eq, Structural)]
pub enum Expected {
    /// The word `version`.
    VersionKeyword,
    /// A number that fits 64 bits.
    VersionNumber,
    /// The word `start`.
    StartKeyword,
    /// One of the words `now`, `newgame`, `save`.
    StartKind,
    /// A line; or, behind the last line, the end of the text.
    Line,
}

/// Where a text stopped being a script, and what it should have held there.
pub struct Failure {
    pub offset: int,
    pub expected: Expected,
}

/// The end of the word that starts at `i`: a letter or an underscore, and the
/// letters, digits and underscores behind it.
pub open spec fn word_end(s: Seq<char>, i: int) -> Option<int> {
    if 0 <= i < s.len() && is_word_start(s[i]) {
        Some(run_end(s, i + 1, CharClass::Word))
    } else {
        None
    }
}

/// The end of the word at `i`, where that word is `word`.
pub open spec fn keyword_end(s: Seq<char>, i: int, word: Seq<char>) -> Option<int> {
    match word_end(s, i) {
        Some(j) => if s.subrange(i, j) == word {
            Some(j)
        } else {
            None
        },
        None => None,
    }
}

/// The end of the numeral at `i`: a single zero, or a digit other than zero
/// and the digits behind it.
pub open spec fn numeral_end(s: Seq<char>, i: int) -> Option<int> {
    if 0 <= i < s.len() && is_digit(s[i]) {
        if s[i] == '0' {
            Some(i + 1)
        } else {
            Some(run_end(s, i + 1, CharClass::Digit))
        }
    } else {
        None
    }
}

/// The number that the numeral at `i` denotes, and the numeral's end, where
/// the number is at most `max`.
pub open spec fn number_at(s: Seq<char>, i: int, max: nat) -> Option<(nat, int)> {
    match numeral_end(s, i) {
        Some(j) => {
            let v = decimal_value(s.subrange(i, j));
            if v <= max {
                Some((v, j))
            } else {
                None
            }
        },
        None => None,
    }
}

/// The integer at `i`, with or without a minus sign, where it fits 32 bits
/// with a sign; and its end.
pub open spec fn signed_at(s: Seq<char>, i: int) -> Option<(i32, int)> {
    if 0 <= i < s.len() && s[i] == '-' {
        match number_at(s, i + 1, 0x8000_0000) {
            Some((v, j)) => Some(((-(v as int)) as i32, j)),
            None => None,
        }
    } else {
        match number_at(s, i, 0x7fff_ffff) {
            Some((v, j)) => Some((v as i32, j)),
            None => None,
        }
    }
}

/// The two integers at `i`, with blanks or nothing between them; and their
/// end.
pub open spec fn coords_at(s: Seq<char>, i: int) -> Option<((i32, i32), int)> {
    match signed_at(s, i) {
        Some((x, j)) => match signed_at(s, run_end(s, j, CharClass::Blank)) {
            Some((y, k)) => Some(((x, y), k)),
            None => None,
        },
        None => None,
    }
}

/// The mouse part at `i` and its end. Without a `|` at `i` there is no such
/// part. Behind the `|` and any blanks, two integers say where the mouse
/// goes; where they are missing, the mouse stays.
pub open spec fn mouse_at(s: Seq<char>, i: int) -> (Option<(i32, i32)>, int) {
    if 0 <= i < s.len() && s[i] == '|' {
        let b = run_end(s, i + 1, CharClass::Blank);
        match coords_at(s, b) {
            Some((xy, j)) => (Some(xy), j),
            None => (None, b),
        }
    } else {
        (None, i)
    }
}

/// The real number at `i` as it is written, and its end: an optional minus
/// sign, a numeral, a point, and any digits behind the point.
pub open spec fn decimal_at(s: Seq<char>, i: int) -> Option<(DecimalModel, int)> {
    let negative = 0 <= i < s.len() && s[i] == '-';
    let k = if negative {
        i + 1
    } else {
        i
    };
    match numeral_end(s, k) {
        Some(j) => if j < s.len() && s[j] == '.' {
            let f = run_end(s, j + 1, CharClass::Digit);
            Some(
                (
                    DecimalModel {
                        negative,
                        whole: s.subrange(k, j),
                        fraction: s.subrange(j + 1, f),
                    },
                    f,
                ),
            )
        } else {
            None
        },
        None => None,
    }
}

/// The real number behind the blanks at `i`, and its end.
pub open spec fn spaced_decimal_at(s: Seq<char>, i: int) -> Option<(DecimalModel, int)> {
    decimal_at(s, run_end(s, i, CharClass::Blank))
}

/// The tool at `i` that sets the player's position, and its end: the word
/// `setpos` and five real numbers, with blanks or nothing between them.
pub open spec fn setpos_at(s: Seq<char>, i: int) -> Option<(ToolModel, int)> {
    if starts_with(s, i, word_setpos()) {
        match spaced_decimal_at(s, i + 6) {
            Some((x, a)) => match spaced_decimal_at(s, a) {
                Some((y, b)) => match spaced_decimal_at(s, b) {
                    Some((z, c)) => match spaced_decimal_at(s, c) {
                        Some((yaw, d)) => match spaced_decimal_at(s, d) {
                            Some((pitch, e)) => Some((ToolModel::SetPos { x, y, z, yaw, pitch }, e)),
                            None => None,
                        },
                        None => None,
                    },
                    None => None,
                },
                None => None,
            },
            None => None,
        }
    } else {
        None
    }
}

/// The tool part at `i` and its end. Without a `|` at `i` there is no such
/// part. Behind the `|` and any blanks stands a tool, or nothing.
pub open spec fn tool_at(s: Seq<char>, i: int) -> (Option<ToolModel>, int) {
    if 0 <= i < s.len() && s[i] == '|' {
        let b = run_end(s, i + 1, CharClass::Blank);
        match setpos_at(s, b) {
            Some((tool, j)) => (Some(tool), j),
            None => (None, b),
        }
    } else {
        (None, i)
    }
}

/// The line at `i` and its end: an optional `+`, a tick that fits 32 bits,
/// `>`, any key letters, a mouse part and a tool part.
pub open spec fn line_at(s: Seq<char>, i: int) -> Option<(LineModel, int)> {
    let relative = 0 <= i < s.len() && s[i] == '+';
    let k = if relative {
        i + 1
    } else {
        i
    };
    match number_at(s, k, 0xffff_ffff) {
        Some((tick, j)) => if j < s.len() && s[j] == '>' {
            let e = run_end(s, j + 1, CharClass::Key);
            let mouse = mouse_at(s, e);
            let tool = tool_at(s, mouse.1);
            Some(
                (
                    LineModel {
                        relative,
                        tick: tick as u32,
                        keys: s.subrange(j + 1, e),
                        mouse: mouse.0,
                        tools: tool.0,
                    },
                    tool.1,
                ),
            )
        } else {
            None
        },
        None => None,
    }
}

/// The end of the white space and comments that start at `i`. A comment runs
/// from `//` to the end of its line.
pub open spec fn trivia_end(s: Seq<char>, i: int) -> int
    decreases s.len() - i,
{
    let a = run_end(s, i, CharClass::Space);
    if starts_with(s, a, comment_mark()) {
        let b = run_end(s, a + 2, CharClass::Inline);
        if i < b <= s.len() {
            trivia_end(s, b)
        } else {
            a
        }
    } else {
        a
    }
}

/// The lines that stand at `i` one behind the other, each followed by white
/// space and comments, and the position behind the last of them.
pub open spec fn lines_from(s: Seq<char>, i: int) -> (Seq<LineModel>, int)
    decreases s.len() - i,
{
    match line_at(s, i) {
        Some((line, j)) => {
            let t = trivia_end(s, j);
            if i < t <= s.len() {
                let rest = lines_from(s, t);
                (seq![line] + rest.0, rest.1)
            } else {
                (seq![line], t)
            }
        },
        None => (Seq::empty(), i),
    }
}

/// The way to start that is written at `i`, and its end: one of the words
/// `newgame` and `now`, or the word `save`, white space, and a path that runs
/// up to the next control character.
pub open spec fn start_at(s: Seq<char>, i: int) -> Option<(StartModel, int)> {
    match word_end(s, i) {
        Some(j) => {
            let word = s.subrange(i, j);
            if word == word_newgame() {
                Some((StartModel::NewGame, j))
            } else if word == word_now() {
                Some((StartModel::Now, j))
            } else if word == word_save() {
                let p = run_end(s, j, CharClass::Space);
                let q = run_end(s, p, CharClass::Path);
                Some((StartModel::Save(s.subrange(p, q)), q))
            } else {
                None
            }
        },
        None => None,
    }
}

/// What a text says as a script; or where it stops being one.
pub open spec fn parse_text(s: Seq<char>) -> Result<ScriptModel, Failure> {
    let a = run_end(s, 0, CharClass::Space);
    match keyword_end(s, a, word_version()) {
        None => Err(Failure { offset: a, expected: Expected::VersionKeyword }),
        Some(b) => {
            let c = run_end(s, b, CharClass::Space);
            match number_at(s, c, 0xffff_ffff_ffff_ffff) {
                None => Err(Failure { offset: c, expected: Expected::VersionNumber }),
                Some((version, d)) => {
                    let e = run_end(s, d, CharClass::Space);
                    match keyword_end(s, e, word_start()) {
                        None => Err(Failure { offset: e, expected: Expected::StartKeyword }),
                        Some(f) => {
                            let g = run_end(s, f, CharClass::Space);
                            match start_at(s, g) {
                                None => Err(Failure { offset: g, expected: Expected::StartKind }),
                                Some((start, h)) => {
                                    let lines = lines_from(s, trivia_end(s, h));
                                    if lines.0.len() > 0 && lines.1 == s.len() {
                                        Ok(
                                            ScriptModel {
                                                version: version as u64,
                                                start,
                                                lines: lines.0,
                                            },
                                        )
                                    } else {
                                        Err(
                                            Failure {
                                                offset: lines.1,
                                                expected: Expected::Line,
                                            },
                                        )
                                    }
                                },
                            }
                        },
                    }
                },
            }
        },
    }
}

/// Copies the characters of `s` from `a` up to `b`.
pub fn copy_range(s: &[char], a: usize, b: usize) -> (v: Vec<char>)
    requires
        a <= b <= s.len(),
    ensures
        v@ == s@.subrange(a as int, b as int),
{
    let mut v: Vec<char> = Vec::new();
    let mut k: usize = a;
    while k < b
        invariant
            a <= k <= b <= s.len(),
            v@ == s@.subrange(a as int, k as int),
        decreases b - k,
    {
        v.push(s[k]);
        k += 1;
        assert(v@ =~= s@.subrange(a as int, k as int));
    }
    v
}

/// Finds the end of the word at `i`.
pub fn read_word(s: &[char], i: usize) -> (r: Option<usize>)
    requires
        i <= s.len(),
    ensures
        match r {
            Some(j) => word_end(s@, i as int) == Some(j as int) && i < j <= s.len(),
            None => word_end(s@, i as int) is None,
        },
{
    if i < s.len() && test_word_start(s[i]) {
        Some(scan(s, i + 1, CharClass::Word))
    } else {
        None
    }
}

/// Tests whether the characters of `s` from `i` up to `j` are those of `word`.
pub fn test_range_is(s: &[char], i: usize, j: usize, word: &[char]) -> (r: bool)
    requires
        i <= j <= s.len(),
    ensures
        r == (s@.subrange(i as int, j as int) == word@),
{
    if j - i != word.len() {
        assert(s@.subrange(i as int, j as int).len() != word@.len());
        false
    } else {
        test_starts_with(s, i, word)
    }
}

/// Finds the end of the word at `i` where that word is `word`.
pub fn read_keyword(s: &[char], i: usize, word: &[char]) -> (r: Option<usize>)
    requires
        i <= s.len(),
    ensures
        match r {
            Some(j) => keyword_end(s@, i as int, word@) == Some(j as int) && i < j <= s.len(),
            None => keyword_end(s@, i as int, word@) is None,
        },
{
    match read_word(s, i) {
        Some(j) => if test_range_is(s, i, j, word) {
            Some(j)
        } else {
            None
        },
        None => None,
    }
}

/// Finds the end of the numeral at `i`.
pub fn read_numeral(s: &[char], i: usize) -> (r: Option<usize>)
    requires
        i <= s.len(),
    ensures
        match r {
            Some(j) => numeral_end(s@, i as int) == Some(j as int) && i < j <= s.len(),
            None => numeral_end(s@, i as int) is None,
        },
{
    if i < s.len() && test_digit(s[i]) {
        if s[i] == '0' {
            Some(i + 1)
        } else {
            Some(scan(s, i + 1, CharClass::Digit))
        }
    } else {
        None
    }
}

/// The number that the digits of `s` from `i` up to `j` denote, where it is
/// at most `max`.
pub fn read_digits(s: &[char], i: usize, j: usize, max: u64) -> (r: Option<u64>)
    requires
        i <= j <= s.len(),
        forall|k: int| i <= k < j ==> is_digit(#[trigger] s@[k]),
    ensures
        match r {
            Some(v) => v == decimal_value(s@.subrange(i as int, j as int)) && v <= max,
            None => decimal_value(s@.subrange(i as int, j as int)) > max,
        },
{
    let mut v: u64 = 0;
    let mut k: usize = i;
    assert(s@.subrange(i as int, i as int) =~= Seq::<char>::empty());
    while k < j
        invariant
            i <= k <= j <= s.len(),
            forall|k: int| i <= k < j ==> is_digit(#[trigger] s@[k]),
            v == decimal_value(s@.subrange(i as int, k as int)),
            v <= max,
        decreases j - k,
    {
        let d: u64 = (s[k] as u32 - 48) as u64;
        proof {
            let head = s@.subrange(i as int, k + 1);
            assert(head.drop_last() =~= s@.subrange(i as int, k as int));
            assert(head.last() == s@[k as int]);
            assert(decimal_value(head) == v * 10 + d);
            let all = s@.subrange(i as int, j as int);
            lemma_decimal_value_grows(all, k + 1 - i);
            assert(all.take(k + 1 - i) =~= head);
        }
        if d > max || v > (max - d) / 10 {
            return None;
        }
        v = v * 10 + d;
        k += 1;
    }
    Some(v)
}

/// Reads the number at `i`, where it is at most `max`.
pub fn read_number(s: &[char], i: usize, max: u64) -> (r: Option<(u64, usize)>)
    requires
        i <= s.len(),
    ensures
        match r {
            Some((v, j)) => number_at(s@, i as int, max as nat) == Some((v as nat, j as int)) && i
                < j <= s.len(),
            None => number_at(s@, i as int, max as nat) is None,
        },
{
    match read_numeral(s, i) {
        Some(j) => {
            proof {
                lemma_run_end(s@, i + 1, CharClass::Digit);
            }
            match read_digits(s, i, j, max) {
                Some(v) => Some((v, j)),
                None => None,
            }
        },
        None => None,
    }
}

/// Reads the integer at `i`, with or without a minus sign, where it fits 32
/// bits with a sign.
pub fn read_signed(s: &[char], i: usize) -> (r: Option<(i32, usize)>)
    requires
        i <= s.len(),
    ensures
        match r {
            Some((v, j)) => signed_at(s@, i as int) == Some((v, j as int)) && i < j <= s.len(),
            None => signed_at(s@, i as int) is None,
        },
{
    if i < s.len() && s[i] == '-' {
        match read_number(s, i + 1, 0x8000_0000) {
            Some((v, j)) => Some(((0 - (v as i64)) as i32, j)),
            None => None,
        }
    } else {
        match read_number(s, i, 0x7fff_ffff) {
            Some((v, j)) => Some((v as i32, j)),
            None => None,
        }
    }
}

/// Reads the two integers at `i`.
pub fn read_coords(s: &[char], i: usize) -> (r: Option<((i32, i32), usize)>)
    requires
        i <= s.len(),
    ensures
        match r {
            Some((xy, j)) => coords_at(s@, i as int) == Some((xy, j as int)) && i < j <= s.len(),
            None => coords_at(s@, i as int) is None,
        },
{
    match read_signed(s, i) {
        Some((x, j)) => {
            let b = scan(s, j, CharClass::Blank);
            match read_signed(s, b) {
                Some((y, k)) => Some(((x, y), k)),
                None => None,
            }
        },
        None => None,
    }
}

/// Reads the mouse part at `i`.
pub fn read_mouse(s: &[char], i: usize) -> (r: (Option<(i32, i32)>, usize))
    requires
        i <= s.len(),
    ensures
        mouse_at(s@, i as int) == (r.0, r.1 as int),
        i <= r.1 <= s.len(),
{
    if i < s.len() && s[i] == '|' {
        let b = scan(s, i + 1, CharClass::Blank);
        match read_coords(s, b) {
            Some((xy, j)) => (Some(xy), j),
            None => (None, b),
        }
    } else {
        (None, i)
    }
}

/// Reads the real number at `i` as it is written.
pub fn read_decimal(s: &[char], i: usize) -> (r: Option<(DecimalNumber, usize)>)
    requires
        i <= s.len(),
    ensures
        match r {
            Some((x, j)) => decimal_at(s@, i as int) == Some((x.deep_view(), j as int)) && i < j
                <= s.len(),
            None => decimal_at(s@, i as int) is None,
        },
{
    let negative = i < s.len() && s[i] == '-';
    let k: usize = if negative {
        i + 1
    } else {
        i
    };
    match read_numeral(s, k) {
        Some(j) => if j < s.len() && s[j] == '.' {
            let f = scan(s, j + 1, CharClass::Digit);
            let whole = copy_range(s, k, j);
            let fraction = copy_range(s, j + 1, f);
            Some((DecimalNumber { negative, whole, fraction }, f))
        } else {
            None
        },
        None => None,
    }
}

/// Reads the real number behind the blanks at `i`.
pub fn read_spaced_decimal(s: &[char], i: usize) -> (r: Option<(DecimalNumber, usize)>)
    requires
        i <= s.len(),
    ensures
        match r {
            Some((x, j)) => spaced_decimal_at(s@, i as int) == Some((x.deep_view(), j as int)) && i
                < j <= s.len(),
            None => spaced_decimal_at(s@, i as int) is None,
        },
{
    let b = scan(s, i, CharClass::Blank);
    read_decimal(s, b)
}

/// Reads the tool at `i` that sets the player's position.
pub fn read_setpos(s: &[char], i: usize) -> (r: Option<(Tool, usize)>)
    requires
        i <= s.len(),
    ensures
        match r {
            Some((tool, j)) => setpos_at(s@, i as int) == Some((tool.deep_view(), j as int)) && i
                < j <= s.len(),
            None => setpos_at(s@, i as int) is None,
        },
{
    let word = vec!['s', 'e', 't', 'p', 'o', 's'];
    assert(word@ =~= word_setpos());
    if !test_starts_with(s, i, word.as_slice()) {
        return None;
    }
    let (x, a) = match read_spaced_decimal(s, i + 6) {
        Some(r) => r,
        None => { return None; },
    };
    let (y, b) = match read_spaced_decimal(s, a) {
        Some(r) => r,
        None => { return None; },
    };
    let (z, c) = match read_spaced_decimal(s, b) {
        Some(r) => r,
        None => { return None; },
    };
    let (yaw, d) = match read_spaced_decimal(s, c) {
        Some(r) => r,
        None => { return None; },
    };
    let (pitch, e) = match read_spaced_decimal(s, d) {
        Some(r) => r,
        None => { return None; },
    };
    Some((Tool::SetPos { x, y, z, yaw, pitch }, e))
}

/// Reads the tool part at `i`.
pub fn read_tool(s: &[char], i: usize) -> (r: (Option<Tool>, usize))
    requires
        i <= s.len(),
    ensures
        tool_at(s@, i as int) == (r.0.deep_view(), r.1 as int),
        i <= r.1 <= s.len(),
{
    if i < s.len() && s[i] == '|' {
        let b = scan(s, i + 1, CharClass::Blank);
        match read_setpos(s, b) {
            Some((tool, j)) => (Some(tool), j),
            None => (None, b),
        }
    } else {
        (None, i)
    }
}

/// Reads the line at `i`.
pub fn read_line(s: &[char], i: usize) -> (r: Option<(ScriptLine, usize)>)
    requires
        i <= s.len(),
    ensures
        match r {
            Some((line, j)) => line_at(s@, i as int) == Some((line.deep_view(), j as int)) && i < j
                <= s.len(),
            None => line_at(s@, i as int) is None,
        },
{
    let relative = i < s.len() && s[i] == '+';
    let k: usize = if relative {
        i + 1
    } else {
        i
    };
    match read_number(s, k, 0xffff_ffff) {
        Some((tick, j)) => if j < s.len() && s[j] == '>' {
            let e = scan(s, j + 1, CharClass::Key);
            let keys = copy_range(s, j + 1, e);
            let (mouse, m) = read_mouse(s, e);
            let (tools, t) = read_tool(s, m);
            Some((ScriptLine { relative, tick: tick as u32, keys, mouse, tools }, t))
        } else {
            None
        },
        None => None,
    }
}

/// Finds the end of the white space and comments at `i`.
pub fn skip_trivia(s: &[char], i: usize) -> (j: usize)
    requires
        i <= s.len(),
    ensures
        j == trivia_end(s@, i as int),
        i <= j <= s.len(),
{
    let mark = vec!['/', '/'];
    assert(mark@ =~= comment_mark());
    let ghost mut from: int = i as int;
    let mut a: usize = scan(s, i, CharClass::Space);
    while test_starts_with(s, a, mark.as_slice())
        invariant
            mark@ == comment_mark(),
            i <= from <= a <= s.len(),
            a == run_end(s@, from, CharClass::Space),
            trivia_end(s@, from) == trivia_end(s@, i as int),
        decreases s.len() - a,
    {
        let b = scan(s, a + 2, CharClass::Inline);
        proof {
            from = b as int;
        }
        a = scan(s, b, CharClass::Space);
    }
    a
}

/// Reads the lines that stand at `i` one behind the other.
pub fn read_lines(s: &[char], i: usize) -> (r: (Vec<ScriptLine>, usize))
    requires
        i <= s.len(),
    ensures
        lines_from(s@, i as int) == (r.0.deep_view(), r.1 as int),
        i <= r.1 <= s.len(),
{
    let mut lines: Vec<ScriptLine> = Vec::new();
    let mut at: usize = i;
    assert(lines.deep_view() =~= Seq::<LineModel>::empty());
    loop
        invariant
            i <= at <= s.len(),
            lines_from(s@, i as int) == (
                lines.deep_view() + lines_from(s@, at as int).0,
                lines_from(s@, at as int).1,
            ),
        ensures
            lines_from(s@, i as int) == (lines.deep_view(), at as int),
        decreases s.len() - at,
    {
        match read_line(s, at) {
            Some((line, j)) => {
                let t = skip_trivia(s, j);
                proof {
                    let rest = lines_from(s@, t as int);
                    assert(lines_from(s@, at as int) == (
                        seq![line.deep_view()] + rest.0,
                        rest.1,
                    ));
                    assert(lines.deep_view().push(line.deep_view()) + rest.0 =~= lines.deep_view()
                        + (seq![line.deep_view()] + rest.0));
                }
                let ghost before = lines.deep_view();
                lines.push(line);
                assert(lines.deep_view() =~= before.push(line.deep_view()));
                at = t;
            },
            None => {
                assert(lines.deep_view() + Seq::<LineModel>::empty() =~= lines.deep_view());
                break ;
            },
        }
    }
    (lines, at)
}

/// Reads the way to start that is written at `i`.
pub fn read_start(s: &[char], i: usize) -> (r: Option<(StartType, usize)>)
    requires
        i <= s.len(),
    ensures
        match r {
            Some((start, j)) => start_at(s@, i as int) == Some((start.deep_view(), j as int)) && i
                < j <= s.len(),
            None => start_at(s@, i as int) is None,
        },
{
    let j = match read_word(s, i) {
        Some(j) => j,
        None => { return None; },
    };
    let newgame = vec!['n', 'e', 'w', 'g', 'a', 'm', 'e'];
    let now = vec!['n', 'o', 'w'];
    let save = vec!['s', 'a', 'v', 'e'];
    assert(newgame@ =~= word_newgame());
    assert(now@ =~= word_now());
    assert(save@ =~= word_save());
    if test_range_is(s, i, j, newgame.as_slice()) {
        Some((StartType::NewGame, j))
    } else if test_range_is(s, i, j, now.as_slice()) {
        Some((StartType::Now, j))
    } else if test_range_is(s, i, j, save.as_slice()) {
        let p = scan(s, j, CharClass::Space);
        let q = scan(s, p, CharClass::Path);
        let path = copy_range(s, p, q);
        Some((StartType::Save(string_of(&path)), q))
    } else {
        None
    }
}

/// Reads a text as a script; or finds where it stops being one.
pub fn read_script(s: &[char]) -> (r: Result<Script, (usize, Expected)>)
    ensures
        match r {
            Ok(script) => parse_text(s@) == Ok::<ScriptModel, Failure>(script.deep_view()),
            Err((offset, expected)) => parse_text(s@) == Err::<ScriptModel, Failure>(
                Failure { offset: offset as int, expected },
            ) && offset <= s.len(),
        },
{
    let version_word = vec!['v', 'e', 'r', 's', 'i', 'o', 'n'];
    let start_word = vec!['s', 't', 'a', 'r', 't'];
    assert(version_word@ =~= word_version());
    assert(start_word@ =~= word_start());
    let a = scan(s, 0, CharClass::Space);
    let b = match read_keyword(s, a, version_word.as_slice()) {
        Some(b) => b,
        None => { return Err((a, Expected::VersionKeyword)); },
    };
    let c = scan(s, b, CharClass::Space);
    let (version, d) = match read_number(s, c, 0xffff_ffff_ffff_ffff) {
        Some(r) => r,
        None => { return Err((c, Expected::VersionNumber)); },
    };
    let e = scan(s, d, CharClass::Space);
    let f = match read_keyword(s, e, start_word.as_slice()) {
        Some(f) => f,
        None => { return Err((e, Expected::StartKeyword)); },
    };
    let g = scan(s, f, CharClass::Space);
    let (start, h) = match read_start(s, g) {
        Some(r) => r,
        None => { return Err((g, Expected::StartKind)); },
    };
    let t = skip_trivia(s, h);
    let (lines, end) = read_lines(s, t);
    if lines.len() > 0 && end == s.len() {
        Ok(Script { version, start, lines })
    } else {
        Err((end, Expected::Line))
    }
}

} // verus!
