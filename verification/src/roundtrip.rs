//! The canonical text of a script reads back as that script.

use vstd::prelude::*;
use crate::canonical::{
    decimal_text, head_text, line_text, lines_text, mouse_text, script_text, signed_text,
    spaced_decimal_text, start_text, tick_text, tool_text, tools_text,
};
use crate::decimal::{
    all_digits, decimal_digits, is_numeral, lemma_decimal_digits,
};
use crate::grammar::{
    comment_mark, decimal_at, keyword_end, line_at, lines_from, mouse_at, number_at,
    numeral_end, parse_text, setpos_at, signed_at, spaced_decimal_at, start_at, tool_at,
    trivia_end, word_end, word_newgame, word_now, word_save, word_setpos, word_start,
    word_version, Failure,
};
use crate::script::{
    absolute, absolute_tick, defect, first_misplaced, follows, lemma_first_misplaced, load,
    playable, resolved, DecimalModel, LineModel, ScriptError, ScriptModel, StartModel, ToolModel,
};
use crate::text::{
    is_ascii_control, is_digit, is_key, is_space, is_word_char, is_word_start, lemma_run_end,
    lemma_run_end_is, run_end, starts_with, CharClass,
};

verus! {

/// A text that stands at a position is made of its parts, one behind the
/// other.
pub proof fn lemma_parts(s: Seq<char>, i: int, a: Seq<char>, b: Seq<char>)
    requires
        starts_with(s, i, a + b),
    ensures
        starts_with(s, i, a),
        starts_with(s, i + a.len(), b),
{
    let whole = s.subrange(i, i + (a + b).len());
    assert(s.subrange(i, i + a.len()) =~= a) by {
        assert forall|k: int| 0 <= k < a.len() implies s.subrange(i, i + a.len())[k] == a[k] by {
            assert(whole[k] == (a + b)[k]);
        }
    }
    assert(s.subrange(i + a.len(), i + a.len() + b.len()) =~= b) by {
        assert forall|k: int| 0 <= k < b.len() implies s.subrange(
            i + a.len(),
            i + a.len() + b.len(),
        )[k] == b[k] by {
            assert(whole[a.len() + k] == (a + b)[a.len() + k]);
        }
    }
}

/// The characters of a text that stands at a position.
pub proof fn lemma_char_at(s: Seq<char>, i: int, x: Seq<char>, k: int)
    requires
        starts_with(s, i, x),
        0 <= k < x.len(),
    ensures
        s[i + k] == x[k],
{
    assert(s.subrange(i, i + x.len())[k] == x[k]);
}

/// A numeral that stands before something other than a digit is read whole.
pub proof fn lemma_reads_numeral(s: Seq<char>, i: int, d: Seq<char>)
    requires
        starts_with(s, i, d),
        is_numeral(d),
        i + d.len() < s.len() ==> !is_digit(s[i + d.len()]),
    ensures
        numeral_end(s, i) == Some(i + d.len()),
{
    lemma_char_at(s, i, d, 0);
    if d[0] != '0' {
        assert forall|k: int| i + 1 <= k < i + d.len() implies CharClass::Digit.holds(
            #[trigger] s[k],
        ) by {
            lemma_char_at(s, i, d, k - i);
        }
        lemma_run_end_is(s, i + 1, i + d.len(), CharClass::Digit);
    }
}

/// The notation of a number that stands before something other than a digit
/// is read as that number.
pub proof fn lemma_reads_number(s: Seq<char>, i: int, n: nat, max: nat)
    requires
        starts_with(s, i, decimal_digits(n)),
        i + decimal_digits(n).len() < s.len() ==> !is_digit(s[i + decimal_digits(n).len()]),
        n <= max,
    ensures
        number_at(s, i, max) == Some((n, i + decimal_digits(n).len())),
{
    lemma_decimal_digits(n);
    lemma_reads_numeral(s, i, decimal_digits(n));
}

/// The notation of an integer that stands before something other than a
/// digit is read as that integer.
pub proof fn lemma_reads_signed(s: Seq<char>, i: int, v: i32)
    requires
        starts_with(s, i, signed_text(v)),
        i + signed_text(v).len() < s.len() ==> !is_digit(s[i + signed_text(v).len()]),
    ensures
        signed_at(s, i) == Some((v, i + signed_text(v).len())),
{
    if v < 0 {
        let n = (-(v as int)) as nat;
        lemma_parts(s, i, seq!['-'], decimal_digits(n));
        lemma_char_at(s, i, seq!['-'], 0);
        lemma_reads_number(s, i + 1, n, 0x8000_0000);
    } else {
        lemma_decimal_digits(v as nat);
        lemma_char_at(s, i, decimal_digits(v as nat), 0);
        lemma_reads_number(s, i, v as nat, 0x7fff_ffff);
    }
}

/// Whether a real number is written as the grammar writes one: the whole
/// part a numeral, and digits only behind the point.
pub open spec fn decimal_well_formed(d: DecimalModel) -> bool {
    is_numeral(d.whole) && all_digits(d.fraction)
}

/// A real number that stands before something other than a digit is read as
/// it was written.
pub proof fn lemma_reads_decimal(s: Seq<char>, i: int, d: DecimalModel)
    requires
        starts_with(s, i, decimal_text(d)),
        decimal_well_formed(d),
        i + decimal_text(d).len() < s.len() ==> !is_digit(s[i + decimal_text(d).len()]),
    ensures
        decimal_at(s, i) == Some((d, i + decimal_text(d).len())),
{
    let sign = if d.negative {
        seq!['-']
    } else {
        Seq::<char>::empty()
    };
    let k = i + sign.len();
    let j = k + d.whole.len();
    assert(decimal_text(d) =~= sign + (d.whole + (seq!['.'] + d.fraction)));
    lemma_parts(s, i, sign, d.whole + (seq!['.'] + d.fraction));
    lemma_parts(s, k, d.whole, seq!['.'] + d.fraction);
    lemma_parts(s, j, seq!['.'], d.fraction);
    lemma_char_at(s, j, seq!['.'], 0);
    lemma_char_at(s, k, d.whole, 0);
    if d.negative {
        lemma_char_at(s, i, sign, 0);
    }
    lemma_reads_numeral(s, k, d.whole);
    let f = j + 1 + d.fraction.len();
    assert forall|m: int| j + 1 <= m < f implies CharClass::Digit.holds(#[trigger] s[m]) by {
        lemma_char_at(s, j + 1, d.fraction, m - (j + 1));
    }
    lemma_run_end_is(s, j + 1, f, CharClass::Digit);
    assert(s.subrange(k, j) =~= d.whole);
    assert(s.subrange(j + 1, f) =~= d.fraction);
}

/// A real number behind one space is read as it was written.
pub proof fn lemma_reads_spaced_decimal(s: Seq<char>, i: int, d: DecimalModel)
    requires
        starts_with(s, i, spaced_decimal_text(d)),
        decimal_well_formed(d),
        i + spaced_decimal_text(d).len() < s.len() ==> !is_digit(
            s[i + spaced_decimal_text(d).len()],
        ),
    ensures
        spaced_decimal_at(s, i) == Some((d, i + spaced_decimal_text(d).len())),
{
    lemma_parts(s, i, seq![' '], decimal_text(d));
    lemma_char_at(s, i, seq![' '], 0);
    lemma_char_at(s, i + 1, decimal_text(d), 0);
    assert(decimal_text(d)[0] == if d.negative {
        '-'
    } else {
        d.whole[0]
    });
    lemma_run_end_is(s, i, i + 1, CharClass::Blank);
    lemma_reads_decimal(s, i + 1, d);
}

/// Whether a tool is written as the grammar writes one.
pub open spec fn tool_well_formed(tool: ToolModel) -> bool {
    match tool {
        ToolModel::SetPos { x, y, z, yaw, pitch } => decimal_well_formed(x) && decimal_well_formed(
            y,
        ) && decimal_well_formed(z) && decimal_well_formed(yaw) && decimal_well_formed(pitch),
    }
}

/// Whether a line holds what the grammar can write: key letters only, and a
/// tool that is written as the grammar writes one.
pub open spec fn line_well_formed(line: LineModel) -> bool {
    &&& forall|k: int| 0 <= k < line.keys.len() ==> is_key(#[trigger] line.keys[k])
    &&& line.tools is Some ==> tool_well_formed(line.tools->0)
}

/// A tool that stands before something other than a digit is read as it was
/// written.
pub proof fn lemma_reads_tool(s: Seq<char>, i: int, tool: ToolModel)
    requires
        starts_with(s, i, tool_text(tool)),
        tool_well_formed(tool),
        i + tool_text(tool).len() < s.len() ==> !is_digit(s[i + tool_text(tool).len()]),
    ensures
        setpos_at(s, i) == Some((tool, i + tool_text(tool).len())),
{
    match tool {
        ToolModel::SetPos { x, y, z, yaw, pitch } => {
            let tx = spaced_decimal_text(x);
            let ty = spaced_decimal_text(y);
            let tz = spaced_decimal_text(z);
            let tw = spaced_decimal_text(yaw);
            let tp = spaced_decimal_text(pitch);
            assert(tool_text(tool) =~= word_setpos() + (tx + (ty + (tz + (tw + tp)))));
            lemma_parts(s, i, word_setpos(), tx + (ty + (tz + (tw + tp))));
            let a = i + 6;
            lemma_parts(s, a, tx, ty + (tz + (tw + tp)));
            let b = a + tx.len();
            lemma_parts(s, b, ty, tz + (tw + tp));
            let c = b + ty.len();
            lemma_parts(s, c, tz, tw + tp);
            let d = c + tz.len();
            lemma_parts(s, d, tw, tp);
            let e = d + tw.len();
            lemma_char_at(s, b, ty, 0);
            lemma_char_at(s, c, tz, 0);
            lemma_char_at(s, d, tw, 0);
            lemma_char_at(s, e, tp, 0);
            lemma_reads_spaced_decimal(s, a, x);
            lemma_reads_spaced_decimal(s, b, y);
            lemma_reads_spaced_decimal(s, c, z);
            lemma_reads_spaced_decimal(s, d, yaw);
            lemma_reads_spaced_decimal(s, e, pitch);
        },
    }
}

/// The first character of an integer's notation is a minus sign or a digit.
pub proof fn lemma_signed_starts(v: i32)
    ensures
        signed_text(v).len() > 0,
        signed_text(v)[0] == '-' || is_digit(signed_text(v)[0]),
{
    if v >= 0 {
        lemma_decimal_digits(v as nat);
    }
}

/// The mouse part of a line is read as it was written, where the tool part
/// or the end of the line follows it.
pub proof fn lemma_reads_mouse(
    s: Seq<char>,
    i: int,
    mouse: Option<(i32, i32)>,
    tools: Option<ToolModel>,
)
    requires
        starts_with(s, i, mouse_text(mouse, tools)),
        i + mouse_text(mouse, tools).len() < s.len(),
        s[i + mouse_text(mouse, tools).len()] == if tools is Some {
            '|'
        } else {
            '\n'
        },
    ensures
        mouse_at(s, i) == (mouse, i + mouse_text(mouse, tools).len()),
{
    match mouse {
        Some(xy) => {
            let tx = signed_text(xy.0);
            let ty = signed_text(xy.1);
            assert(mouse_text(mouse, tools) =~= seq!['|'] + (tx + (seq![' '] + ty)));
            lemma_parts(s, i, seq!['|'], tx + (seq![' '] + ty));
            lemma_parts(s, i + 1, tx, seq![' '] + ty);
            let j = i + 1 + tx.len();
            lemma_parts(s, j, seq![' '], ty);
            lemma_char_at(s, i, seq!['|'], 0);
            lemma_char_at(s, j, seq![' '], 0);
            lemma_signed_starts(xy.0);
            lemma_signed_starts(xy.1);
            lemma_char_at(s, i + 1, tx, 0);
            lemma_char_at(s, j + 1, ty, 0);
            lemma_run_end_is(s, i + 1, i + 1, CharClass::Blank);
            lemma_reads_signed(s, i + 1, xy.0);
            lemma_run_end_is(s, j, j + 1, CharClass::Blank);
            lemma_reads_signed(s, j + 1, xy.1);
        },
        None => {
            if tools is Some {
                lemma_char_at(s, i, seq!['|'], 0);
                lemma_run_end_is(s, i + 1, i + 1, CharClass::Blank);
            }
        },
    }
}

/// The tool part of a line is read as it was written, where the end of the
/// line follows it.
pub proof fn lemma_reads_tools(s: Seq<char>, i: int, tools: Option<ToolModel>)
    requires
        starts_with(s, i, tools_text(tools)),
        tools is Some ==> tool_well_formed(tools->0),
        i + tools_text(tools).len() < s.len(),
        s[i + tools_text(tools).len()] == '\n',
    ensures
        tool_at(s, i) == (tools, i + tools_text(tools).len()),
{
    match tools {
        Some(tool) => {
            lemma_parts(s, i, seq!['|'], tool_text(tool));
            lemma_char_at(s, i, seq!['|'], 0);
            match tool {
                ToolModel::SetPos { x, y, z, yaw, pitch } => {
                    assert(tool_text(tool)[0] == 's');
                },
            }
            lemma_char_at(s, i + 1, tool_text(tool), 0);
            lemma_run_end_is(s, i + 1, i + 1, CharClass::Blank);
            lemma_reads_tool(s, i + 1, tool);
        },
        None => {},
    }
}

/// The first character of a line is a plus sign or a digit.
pub proof fn lemma_line_starts(line: LineModel)
    ensures
        line_text(line).len() > 0,
        line_text(line)[0] == '+' || is_digit(line_text(line)[0]),
{
    lemma_decimal_digits(line.tick as nat);
    assert(tick_text(line).len() > 0);
    assert(line_text(line)[0] == tick_text(line)[0]);
}

/// Where the parts of a line stand in a text that holds the line at `i`:
/// the tick's digits at `k`, the `>` at `j`, the mouse part at `e` and the
/// tool part at `m`.
pub proof fn lemma_line_parts(s: Seq<char>, i: int, line: LineModel)
    requires
        starts_with(s, i, line_text(line)),
    ensures
        ({
            let k = i + if line.relative {
                1int
            } else {
                0int
            };
            let j = k + decimal_digits(line.tick as nat).len();
            let e = j + 1 + line.keys.len();
            let m = e + mouse_text(line.mouse, line.tools).len();
            &&& line.relative ==> s[i] == '+'
            &&& starts_with(s, k, decimal_digits(line.tick as nat))
            &&& s[j] == '>'
            &&& starts_with(s, j + 1, line.keys)
            &&& starts_with(s, e, mouse_text(line.mouse, line.tools))
            &&& starts_with(s, m, tools_text(line.tools))
            &&& m + tools_text(line.tools).len() == i + line_text(line).len()
        }),
{
    let sign = if line.relative {
        seq!['+']
    } else {
        Seq::<char>::empty()
    };
    let digits = decimal_digits(line.tick as nat);
    let tm = mouse_text(line.mouse, line.tools);
    let tt = tools_text(line.tools);
    assert(line_text(line) =~= sign + (digits + (seq!['>'] + (line.keys + (tm + tt)))));
    lemma_parts(s, i, sign, digits + (seq!['>'] + (line.keys + (tm + tt))));
    let k = i + sign.len();
    lemma_parts(s, k, digits, seq!['>'] + (line.keys + (tm + tt)));
    let j = k + digits.len();
    lemma_parts(s, j, seq!['>'], line.keys + (tm + tt));
    lemma_parts(s, j + 1, line.keys, tm + tt);
    lemma_parts(s, j + 1 + line.keys.len(), tm, tt);
    lemma_char_at(s, j, seq!['>'], 0);
    if line.relative {
        lemma_char_at(s, i, sign, 0);
        assert(sign.len() == 1);
    } else {
        assert(sign.len() == 0);
    }
    assert(line_text(line).len() == sign.len() + digits.len() + 1 + line.keys.len() + tm.len()
        + tt.len());
}

/// The key letters of a line that stand before a bar or a line feed are read
/// whole.
pub proof fn lemma_reads_keys(s: Seq<char>, i: int, keys: Seq<char>)
    requires
        starts_with(s, i, keys),
        forall|k: int| 0 <= k < keys.len() ==> is_key(#[trigger] keys[k]),
        i + keys.len() < s.len(),
        s[i + keys.len()] == '|' || s[i + keys.len()] == '\n',
    ensures
        run_end(s, i, CharClass::Key) == i + keys.len(),
        s.subrange(i, i + keys.len()) == keys,
{
    assert forall|n: int| i <= n < i + keys.len() implies CharClass::Key.holds(#[trigger] s[n]) by {
        lemma_char_at(s, i, keys, n - i);
    }
    lemma_run_end_is(s, i, i + keys.len(), CharClass::Key);
}

/// A line that stands before a line feed is read as it was written.
pub proof fn lemma_reads_line(s: Seq<char>, i: int, line: LineModel)
    requires
        starts_with(s, i, line_text(line)),
        line_well_formed(line),
        i + line_text(line).len() < s.len(),
        s[i + line_text(line).len()] == '\n',
    ensures
        line_at(s, i) == Some((line, i + line_text(line).len())),
{
    let digits = decimal_digits(line.tick as nat);
    let tm = mouse_text(line.mouse, line.tools);
    let tt = tools_text(line.tools);
    let k = i + if line.relative {
        1int
    } else {
        0int
    };
    let j = k + digits.len();
    let e = j + 1 + line.keys.len();
    let m = e + tm.len();
    lemma_line_parts(s, i, line);
    lemma_decimal_digits(line.tick as nat);
    lemma_char_at(s, k, digits, 0);
    assert(s[m] == if line.tools is Some {
        '|'
    } else {
        '\n'
    }) by {
        if line.tools is Some {
            lemma_char_at(s, m, tt, 0);
        }
    }
    assert(s[e] == '|' || s[e] == '\n') by {
        if tm.len() > 0 {
            lemma_char_at(s, e, tm, 0);
        }
    }
    lemma_reads_number(s, k, line.tick as nat, 0xffff_ffff);
    lemma_reads_keys(s, j + 1, line.keys);
    lemma_reads_mouse(s, e, line.mouse, line.tools);
    lemma_reads_tools(s, m, line.tools);
}

/// A line feed before a line, or at the end of the text, is all the white
/// space and comment that stands there.
pub proof fn lemma_line_feed_ends(s: Seq<char>, j: int)
    requires
        0 <= j < s.len(),
        s[j] == '\n',
        j + 1 < s.len() ==> s[j + 1] == '+' || is_digit(s[j + 1]),
    ensures
        trivia_end(s, j) == j + 1,
{
    lemma_run_end_is(s, j, j + 1, CharClass::Space);
    if j + 3 <= s.len() {
        assert(s.subrange(j + 1, j + 3)[0] == s[j + 1]);
        assert(comment_mark()[0] == '/');
    }
}

/// Whether a text is a word: a letter or an underscore, and letters, digits
/// and underscores behind it.
pub open spec fn is_word(word: Seq<char>) -> bool {
    &&& word.len() > 0
    &&& is_word_start(word[0])
    &&& forall|k: int| 0 <= k < word.len() ==> is_word_char(#[trigger] word[k])
}

/// A word that stands before something that no word holds is read whole.
pub proof fn lemma_reads_word(s: Seq<char>, i: int, word: Seq<char>)
    requires
        starts_with(s, i, word),
        is_word(word),
        i + word.len() < s.len() ==> !is_word_char(s[i + word.len()]),
    ensures
        word_end(s, i) == Some(i + word.len()),
        keyword_end(s, i, word) == Some(i + word.len()),
{
    lemma_char_at(s, i, word, 0);
    assert forall|k: int| i + 1 <= k < i + word.len() implies CharClass::Word.holds(
        #[trigger] s[k],
    ) by {
        lemma_char_at(s, i, word, k - i);
    }
    lemma_run_end_is(s, i + 1, i + word.len(), CharClass::Word);
}

/// Whether a way to start holds what the grammar can write: the path of a
/// save file is not empty, does not begin with white space, and holds no
/// control character.
pub open spec fn start_well_formed(start: StartModel) -> bool {
    match start {
        StartModel::Save(path) => {
            &&& path.len() > 0
            &&& !is_space(path[0])
            &&& forall|k: int| 0 <= k < path.len() ==> !is_ascii_control(#[trigger] path[k])
        },
        _ => true,
    }
}

/// A way to start that stands before a line feed is read as it was written.
pub proof fn lemma_reads_start(s: Seq<char>, g: int, start: StartModel)
    requires
        starts_with(s, g, start_text(start)),
        start_well_formed(start),
        g + start_text(start).len() < s.len(),
        s[g + start_text(start).len()] == '\n',
    ensures
        start_at(s, g) == Some((start, g + start_text(start).len())),
{
    match start {
        StartModel::Now => {
            assert(start_text(start) =~= word_now());
            lemma_reads_word(s, g, word_now());
            assert(word_now().len() != word_newgame().len());
        },
        StartModel::NewGame => {
            assert(start_text(start) =~= word_newgame());
            lemma_reads_word(s, g, word_newgame());
        },
        StartModel::Save(path) => {
            assert(start_text(start) =~= word_save() + (seq![' '] + path));
            lemma_parts(s, g, word_save(), seq![' '] + path);
            lemma_parts(s, g + 4, seq![' '], path);
            lemma_char_at(s, g + 4, seq![' '], 0);
            lemma_char_at(s, g + 5, path, 0);
            lemma_reads_word(s, g, word_save());
            assert(word_save().len() != word_newgame().len());
            assert(word_save().len() != word_now().len());
            lemma_run_end_is(s, g + 4, g + 5, CharClass::Space);
            let e = g + 5 + path.len();
            assert forall|k: int| g + 5 <= k < e implies CharClass::Path.holds(#[trigger] s[k]) by {
                lemma_char_at(s, g + 5, path, k - (g + 5));
            }
            lemma_run_end_is(s, g + 5, e, CharClass::Path);
            assert(s.subrange(g + 5, e) =~= path);
        },
    }
}

/// Lines that stand at the end of a text, each ended by a line feed, are
/// read as they were written.
pub proof fn lemma_reads_lines(s: Seq<char>, i: int, lines: Seq<LineModel>)
    requires
        starts_with(s, i, lines_text(lines)),
        i + lines_text(lines).len() == s.len(),
        forall|k: int| 0 <= k < lines.len() ==> line_well_formed(#[trigger] lines[k]),
    ensures
        lines_from(s, i) == (lines, s.len() as int),
    decreases lines.len(),
{
    if lines.len() == 0 {
        assert(lines =~= Seq::<LineModel>::empty());
    } else {
        let first = line_text(lines[0]);
        let rest = lines.drop_first();
        lemma_parts(s, i, first + seq!['\n'], lines_text(rest));
        lemma_parts(s, i, first, seq!['\n']);
        let j = i + first.len();
        lemma_char_at(s, j, seq!['\n'], 0);
        lemma_reads_line(s, i, lines[0]);
        if rest.len() > 0 {
            lemma_line_starts(rest[0]);
            lemma_char_at(s, j + 1, lines_text(rest), 0);
            assert(lines_text(rest)[0] == line_text(rest[0])[0]);
        }
        lemma_line_feed_ends(s, j);
        assert forall|k: int| 0 <= k < rest.len() implies line_well_formed(#[trigger] rest[k]) by {
            assert(rest[k] == lines[k + 1]);
        }
        lemma_reads_lines(s, j + 1, rest);
        assert(seq![lines[0]] + rest =~= lines);
    }
}

/// Whether a script holds what the grammar can write: a way to start that it
/// can write, and one or more lines that it can write.
pub open spec fn well_formed(script: ScriptModel) -> bool {
    &&& start_well_formed(script.start)
    &&& script.lines.len() > 0
    &&& forall|k: int| 0 <= k < script.lines.len() ==> line_well_formed(#[trigger] script.lines[k])
}

/// The first character of a way to start is a letter.
pub proof fn lemma_start_starts(start: StartModel)
    ensures
        start_text(start).len() > 0,
        start_text(start)[0] == 'n' || start_text(start)[0] == 's',
{
}

/// The first line of a canonical text: the version.
pub open spec fn version_line(version: u64) -> Seq<char> {
    word_version() + seq![' '] + decimal_digits(version as nat) + seq!['\n']
}

/// The second line of a canonical text: the way to start.
pub open spec fn start_line(start: StartModel) -> Seq<char> {
    word_start() + seq![' '] + start_text(start) + seq!['\n']
}

/// The version line at the start of a text, before something that is no
/// white space, is read as it was written.
pub proof fn lemma_reads_version_line(s: Seq<char>, version: u64)
    requires
        starts_with(s, 0, version_line(version)),
        version_line(version).len() < s.len(),
        !is_space(s[version_line(version).len() as int]),
    ensures
        run_end(s, 0, CharClass::Space) == 0,
        keyword_end(s, 0, word_version()) == Some(7int),
        run_end(s, 7, CharClass::Space) == 8,
        number_at(s, 8, 0xffff_ffff_ffff_ffff) == Some(
            (version as nat, 8int + decimal_digits(version as nat).len()),
        ),
        run_end(s, 8int + decimal_digits(version as nat).len(), CharClass::Space) == version_line(
            version,
        ).len(),
{
    let digits = decimal_digits(version as nat);
    lemma_decimal_digits(version as nat);
    assert(version_line(version) =~= word_version() + (seq![' '] + (digits + seq!['\n'])));
    lemma_parts(s, 0, word_version(), seq![' '] + (digits + seq!['\n']));
    lemma_parts(s, 7, seq![' '], digits + seq!['\n']);
    lemma_parts(s, 8, digits, seq!['\n']);
    let d: int = 8int + digits.len();
    lemma_char_at(s, 0, word_version(), 0);
    lemma_char_at(s, 7, seq![' '], 0);
    lemma_char_at(s, 8, digits, 0);
    lemma_char_at(s, d, seq!['\n'], 0);
    lemma_run_end_is(s, 0, 0, CharClass::Space);
    lemma_reads_word(s, 0, word_version());
    lemma_run_end_is(s, 7, 8, CharClass::Space);
    lemma_reads_number(s, 8, version as nat, 0xffff_ffff_ffff_ffff);
    lemma_run_end_is(s, d, d + 1, CharClass::Space);
}

/// The start line before a line, or at the end of the text, is read as it
/// was written.
pub proof fn lemma_reads_start_line(s: Seq<char>, e: int, start: StartModel)
    requires
        starts_with(s, e, start_line(start)),
        start_well_formed(start),
        e + start_line(start).len() < s.len() ==> s[e + start_line(start).len()] == '+'
            || is_digit(s[e + start_line(start).len()]),
    ensures
        keyword_end(s, e, word_start()) == Some(e + 5),
        run_end(s, e + 5, CharClass::Space) == e + 6,
        start_at(s, e + 6) == Some((start, e + 6 + start_text(start).len())),
        trivia_end(s, e + 6 + start_text(start).len()) == e + start_line(start).len(),
{
    let st = start_text(start);
    lemma_start_starts(start);
    assert(start_line(start) =~= word_start() + (seq![' '] + (st + seq!['\n'])));
    lemma_parts(s, e, word_start(), seq![' '] + (st + seq!['\n']));
    lemma_parts(s, e + 5, seq![' '], st + seq!['\n']);
    lemma_parts(s, e + 6, st, seq!['\n']);
    let h: int = e + 6 + st.len();
    lemma_char_at(s, e, word_start(), 0);
    lemma_char_at(s, e + 5, seq![' '], 0);
    lemma_char_at(s, e + 6, st, 0);
    lemma_char_at(s, h, seq!['\n'], 0);
    lemma_reads_word(s, e, word_start());
    lemma_run_end_is(s, e + 5, e + 6, CharClass::Space);
    lemma_reads_start(s, e + 6, start);
    lemma_line_feed_ends(s, h);
}

/// A canonical text is its version line, its start line and its lines, one
/// behind the other.
pub proof fn lemma_script_text_parts(script: ScriptModel)
    ensures
        starts_with(script_text(script), 0, version_line(script.version)),
        starts_with(
            script_text(script),
            version_line(script.version).len() as int,
            start_line(script.start),
        ),
        starts_with(
            script_text(script),
            (version_line(script.version).len() + start_line(script.start).len()) as int,
            lines_text(script.lines),
        ),
        script_text(script).len() == version_line(script.version).len() + start_line(
            script.start,
        ).len() + lines_text(script.lines).len(),
{
    let s = script_text(script);
    let first = version_line(script.version);
    let second = start_line(script.start);
    let lt = lines_text(script.lines);
    assert(head_text(script) =~= first + second);
    assert(s =~= first + (second + lt));
    assert(s.subrange(0, s.len() as int) =~= s);
    lemma_parts(s, 0, first, second + lt);
    lemma_parts(s, first.len() as int, second, lt);
}

/// A text is read as a script where its parts are read one behind the
/// other, up to the end of the text.
pub proof fn lemma_parse_by_steps(
    s: Seq<char>,
    script: ScriptModel,
    d: int,
    e: int,
    h: int,
    t: int,
)
    requires
        run_end(s, 0, CharClass::Space) == 0,
        keyword_end(s, 0, word_version()) == Some(7int),
        run_end(s, 7, CharClass::Space) == 8,
        number_at(s, 8, 0xffff_ffff_ffff_ffff) == Some((script.version as nat, d)),
        run_end(s, d, CharClass::Space) == e,
        keyword_end(s, e, word_start()) == Some(e + 5),
        run_end(s, e + 5, CharClass::Space) == e + 6,
        start_at(s, e + 6) == Some((script.start, h)),
        trivia_end(s, h) == t,
        lines_from(s, t) == (script.lines, s.len() as int),
        script.lines.len() > 0,
    ensures
        parse_text(s) == Ok::<ScriptModel, Failure>(script),
{
}

/// The canonical text of a script that holds what the grammar can write is
/// read as that script.
pub proof fn lemma_reads_script(script: ScriptModel)
    requires
        well_formed(script),
    ensures
        parse_text(script_text(script)) == Ok::<ScriptModel, Failure>(script),
{
    let s = script_text(script);
    let first = version_line(script.version);
    let second = start_line(script.start);
    let lt = lines_text(script.lines);
    let e: int = first.len() as int;
    let t: int = e + second.len();
    lemma_script_text_parts(script);
    assert(s[t] == '+' || is_digit(s[t])) by {
        lemma_line_starts(script.lines[0]);
        assert(lt.len() > 0 && lt[0] == line_text(script.lines[0])[0]);
        lemma_char_at(s, t, lt, 0);
    }
    assert(!is_space(s[e])) by {
        lemma_char_at(s, e, second, 0);
        assert(second[0] == 's');
    }
    lemma_reads_version_line(s, script.version);
    lemma_reads_start_line(s, e, script.start);
    lemma_reads_lines(s, t, script.lines);
    lemma_parse_by_steps(
        s,
        script,
        8int + decimal_digits(script.version as nat).len(),
        e,
        e + 6 + start_text(script.start).len(),
        t,
    );
}

/// A real number that was read is written as the grammar writes one.
pub proof fn lemma_read_decimal_is_well_formed(s: Seq<char>, i: int)
    requires
        decimal_at(s, i) is Some,
    ensures
        decimal_well_formed((decimal_at(s, i)->0).0),
{
    let negative = 0 <= i < s.len() && s[i] == '-';
    let k = if negative {
        i + 1
    } else {
        i
    };
    let j = numeral_end(s, k)->0;
    let d = (decimal_at(s, i)->0).0;
    if s[k] != '0' {
        lemma_run_end(s, k + 1, CharClass::Digit);
    }
    assert forall|n: int| 0 <= n < d.whole.len() implies is_digit(#[trigger] d.whole[n]) by {
        assert(d.whole[n] == s[k + n]);
    }
    assert(d.whole[0] == s[k]);
    lemma_run_end(s, j + 1, CharClass::Digit);
    assert forall|n: int| 0 <= n < d.fraction.len() implies is_digit(#[trigger] d.fraction[n]) by {
        assert(d.fraction[n] == s[j + 1 + n]);
    }
}

/// A tool that was read is written as the grammar writes one.
pub proof fn lemma_read_tool_is_well_formed(s: Seq<char>, i: int)
    requires
        setpos_at(s, i) is Some,
    ensures
        tool_well_formed((setpos_at(s, i)->0).0),
{
    let a = (spaced_decimal_at(s, i + 6)->0).1;
    let b = (spaced_decimal_at(s, a)->0).1;
    let c = (spaced_decimal_at(s, b)->0).1;
    let d = (spaced_decimal_at(s, c)->0).1;
    lemma_read_decimal_is_well_formed(s, run_end(s, i + 6, CharClass::Blank));
    lemma_read_decimal_is_well_formed(s, run_end(s, a, CharClass::Blank));
    lemma_read_decimal_is_well_formed(s, run_end(s, b, CharClass::Blank));
    lemma_read_decimal_is_well_formed(s, run_end(s, c, CharClass::Blank));
    lemma_read_decimal_is_well_formed(s, run_end(s, d, CharClass::Blank));
}

/// A line that was read holds what the grammar can write.
pub proof fn lemma_read_line_is_well_formed(s: Seq<char>, i: int)
    requires
        line_at(s, i) is Some,
    ensures
        line_well_formed((line_at(s, i)->0).0),
{
    let relative = 0 <= i < s.len() && s[i] == '+';
    let k = if relative {
        i + 1
    } else {
        i
    };
    let j = (number_at(s, k, 0xffff_ffff)->0).1;
    let line = (line_at(s, i)->0).0;
    if s[k] != '0' {
        lemma_run_end(s, k + 1, CharClass::Digit);
    }
    lemma_run_end(s, j + 1, CharClass::Key);
    assert forall|n: int| 0 <= n < line.keys.len() implies is_key(#[trigger] line.keys[n]) by {
        assert(line.keys[n] == s[j + 1 + n]);
    }
    let e = run_end(s, j + 1, CharClass::Key);
    let m = mouse_at(s, e).1;
    if line.tools is Some {
        lemma_read_tool_is_well_formed(s, run_end(s, m + 1, CharClass::Blank));
    }
}

/// The lines that were read hold what the grammar can write.
pub proof fn lemma_read_lines_are_well_formed(s: Seq<char>, i: int)
    ensures
        forall|k: int|
            0 <= k < lines_from(s, i).0.len() ==> line_well_formed(
                #[trigger] lines_from(s, i).0[k],
            ),
    decreases s.len() - i,
{
    match line_at(s, i) {
        Some((line, j)) => {
            lemma_read_line_is_well_formed(s, i);
            let t = trivia_end(s, j);
            if i < t <= s.len() {
                lemma_read_lines_are_well_formed(s, t);
                let rest = lines_from(s, t).0;
                assert forall|k: int| 0 <= k < lines_from(s, i).0.len() implies line_well_formed(
                    #[trigger] lines_from(s, i).0[k],
                ) by {
                    if k > 0 {
                        assert(lines_from(s, i).0[k] == rest[k - 1]);
                    }
                }
            }
        },
        None => {},
    }
}

/// Where a way to start was read and a line follows it, the way to start
/// holds what the grammar can write.
pub proof fn lemma_read_start_is_well_formed(s: Seq<char>, g: int)
    requires
        start_at(s, g) is Some,
        lines_from(s, trivia_end(s, (start_at(s, g)->0).1)).0.len() > 0,
    ensures
        start_well_formed((start_at(s, g)->0).0),
{
    let j = word_end(s, g)->0;
    lemma_run_end(s, g + 1, CharClass::Word);
    match (start_at(s, g)->0).0 {
        StartModel::Save(path) => {
            let p = run_end(s, j, CharClass::Space);
            lemma_run_end(s, j, CharClass::Space);
            let q = run_end(s, p, CharClass::Path);
            lemma_run_end(s, p, CharClass::Path);
            assert(path =~= s.subrange(p, q));
            if q == p {
                lemma_run_end_is(s, p, p, CharClass::Space);
                if p + 2 <= s.len() {
                    assert(s.subrange(p, p + 2)[0] == s[p]);
                    assert(comment_mark()[0] == '/');
                }
                assert(trivia_end(s, p) == p);
                assert(line_at(s, p) is None);
                assert(false);
            }
            assert(path[0] == s[p]);
            assert forall|k: int| 0 <= k < path.len() implies !is_ascii_control(
                #[trigger] path[k],
            ) by {
                assert(path[k] == s[p + k]);
            }
        },
        _ => {},
    }
}

/// A script that was read holds what the grammar can write.
pub proof fn lemma_read_script_is_well_formed(s: Seq<char>)
    requires
        parse_text(s) is Ok,
    ensures
        well_formed(parse_text(s)->Ok_0),
{
    let a = run_end(s, 0, CharClass::Space);
    let b = keyword_end(s, a, word_version())->0;
    let c = run_end(s, b, CharClass::Space);
    let d = (number_at(s, c, 0xffff_ffff_ffff_ffff)->0).1;
    let e = run_end(s, d, CharClass::Space);
    let f = keyword_end(s, e, word_start())->0;
    let g = run_end(s, f, CharClass::Space);
    let h = (start_at(s, g)->0).1;
    lemma_read_start_is_well_formed(s, g);
    lemma_read_lines_are_well_formed(s, trivia_end(s, h));
}

/// A playable script has no defect, and its lines stand on their absolute
/// ticks already.
pub proof fn lemma_playable_is_settled(script: ScriptModel)
    requires
        playable(script),
    ensures
        defect(script) is None,
        absolute(script) == script,
{
    let lines = script.lines;
    assert forall|k: int| 0 <= k < lines.len() implies absolute_tick(lines, k)
        == lines[k].tick by {}
    lemma_first_misplaced(lines, 1);
    let k = first_misplaced(lines, 1);
    if k < lines.len() {
        assert(absolute_tick(lines, k - 1) == lines[k - 1].tick);
        assert(absolute_tick(lines, k) == lines[k].tick);
        assert(follows(lines, k));
    }
    assert(resolved(lines, lines.len() as int) =~= lines);
}

/// To put the lines of a script on their absolute ticks changes neither its
/// key letters nor its tools nor its way to start.
pub proof fn lemma_absolute_stays_well_formed(script: ScriptModel)
    requires
        well_formed(script),
    ensures
        well_formed(absolute(script)),
{
    let done = absolute(script);
    assert forall|k: int| 0 <= k < done.lines.len() implies line_well_formed(
        #[trigger] done.lines[k],
    ) by {
        assert(line_well_formed(script.lines[k]));
    }
}

/// A playable script that holds what the grammar can write is what its
/// canonical text says.
pub proof fn lemma_canonical_text_is_loaded(script: ScriptModel)
    requires
        well_formed(script),
        playable(script),
    ensures
        load(script_text(script)) == Ok::<ScriptModel, ScriptError>(script),
{
    lemma_reads_script(script);
    lemma_playable_is_settled(script);
}

/// A script survives being written down and read again. Where a text says a
/// playable script, the canonical text of that script says the same script:
/// the same version and way to start, and line for line the same tick, key
/// letters, mouse target and tool.
pub proof fn lemma_round_trip(s: Seq<char>)
    requires
        load(s) is Ok,
    ensures
        load(script_text(load(s)->Ok_0)) == load(s),
        forall|k: int|
            0 <= k < load(s)->Ok_0.lines.len() ==> {
                let again = load(script_text(load(s)->Ok_0))->Ok_0.lines[k];
                let line = #[trigger] load(s)->Ok_0.lines[k];
                again.tick == line.tick && again.keys == line.keys && again.mouse == line.mouse
            },
{
    let written = parse_text(s)->Ok_0;
    lemma_read_script_is_well_formed(s);
    lemma_absolute_stays_well_formed(written);
    crate::script::lemma_absolute_is_playable(written);
    lemma_canonical_text_is_loaded(absolute(written));
}

} // verus!
