//! The canonical text of a script: the one way to write down what a script
//! holds, which reads back as the same script.

use vstd::prelude::*;
use crate::decimal::{decimal_digits, push_decimal};
use crate::grammar::{word_setpos, word_start, word_version};
use crate::script::{
    DecimalModel, DecimalNumber, LineModel, Script, ScriptLine, ScriptModel, StartModel,
    StartType, Tool, ToolModel,
};
use crate::text::{chars_of, push_all, string_of};

verus! {

/// An integer in decimal notation, with a minus sign where it is negative.
pub open spec fn signed_text(v: i32) -> Seq<char> {
    if v < 0 {
        seq!['-'] + decimal_digits((-(v as int)) as nat)
    } else {
        decimal_digits(v as nat)
    }
}

/// A real number as it was written.
pub open spec fn decimal_text(d: DecimalModel) -> Seq<char> {
    (if d.negative {
        seq!['-']
    } else {
        Seq::<char>::empty()
    }) + d.whole + seq!['.'] + d.fraction
}

/// A real number as it was written, behind a space.
pub open spec fn spaced_decimal_text(d: DecimalModel) -> Seq<char> {
    seq![' '] + decimal_text(d)
}

/// A tool: its word and its numbers, each behind a space.
pub open spec fn tool_text(tool: ToolModel) -> Seq<char> {
    match tool {
        ToolModel::SetPos { x, y, z, yaw, pitch } => word_setpos() + spaced_decimal_text(x)
            + spaced_decimal_text(y) + spaced_decimal_text(z) + spaced_decimal_text(yaw)
            + spaced_decimal_text(pitch),
    }
}

/// The mouse part of a line: a bar and the two coordinates with a space
/// between them; a bar alone where the mouse stays and a tool follows;
/// nothing where neither is there.
pub open spec fn mouse_text(mouse: Option<(i32, i32)>, tools: Option<ToolModel>) -> Seq<char> {
    match mouse {
        Some(xy) => seq!['|'] + signed_text(xy.0) + seq![' '] + signed_text(xy.1),
        None => if tools is Some {
            seq!['|']
        } else {
            Seq::<char>::empty()
        },
    }
}

/// The tool part of a line: a bar and the tool, or nothing.
pub open spec fn tools_text(tools: Option<ToolModel>) -> Seq<char> {
    match tools {
        Some(tool) => seq!['|'] + tool_text(tool),
        None => Seq::<char>::empty(),
    }
}

/// The tick of a line, behind a plus sign where it is relative.
pub open spec fn tick_text(line: LineModel) -> Seq<char> {
    (if line.relative {
        seq!['+']
    } else {
        Seq::<char>::empty()
    }) + decimal_digits(line.tick as nat)
}

/// A line without the line feed that ends it.
pub open spec fn line_text(line: LineModel) -> Seq<char> {
    tick_text(line) + seq!['>'] + line.keys + mouse_text(line.mouse, line.tools) + tools_text(
        line.tools,
    )
}

/// Lines, each ended by a line feed.
pub open spec fn lines_text(lines: Seq<LineModel>) -> Seq<char>
    decreases lines.len(),
{
    if lines.len() == 0 {
        Seq::<char>::empty()
    } else {
        line_text(lines[0]) + seq!['\n'] + lines_text(lines.drop_first())
    }
}

/// The way to start, as its word; a save file's path follows its word behind
/// a space.
pub open spec fn start_text(start: StartModel) -> Seq<char> {
    match start {
        StartModel::Now => seq!['n', 'o', 'w'],
        StartModel::NewGame => seq!['n', 'e', 'w', 'g', 'a', 'm', 'e'],
        StartModel::Save(path) => seq!['s', 'a', 'v', 'e', ' '] + path,
    }
}

/// The head of a script: the version on the first line, the way to start on
/// the second.
pub open spec fn head_text(script: ScriptModel) -> Seq<char> {
    word_version() + seq![' '] + decimal_digits(script.version as nat) + seq!['\n'] + word_start()
        + seq![' '] + start_text(script.start) + seq!['\n']
}

/// The canonical text of a script.
pub open spec fn script_text(script: ScriptModel) -> Seq<char> {
    head_text(script) + lines_text(script.lines)
}

/// Appends an integer in decimal notation.
pub fn push_signed(out: &mut Vec<char>, v: i32)
    ensures
        final(out)@ == old(out)@ + signed_text(v),
{
    if v < 0 {
        out.push('-');
        push_decimal(out, (0 - (v as i64)) as u64);
        assert(out@ =~= old(out)@ + signed_text(v));
    } else {
        push_decimal(out, v as u64);
    }
}

/// Appends a real number as it was written, behind a space.
pub fn push_spaced_decimal(out: &mut Vec<char>, d: &DecimalNumber)
    ensures
        final(out)@ == old(out)@ + spaced_decimal_text(d.deep_view()),
{
    out.push(' ');
    if d.negative {
        out.push('-');
    }
    push_all(out, &d.whole);
    out.push('.');
    push_all(out, &d.fraction);
    assert(out@ =~= old(out)@ + spaced_decimal_text(d.deep_view()));
}

/// Appends the tick of a line.
pub fn push_tick(out: &mut Vec<char>, line: &ScriptLine)
    ensures
        final(out)@ == old(out)@ + tick_text(line.deep_view()),
{
    if line.relative {
        out.push('+');
    }
    push_decimal(out, line.tick as u64);
    assert(out@ =~= old(out)@ + tick_text(line.deep_view()));
}

/// Appends the mouse part of a line.
pub fn push_mouse(out: &mut Vec<char>, line: &ScriptLine)
    ensures
        final(out)@ == old(out)@ + mouse_text(line.deep_view().mouse, line.deep_view().tools),
{
    match line.mouse {
        Some(xy) => {
            out.push('|');
            push_signed(out, xy.0);
            out.push(' ');
            push_signed(out, xy.1);
        },
        None => {
            if line.tools.is_some() {
                out.push('|');
            }
        },
    }
    assert(out@ =~= old(out)@ + mouse_text(line.deep_view().mouse, line.deep_view().tools));
}

/// Appends a tool.
pub fn push_tool(out: &mut Vec<char>, tool: &Tool)
    ensures
        final(out)@ == old(out)@ + tool_text(tool.deep_view()),
{
    match tool {
        Tool::SetPos { x, y, z, yaw, pitch } => {
            let word = vec!['s', 'e', 't', 'p', 'o', 's'];
            assert(word@ =~= word_setpos());
            push_all(out, &word);
            push_spaced_decimal(out, x);
            push_spaced_decimal(out, y);
            push_spaced_decimal(out, z);
            push_spaced_decimal(out, yaw);
            push_spaced_decimal(out, pitch);
            assert(out@ =~= old(out)@ + tool_text(tool.deep_view()));
        },
    }
}

/// Appends the tool part of a line.
pub fn push_tools(out: &mut Vec<char>, line: &ScriptLine)
    ensures
        final(out)@ == old(out)@ + tools_text(line.deep_view().tools),
{
    match &line.tools {
        Some(tool) => {
            out.push('|');
            push_tool(out, tool);
            assert(out@ =~= old(out)@ + tools_text(line.deep_view().tools));
        },
        None => {
            assert(out@ =~= old(out)@ + tools_text(line.deep_view().tools));
        },
    }
}

/// Appends a line and the line feed that ends it.
pub fn push_line(out: &mut Vec<char>, line: &ScriptLine)
    ensures
        final(out)@ == old(out)@ + line_text(line.deep_view()) + seq!['\n'],
{
    push_tick(out, line);
    out.push('>');
    push_all(out, &line.keys);
    push_mouse(out, line);
    push_tools(out, line);
    out.push('\n');
    assert(out@ =~= old(out)@ + line_text(line.deep_view()) + seq!['\n']);
}

impl Script {
    /// Writes the script as its canonical text.
    pub fn to_text(&self) -> (text: String)
        ensures
            text@ == script_text(self.deep_view()),
    {
        let mut out: Vec<char> = Vec::new();
        let version = vec!['v', 'e', 'r', 's', 'i', 'o', 'n'];
        let start = vec!['s', 't', 'a', 'r', 't'];
        assert(version@ =~= word_version());
        assert(start@ =~= word_start());
        push_all(&mut out, &version);
        out.push(' ');
        push_decimal(&mut out, self.version);
        out.push('\n');
        push_all(&mut out, &start);
        out.push(' ');
        let ghost before_start = out@;
        match &self.start {
            StartType::Now => {
                let word = vec!['n', 'o', 'w'];
                push_all(&mut out, &word);
            },
            StartType::NewGame => {
                let word = vec!['n', 'e', 'w', 'g', 'a', 'm', 'e'];
                push_all(&mut out, &word);
            },
            StartType::Save(path) => {
                let word = vec!['s', 'a', 'v', 'e', ' '];
                push_all(&mut out, &word);
                let path = chars_of(path.as_str());
                push_all(&mut out, &path);
            },
        }
        assert(out@ =~= before_start + start_text(self.deep_view().start));
        out.push('\n');
        assert(out@ =~= head_text(self.deep_view()));
        let ghost lines = self.lines.deep_view();
        let mut k: usize = 0;
        assert(lines.skip(0) =~= lines);
        while k < self.lines.len()
            invariant
                k <= self.lines.len(),
                lines == self.lines.deep_view(),
                out@ + lines_text(lines.skip(k as int)) == script_text(self.deep_view()),
            decreases self.lines.len() - k,
        {
            let ghost rest = lines.skip(k as int);
            let ghost before = out@;
            push_line(&mut out, &self.lines[k]);
            proof {
                assert(rest[0] == self.lines[k as int].deep_view());
                assert(rest.drop_first() =~= lines.skip(k + 1));
                assert(out@ + lines_text(lines.skip(k + 1)) =~= before + lines_text(rest));
            }
            k += 1;
        }
        assert(lines.skip(k as int).len() == 0);
        assert(out@ + Seq::<char>::empty() =~= out@);
        string_of(&out)
    }
}

} // verus!
