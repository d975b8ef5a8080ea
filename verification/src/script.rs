//! Timed input scripts: what a script holds, and what makes one playable.

use vstd::prelude::*;
use crate::decimal::{decimal_digits, push_decimal};
use crate::grammar::{parse_text, read_script, Expected};
use crate::roundtrip::{
    lemma_absolute_stays_well_formed, lemma_read_script_is_well_formed, well_formed,
};
use crate::text::{chars_of, push_str, string_of};

verus! {

/// How a playback run begins.
#[derive(Debug, Clone)]
pub enum StartType {
    /// In the world as it is.
    Now,
    /// From a new game.
    NewGame,
    /// From the save file at the given path.
    Save(String),
}

/// A real number as a script writes it: an optional minus sign, a whole part
/// without leading zeros, a point, and any number of further digits.
#[derive(Debug, Clone)]
pub struct DecimalNumber {
    pub negative: bool,
    pub whole: Vec<char>,
    pub fraction: Vec<char>,
}

/// An action that a line performs once, beside its inputs.
#[derive(Debug, Clone)]
pub enum Tool {
    /// Put the player at a position, looking along the given angles.
    SetPos { x: DecimalNumber, y: DecimalNumber, z: DecimalNumber, yaw: DecimalNumber, pitch: DecimalNumber },
}

/// One line of a script: the inputs that change on a tick.
#[derive(Debug, Clone)]
pub struct ScriptLine {
    /// Whether `tick` counts from the line before; never so in a playable
    /// script.
    pub relative: bool,
    pub tick: u32,
    /// Key letters in the order written: upper case presses, lower case
    /// releases.
    pub keys: Vec<char>,
    /// Where the mouse is put, if it moves.
    pub mouse: Option<(i32, i32)>,
    pub tools: Option<Tool>,
}

/// A script: a format version, a way to start, and lines in the order of
/// their ticks.
#[derive(Debug, Clone)]
pub struct Script {
    pub version: u64,
    pub start: StartType,
    pub lines: Vec<ScriptLine>,
}

/// The only format version that is played.
pub const SUPPORTED_VERSION: u64 = 0;

/// What a [`StartType`] holds.
pub enum StartModel {
    Now,
    NewGame,
    Save(Seq<char>),
}

/// What a [`DecimalNumber`] holds.
pub struct DecimalModel {
    pub negative: bool,
    pub whole: Seq<char>,
    pub fraction: Seq<char>,
}

/// What a [`Tool`] holds.
pub enum ToolModel {
    SetPos { x: DecimalModel, y: DecimalModel, z: DecimalModel, yaw: DecimalModel, pitch: DecimalModel },
}

/// What a [`ScriptLine`] holds.
pub struct LineModel {
    pub relative: bool,
    pub tick: u32,
    pub keys: Seq<char>,
    pub mouse: Option<(i32, i32)>,
    pub tools: Option<ToolModel>,
}

/// What a [`Script`] holds.
pub struct ScriptModel {
    pub version: u64,
    pub start: StartModel,
    pub lines: Seq<LineModel>,
}

impl DeepView for StartType {
    type V = StartModel;

    open spec fn deep_view(&self) -> StartModel {
        match self {
            StartType::Now => StartModel::Now,
            StartType::NewGame => StartModel::NewGame,
            StartType::Save(path) => StartModel::Save(path@),
        }
    }
}

impl DeepView for DecimalNumber {
    type V = DecimalModel;

    open spec fn deep_view(&self) -> DecimalModel {
        DecimalModel { negative: self.negative, whole: self.whole@, fraction: self.fraction@ }
    }
}

impl DeepView for Tool {
    type V = ToolModel;

    open spec fn deep_view(&self) -> ToolModel {
        match self {
            Tool::SetPos { x, y, z, yaw, pitch } => ToolModel::SetPos {
                x: x.deep_view(),
                y: y.deep_view(),
                z: z.deep_view(),
                yaw: yaw.deep_view(),
                pitch: pitch.deep_view(),
            },
        }
    }
}

impl DeepView for ScriptLine {
    type V = LineModel;

    open spec fn deep_view(&self) -> LineModel {
        LineModel {
            relative: self.relative,
            tick: self.tick,
            keys: self.keys@,
            mouse: self.mouse,
            tools: match self.tools {
                Some(tool) => Some(tool.deep_view()),
                None => None,
            },
        }
    }
}

impl DeepView for Script {
    type V = ScriptModel;

    open spec fn deep_view(&self) -> ScriptModel {
        ScriptModel {
            version: self.version,
            start: self.start.deep_view(),
            lines: self.lines.deep_view(),
        }
    }
}

/// Why a text is not a playable script.
#[derive(Clone, Copy, Debug, PartialEq, Eq, Structural)]
pub enum ScriptError {
    /// The text stops being a script on the given line, counted from one.
    Syntax { line: usize, expected: Expected },
    /// The script is of a format version that is not played.
    InvalidVersion(u64),
    /// The script has no line.
    NoLines,
    /// A line's tick is not behind `threshold`, the tick of the line before.
    TickOrder { threshold: u32 },
    /// A line's tick, counted from `threshold`, the tick of the line before,
    /// does not fit 32 bits.
    TickOverflow { threshold: u32 },
}

/// The words for what was expected, as an error message names it.
pub open spec fn expected_text(expected: Expected) -> Seq<char> {
    match expected {
        Expected::VersionKeyword => "the word version"@,
        Expected::VersionNumber => "a version number"@,
        Expected::StartKeyword => "the word start"@,
        Expected::StartKind => "one of now, newgame, save"@,
        Expected::Line => "a line"@,
    }
}

impl ScriptError {
    /// The message that reports the error.
    pub open spec fn text(self) -> Seq<char> {
        match self {
            ScriptError::Syntax { line, expected } => "line "@ + decimal_digits(line as nat)
                + ": expected "@ + expected_text(expected),
            ScriptError::InvalidVersion(version) => "Invalid version "@ + decimal_digits(
                version as nat,
            ),
            ScriptError::NoLines => "Expected at least one line."@,
            ScriptError::TickOrder { threshold } => "Expected tick bigger than "@ + decimal_digits(
                threshold as nat,
            ) + "."@,
            ScriptError::TickOverflow { threshold } => "Expected tick that fits 32 bits after "@
                + decimal_digits(threshold as nat) + "."@,
        }
    }

    /// Writes the message that reports the error.
    pub fn message(&self) -> (text: String)
        ensures
            text@ == self.text(),
    {
        let mut out: Vec<char> = Vec::new();
        match self {
            ScriptError::Syntax { line, expected } => {
                push_str(&mut out, "line ");
                push_decimal(&mut out, *line as u64);
                push_str(&mut out, ": expected ");
                match expected {
                    Expected::VersionKeyword => push_str(&mut out, "the word version"),
                    Expected::VersionNumber => push_str(&mut out, "a version number"),
                    Expected::StartKeyword => push_str(&mut out, "the word start"),
                    Expected::StartKind => push_str(&mut out, "one of now, newgame, save"),
                    Expected::Line => push_str(&mut out, "a line"),
                }
            },
            ScriptError::InvalidVersion(version) => {
                push_str(&mut out, "Invalid version ");
                push_decimal(&mut out, *version);
            },
            ScriptError::NoLines => {
                push_str(&mut out, "Expected at least one line.");
            },
            ScriptError::TickOrder { threshold } => {
                push_str(&mut out, "Expected tick bigger than ");
                push_decimal(&mut out, *threshold as u64);
                push_str(&mut out, ".");
            },
            ScriptError::TickOverflow { threshold } => {
                push_str(&mut out, "Expected tick that fits 32 bits after ");
                push_decimal(&mut out, *threshold as u64);
                push_str(&mut out, ".");
            },
        }
        assert(out@ =~= self.text());
        string_of(&out)
    }
}

/// The number of line feeds among the first `upto` characters of `s`.
pub open spec fn line_feeds(s: Seq<char>, upto: int) -> nat
    decreases upto,
{
    if upto <= 0 {
        0
    } else {
        line_feeds(s, upto - 1) + if s[upto - 1] == '\n' {
            1nat
        } else {
            0nat
        }
    }
}

/// The number of the line that holds position `offset` of `s`, counted from
/// one: one more than the line feeds before that position. It stays at the
/// largest number that the machine can hold.
pub open spec fn line_number(s: Seq<char>, offset: int) -> usize {
    if line_feeds(s, offset) < usize::MAX {
        (line_feeds(s, offset) + 1) as usize
    } else {
        usize::MAX
    }
}

/// Finds the number of the line that holds position `offset` of `s`.
pub fn find_line(s: &[char], offset: usize) -> (line: usize)
    requires
        offset <= s.len(),
    ensures
        line == line_number(s@, offset as int),
{
    let mut feeds: usize = 0;
    let mut k: usize = 0;
    while k < offset
        invariant
            k <= offset <= s.len(),
            feeds == line_feeds(s@, k as int),
            feeds <= k,
        decreases offset - k,
    {
        if s[k] == '\n' {
            feeds += 1;
        }
        k += 1;
    }
    if feeds < usize::MAX {
        feeds + 1
    } else {
        feeds
    }
}

/// The tick of line `k` counted from the start of the run: its own tick, or,
/// where the line is relative and not the first, that tick added to the tick
/// so counted of the line before.
pub open spec fn absolute_tick(lines: Seq<LineModel>, k: int) -> int
    decreases k,
{
    if k <= 0 || !lines[k].relative {
        lines[k].tick as int
    } else {
        absolute_tick(lines, k - 1) + lines[k].tick
    }
}

/// Whether line `k` comes behind the line before it, on a tick that fits 32
/// bits.
pub open spec fn follows(lines: Seq<LineModel>, k: int) -> bool {
    absolute_tick(lines, k - 1) < absolute_tick(lines, k) <= u32::MAX
}

/// The first line from `k` on that does not follow the line before it; the
/// number of lines where there is none.
pub open spec fn first_misplaced(lines: Seq<LineModel>, k: int) -> int
    decreases lines.len() - k,
{
    if 1 <= k < lines.len() && follows(lines, k) {
        first_misplaced(lines, k + 1)
    } else {
        k
    }
}

/// The lines with the first `upto` of them put on their absolute ticks.
pub open spec fn resolved(lines: Seq<LineModel>, upto: int) -> Seq<LineModel> {
    Seq::new(
        lines.len(),
        |k: int|
            if k < upto {
                LineModel {
                    relative: false,
                    tick: absolute_tick(lines, k) as u32,
                    ..lines[k]
                }
            } else {
                lines[k]
            },
    )
}

/// Why a script as written cannot be played, if it cannot: its version is not
/// the supported one, it has no line, or a line does not follow the line
/// before it.
pub open spec fn defect(script: ScriptModel) -> Option<ScriptError> {
    let k = first_misplaced(script.lines, 1);
    if script.version != SUPPORTED_VERSION {
        Some(ScriptError::InvalidVersion(script.version))
    } else if script.lines.len() == 0 {
        Some(ScriptError::NoLines)
    } else if k >= script.lines.len() {
        None
    } else if absolute_tick(script.lines, k) > u32::MAX {
        Some(ScriptError::TickOverflow { threshold: absolute_tick(script.lines, k - 1) as u32 })
    } else {
        Some(ScriptError::TickOrder { threshold: absolute_tick(script.lines, k - 1) as u32 })
    }
}

/// The script as it is played: every line on its absolute tick.
pub open spec fn absolute(script: ScriptModel) -> ScriptModel {
    ScriptModel { lines: resolved(script.lines, script.lines.len() as int), ..script }
}

/// What a text is as a playable script, or why it is none.
pub open spec fn load(s: Seq<char>) -> Result<ScriptModel, ScriptError> {
    match parse_text(s) {
        Err(failure) => Err(
            ScriptError::Syntax {
                line: line_number(s, failure.offset),
                expected: failure.expected,
            },
        ),
        Ok(script) => match defect(script) {
            Some(error) => Err(error),
            None => Ok(absolute(script)),
        },
    }
}

/// Whether a script can be played: it is of the supported version, has a
/// line, and its lines stand on absolute ticks that grow from line to line.
pub open spec fn playable(script: ScriptModel) -> bool {
    &&& script.version == SUPPORTED_VERSION
    &&& script.lines.len() > 0
    &&& forall|k: int| 0 <= k < script.lines.len() ==> !(#[trigger] script.lines[k]).relative
    &&& forall|j: int, k: int|
        0 <= j < k < script.lines.len() ==> (#[trigger] script.lines[j]).tick < (
        #[trigger] script.lines[k]).tick
}

/// All lines before the first misplaced one follow the line before them.
pub proof fn lemma_first_misplaced(lines: Seq<LineModel>, from: int)
    requires
        1 <= from <= lines.len(),
    ensures
        from <= first_misplaced(lines, from) <= lines.len(),
        forall|k: int| from <= k < first_misplaced(lines, from) ==> follows(lines, k),
        first_misplaced(lines, from) < lines.len() ==> !follows(
            lines,
            first_misplaced(lines, from),
        ),
    decreases lines.len() - from,
{
    if from < lines.len() && follows(lines, from) {
        lemma_first_misplaced(lines, from + 1);
    }
}

/// An absolute tick is not negative.
pub proof fn lemma_absolute_tick_natural(lines: Seq<LineModel>, k: int)
    ensures
        0 <= absolute_tick(lines, k),
    decreases k,
{
    if k > 0 && lines[k].relative {
        lemma_absolute_tick_natural(lines, k - 1);
    }
}

/// Where every line follows the one before, the absolute ticks fit 32 bits
/// and grow from each line to every later one.
pub proof fn lemma_ticks_grow(lines: Seq<LineModel>, j: int, k: int)
    requires
        0 <= j <= k < lines.len(),
        forall|i: int| 1 <= i < lines.len() ==> follows(lines, i),
    ensures
        0 <= absolute_tick(lines, j) <= absolute_tick(lines, k) <= u32::MAX,
        j < k ==> absolute_tick(lines, j) < absolute_tick(lines, k),
    decreases k - j,
{
    lemma_absolute_tick_natural(lines, j);
    if j < k {
        lemma_ticks_grow(lines, j, k - 1);
        assert(follows(lines, k));
    } else if j >= 1 {
        assert(follows(lines, j));
    }
}

/// A script without a defect is playable once its lines are put on their
/// absolute ticks.
pub proof fn lemma_absolute_is_playable(script: ScriptModel)
    requires
        defect(script) is None,
    ensures
        playable(absolute(script)),
{
    let lines = script.lines;
    let done = absolute(script).lines;
    lemma_first_misplaced(lines, 1);
    assert forall|j: int, k: int| 0 <= j < k < done.len() implies (#[trigger] done[j]).tick < (
    #[trigger] done[k]).tick by {
        lemma_ticks_grow(lines, j, k);
    }
}

/// Lines out of order are never accepted: where some line's absolute tick is
/// not behind that of the line before it, the script has a defect.
pub proof fn lemma_unordered_lines_are_rejected(script: ScriptModel, k: int)
    requires
        1 <= k < script.lines.len(),
        absolute_tick(script.lines, k) <= absolute_tick(script.lines, k - 1),
    ensures
        defect(script) is Some,
{
    lemma_first_misplaced(script.lines, 1);
    if first_misplaced(script.lines, 1) > k {
        assert(follows(script.lines, k));
    }
}

/// A text whose lines are out of order is never read as a script: loading it
/// gives an error.
pub proof fn lemma_unordered_text_is_rejected(s: Seq<char>, k: int)
    requires
        parse_text(s) is Ok,
        1 <= k < parse_text(s)->Ok_0.lines.len(),
        absolute_tick(parse_text(s)->Ok_0.lines, k) <= absolute_tick(
            parse_text(s)->Ok_0.lines,
            k - 1,
        ),
    ensures
        load(s) is Err,
{
    lemma_unordered_lines_are_rejected(parse_text(s)->Ok_0, k);
}

impl Script {
    /// Checks that the script can be played and puts every line on its
    /// absolute tick: a relative tick counts from the line before.
    ///
    /// On an error the lines before the misplaced one are on their absolute
    /// ticks already; the others are as they were.
    pub fn pre_process(&mut self) -> (r: Result<(), ScriptError>)
        ensures
            final(self).version == old(self).version,
            final(self).start == old(self).start,
            match r {
                Ok(_) => defect(old(self).deep_view()) is None && final(self).deep_view()
                    == absolute(old(self).deep_view()),
                Err(error) => defect(old(self).deep_view()) == Some(error)
                    && final(self).lines.deep_view() == resolved(
                    old(self).lines.deep_view(),
                    match error {
                        ScriptError::TickOrder { .. } | ScriptError::TickOverflow { .. } =>
                            first_misplaced(old(self).lines.deep_view(), 1),
                        _ => 0,
                    },
                ),
            },
    {
        let ghost lines = self.lines.deep_view();
        if self.version != SUPPORTED_VERSION {
            assert(self.lines.deep_view() =~= resolved(lines, 0));
            return Err(ScriptError::InvalidVersion(self.version));
        }
        if self.lines.len() == 0 {
            assert(self.lines.deep_view() =~= resolved(lines, 0));
            return Err(ScriptError::NoLines);
        }
        self.lines[0].relative = false;
        let mut tick: u32 = self.lines[0].tick;
        let mut k: usize = 1;
        assert(self.lines.deep_view() =~= resolved(lines, 1));
        while k < self.lines.len()
            invariant
                1 <= k <= self.lines.len(),
                self.lines.len() == lines.len(),
                self.version == old(self).version,
                self.version == SUPPORTED_VERSION,
                self.start == old(self).start,
                lines == old(self).lines.deep_view(),
                self.lines.deep_view() == resolved(lines, k as int),
                tick == absolute_tick(lines, k - 1),
                first_misplaced(lines, 1) == first_misplaced(lines, k as int),
            decreases self.lines.len() - k,
        {
            assert(self.lines.deep_view()[k as int] == lines[k as int]);
            let own: u32 = self.lines[k].tick;
            let relative: bool = self.lines[k].relative;
            let next: u64 = if relative {
                tick as u64 + own as u64
            } else {
                own as u64
            };
            assert(next == absolute_tick(lines, k as int));
            if next > 0xffff_ffff {
                assert(!follows(lines, k as int));
                return Err(ScriptError::TickOverflow { threshold: tick });
            }
            if next <= tick as u64 {
                assert(!follows(lines, k as int));
                return Err(ScriptError::TickOrder { threshold: tick });
            }
            assert(follows(lines, k as int));
            let ghost before = self.lines@;
            self.lines[k].relative = false;
            self.lines[k].tick = next as u32;
            assert(self.lines@.len() == before.len());
            assert(forall|i: int| 0 <= i < before.len() && i != k ==> self.lines@[i] == before[i]);
            assert(self.lines@[k as int].keys == before[k as int].keys);
            assert(self.lines@[k as int].mouse == before[k as int].mouse);
            assert(self.lines@[k as int].tools == before[k as int].tools);
            assert(self.lines@[k as int].tick == next);
            assert(!self.lines@[k as int].relative);
            tick = next as u32;
            k += 1;
            assert forall|i: int| 0 <= i < lines.len() implies #[trigger] self.lines.deep_view()[i]
                == resolved(lines, k as int)[i] by {
                if i != k - 1 {
                    assert(self.lines@[i] == before[i]);
                    assert(before[i].deep_view() == resolved(lines, k - 1)[i]);
                } else {
                    assert(before[i].deep_view() == lines[i]);
                }
            }
            assert(self.lines.deep_view() =~= resolved(lines, k as int));
        }
        assert(self.lines.deep_view() =~= absolute(old(self).deep_view()).lines);
        Ok(())
    }

    /// Reads a text as a script and checks that it can be played.
    pub fn parse(src: &str) -> (r: Result<Script, ScriptError>)
        ensures
            match r {
                Ok(script) => load(src@) == Ok::<ScriptModel, ScriptError>(script.deep_view())
                    && playable(script.deep_view()) && well_formed(script.deep_view()),
                Err(error) => load(src@) == Err::<ScriptModel, ScriptError>(error),
            },
    {
        let chars = chars_of(src);
        match read_script(chars.as_slice()) {
            Err((offset, expected)) => Err(
                ScriptError::Syntax { line: find_line(chars.as_slice(), offset), expected },
            ),
            Ok(script) => {
                let mut script = script;
                let ghost written = script.deep_view();
                match script.pre_process() {
                    Ok(_) => {
                        proof {
                            lemma_absolute_is_playable(written);
                            lemma_read_script_is_well_formed(src@);
                            lemma_absolute_stays_well_formed(written);
                        }
                        Ok(script)
                    },
                    Err(error) => Err(error),
                }
            },
        }
    }

    /// Reads a text as a script and checks that it can be played. What is
    /// wrong with a text that is none is reported as a list of messages.
    pub fn try_from(src: String) -> (r: Result<Script, Vec<String>>)
        ensures
            match r {
                Ok(script) => load(src@) == Ok::<ScriptModel, ScriptError>(script.deep_view())
                    && playable(script.deep_view()) && well_formed(script.deep_view()),
                Err(messages) => load(src@) is Err && messages.deep_view() == seq![
                    load(src@)->Err_0.text(),
                ],
            },
    {
        match Script::parse(src.as_str()) {
            Ok(script) => Ok(script),
            Err(error) => {
                let mut messages: Vec<String> = Vec::new();
                messages.push(error.message());
                assert(messages.deep_view() =~= seq![error.text()]);
                Err(messages)
            },
        }
    }
}

} // verus!
