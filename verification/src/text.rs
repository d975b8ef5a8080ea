//! Characters, character classes and maximal runs of a class in a text.

use vstd::prelude::*;

verus! {

/// Appends one character to a string: `String::push` of the standard library,
/// which vstd leaves without a specification. The string afterwards is the
/// string before followed by `c`.
#[verifier::external_body]
pub(crate) fn push_char(s: &mut String, c: char)
    ensures
        final(s)@ == old(s)@.push(c),
{
    s.push(c)
}

/// The characters of a string, in order.
pub fn chars_of(s: &str) -> (chars: Vec<char>)
    ensures
        chars@ == s@,
{
    let mut chars: Vec<char> = Vec::new();
    let source = s.chars();
    for c in it: source
        invariant
            it.seq() == s@,
            chars@ == it.seq().take(it.index() as int),
    {
        chars.push(c);
    }
    assert(chars@ =~= s@);
    chars
}

/// The string made of the given characters, in order.
pub fn string_of(chars: &Vec<char>) -> (s: String)
    ensures
        s@ == chars@,
{
    let mut s = String::new();
    let mut i: usize = 0;
    while i < chars.len()
        invariant
            i <= chars.len(),
            s@ == chars@.take(i as int),
        decreases chars.len() - i,
    {
        push_char(&mut s, chars[i]);
        i += 1;
    }
    assert(s@ =~= chars@);
    s
}

/// Appends the characters of `tail` to `out`.
pub fn push_all(out: &mut Vec<char>, tail: &Vec<char>)
    ensures
        final(out)@ == old(out)@ + tail@,
{
    let mut i: usize = 0;
    while i < tail.len()
        invariant
            i <= tail.len(),
            out@ == old(out)@ + tail@.take(i as int),
        decreases tail.len() - i,
    {
        out.push(tail[i]);
        i += 1;
        assert(out@ =~= old(out)@ + tail@.take(i as int));
    }
    assert(tail@.take(tail.len() as int) =~= tail@);
}

/// Appends the characters of the string `tail` to `out`.
pub fn push_str(out: &mut Vec<char>, tail: &str)
    ensures
        final(out)@ == old(out)@ + tail@,
{
    let chars = chars_of(tail);
    push_all(out, &chars);
}

/// The classes of characters that the script grammar tells apart.
#[derive(Clone, Copy, Debug, PartialEq, Eq, Structural)]
pub enum CharClass {
    /// White space, line breaks included.
    Space,
    /// White space that keeps to the line: a space or a tab.
    Blank,
    /// A decimal digit.
    Digit,
    /// A letter, a digit or an underscore.
    Word,
    /// One of the key letters of a script line.
    Key,
    /// Anything that may stand in a file path: all but the control characters
    /// of ASCII.
    Path,
    /// Anything but a line break.
    Inline,
}

/// The characters with the Unicode property `White_Space`.
pub open spec fn is_space(c: char) -> bool {
    let u = c as u32;
    ||| 0x09 <= u <= 0x0D
    ||| u == 0x20
    ||| u == 0x85
    ||| u == 0xA0
    ||| u == 0x1680
    ||| 0x2000 <= u <= 0x200A
    ||| u == 0x2028
    ||| u == 0x2029
    ||| u == 0x202F
    ||| u == 0x205F
    ||| u == 0x3000
}

/// A space or a tab.
pub open spec fn is_blank(c: char) -> bool {
    c == ' ' || c == '\t'
}

/// The characters that end a line: line feed, carriage return, vertical tab,
/// form feed, next line, line separator and paragraph separator.
pub open spec fn is_line_break(c: char) -> bool {
    let u = c as u32;
    ||| 0x0A <= u <= 0x0D
    ||| u == 0x85
    ||| u == 0x2028
    ||| u == 0x2029
}

/// A decimal digit.
pub open spec fn is_digit(c: char) -> bool {
    '0' <= c <= '9'
}

/// A letter of ASCII or an underscore: what a word starts with.
pub open spec fn is_word_start(c: char) -> bool {
    ||| 'a' <= c <= 'z'
    ||| 'A' <= c <= 'Z'
    ||| c == '_'
}

/// A letter of ASCII, a digit or an underscore.
pub open spec fn is_word_char(c: char) -> bool {
    is_word_start(c) || is_digit(c)
}

/// One of the twelve key letters: upper case presses, lower case releases.
pub open spec fn is_key(c: char) -> bool {
    ||| c == 'U' || c == 'u'
    ||| c == 'D' || c == 'd'
    ||| c == 'L' || c == 'l'
    ||| c == 'R' || c == 'r'
    ||| c == 'S' || c == 's'
    ||| c == 'P' || c == 'p'
}

/// A control character of ASCII.
pub open spec fn is_ascii_control(c: char) -> bool {
    let u = c as u32;
    u <= 0x1F || u == 0x7F
}

impl CharClass {
    /// Whether `c` belongs to the class.
    pub open spec fn holds(self, c: char) -> bool {
        match self {
            CharClass::Space => is_space(c),
            CharClass::Blank => is_blank(c),
            CharClass::Digit => is_digit(c),
            CharClass::Word => is_word_char(c),
            CharClass::Key => is_key(c),
            CharClass::Path => !is_ascii_control(c),
            CharClass::Inline => !is_line_break(c),
        }
    }

    /// Tests whether `c` belongs to the class.
    pub fn test(self, c: char) -> (r: bool)
        ensures
            r == self.holds(c),
    {
        let u: u32 = c as u32;
        match self {
            CharClass::Space => {
                (0x09 <= u && u <= 0x0D) || u == 0x20 || u == 0x85 || u == 0xA0 || u == 0x1680
                    || (0x2000 <= u && u <= 0x200A) || u == 0x2028 || u == 0x2029 || u == 0x202F
                    || u == 0x205F || u == 0x3000
            },
            CharClass::Blank => c == ' ' || c == '\t',
            CharClass::Digit => test_digit(c),
            CharClass::Word => test_word_start(c) || test_digit(c),
            CharClass::Key => {
                c == 'U' || c == 'u' || c == 'D' || c == 'd' || c == 'L' || c == 'l' || c == 'R'
                    || c == 'r' || c == 'S' || c == 's' || c == 'P' || c == 'p'
            },
            CharClass::Path => !(u <= 0x1F || u == 0x7F),
            CharClass::Inline => !((0x0A <= u && u <= 0x0D) || u == 0x85 || u == 0x2028 || u
                == 0x2029),
        }
    }
}

/// Tests whether `c` is a decimal digit.
pub fn test_digit(c: char) -> (r: bool)
    ensures
        r == is_digit(c),
{
    '0' <= c && c <= '9'
}

/// Tests whether a word may start with `c`.
pub fn test_word_start(c: char) -> (r: bool)
    ensures
        r == is_word_start(c),
{
    ('a' <= c && c <= 'z') || ('A' <= c && c <= 'Z') || c == '_'
}

/// The end of the longest run of characters of `class` that starts at `i`:
/// `i` itself where the character at `i` is not of the class, or `i` is not a
/// position of the text.
pub open spec fn run_end(s: Seq<char>, i: int, class: CharClass) -> int
    decreases s.len() - i,
{
    if 0 <= i < s.len() && class.holds(s[i]) {
        run_end(s, i + 1, class)
    } else {
        i
    }
}

/// A run ends inside the text, behind characters of the class only, and at a
/// character that is not of the class, if at any.
pub proof fn lemma_run_end(s: Seq<char>, i: int, class: CharClass)
    requires
        0 <= i <= s.len(),
    ensures
        i <= run_end(s, i, class) <= s.len(),
        forall|k: int| i <= k < run_end(s, i, class) ==> class.holds(#[trigger] s[k]),
        run_end(s, i, class) < s.len() ==> !class.holds(s[run_end(s, i, class)]),
    decreases s.len() - i,
{
    if i < s.len() && class.holds(s[i]) {
        lemma_run_end(s, i + 1, class);
    }
}

/// The run that starts at `i` ends at `j` where the characters between are of
/// the class and the one at `j`, if any, is not.
pub proof fn lemma_run_end_is(s: Seq<char>, i: int, j: int, class: CharClass)
    requires
        0 <= i <= j <= s.len(),
        forall|k: int| i <= k < j ==> class.holds(#[trigger] s[k]),
        j < s.len() ==> !class.holds(s[j]),
    ensures
        run_end(s, i, class) == j,
    decreases j - i,
{
    if i < j {
        lemma_run_end_is(s, i + 1, j, class);
    }
}

/// Finds the end of the longest run of characters of `class` from `i` on.
pub fn scan(s: &[char], i: usize, class: CharClass) -> (j: usize)
    requires
        i <= s.len(),
    ensures
        j == run_end(s@, i as int, class),
        i <= j <= s.len(),
{
    let mut j: usize = i;
    while j < s.len() && class.test(s[j])
        invariant
            i <= j <= s.len(),
            run_end(s@, j as int, class) == run_end(s@, i as int, class),
        decreases s.len() - j,
    {
        j += 1;
    }
    j
}

/// Whether the characters of `word` stand in `s` from `i` on.
pub open spec fn starts_with(s: Seq<char>, i: int, word: Seq<char>) -> bool {
    &&& 0 <= i
    &&& i + word.len() <= s.len()
    &&& s.subrange(i, i + word.len()) == word
}

/// Tests whether the characters of `word` stand in `s` from `i` on.
pub fn test_starts_with(s: &[char], i: usize, word: &[char]) -> (r: bool)
    requires
        i <= s.len(),
    ensures
        r == starts_with(s@, i as int, word@),
{
    if word.len() > s.len() - i {
        return false;
    }
    let mut k: usize = 0;
    while k < word.len()
        invariant
            i + word.len() <= s.len(),
            k <= word.len(),
            s@.subrange(i as int, i + k) == word@.take(k as int),
        decreases word.len() - k,
    {
        if s[i + k] != word[k] {
            assert(s@.subrange(i as int, i + word.len())[k as int] != word@[k as int]);
            return false;
        }
        k += 1;
        assert(s@.subrange(i as int, i + k) =~= word@.take(k as int));
    }
    assert(word@.take(word.len() as int) =~= word@);
    true
}

} // verus!
