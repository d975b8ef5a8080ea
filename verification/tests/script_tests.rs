use witness_tas::grammar::{read_script, Expected};
use witness_tas::script::{DecimalNumber, Script, ScriptError, ScriptLine, StartType, Tool};

fn chars(text: &str) -> Vec<char> {
    text.chars().collect()
}

fn ticks(script: &Script) -> Vec<u32> {
    script.lines.iter().map(|line| line.tick).collect()
}

fn line(tick: u32, relative: bool) -> ScriptLine {
    ScriptLine { relative, tick, keys: vec![], mouse: None, tools: None }
}

fn decimal_text(d: &DecimalNumber) -> String {
    let mut text = String::new();
    if d.negative {
        text.push('-');
    }
    text.extend(d.whole.iter());
    text.push('.');
    text.extend(d.fraction.iter());
    text
}

#[test]
fn script_test_parser() {
    let script = "
        version 0
        start now
        
        1>|0 0
        2>|
        3>|0 0 
        4>|0 0 // test
        5>|0 0//test
        ";

    let res = read_script(&chars(script));
    assert!(res.is_ok())
}

#[test]
fn parsed_lines_hold_what_was_written() {
    let script = Script::try_from(
        "version 0\nstart now\n1>UL|3 -4\n+2>ulP\n10>p|\n11>S||setpos -1.5 0. 2.25 10.0 -0.125\n"
            .to_string(),
    )
    .unwrap();
    assert_eq!(script.version, 0);
    assert!(matches!(script.start, StartType::Now));
    assert_eq!(script.lines.len(), 4);
    assert_eq!(script.lines[0].tick, 1);
    assert_eq!(script.lines[0].keys, vec!['U', 'L']);
    assert_eq!(script.lines[0].mouse, Some((3, -4)));
    assert!(script.lines[0].tools.is_none());
    assert_eq!(script.lines[1].tick, 3);
    assert!(!script.lines[1].relative);
    assert_eq!(script.lines[1].keys, vec!['u', 'l', 'P']);
    assert_eq!(script.lines[1].mouse, None);
    assert_eq!(script.lines[2].tick, 10);
    assert_eq!(script.lines[2].keys, vec!['p']);
    assert_eq!(script.lines[2].mouse, None);
    assert_eq!(script.lines[3].keys, vec!['S']);
    assert_eq!(script.lines[3].mouse, None);
    match script.lines[3].tools.as_ref().unwrap() {
        Tool::SetPos { x, y, z, yaw, pitch } => {
            assert_eq!(decimal_text(x), "-1.5");
            assert_eq!(decimal_text(y), "0.");
            assert_eq!(decimal_text(z), "2.25");
            assert_eq!(decimal_text(yaw), "10.0");
            assert_eq!(decimal_text(pitch), "-0.125");
            assert!(x.negative && !y.negative && pitch.negative);
            assert_eq!(z.whole, vec!['2']);
            assert_eq!(z.fraction, vec!['2', '5']);
        }
    }
}

#[test]
fn start_kinds_are_told_apart() {
    let now = Script::try_from("version 0 start now 1>".to_string()).unwrap();
    assert!(matches!(now.start, StartType::Now));
    let newgame = Script::try_from("version 0 start newgame 1>".to_string()).unwrap();
    assert!(matches!(newgame.start, StartType::NewGame));
    let save = Script::try_from("version 0\nstart save  my saves/slot 1.sav\n1>\n".to_string())
        .unwrap();
    match save.start {
        StartType::Save(path) => assert_eq!(path, "my saves/slot 1.sav"),
        _ => panic!("expected a save"),
    }
}

#[test]
fn relative_ticks_count_from_the_line_before() {
    let script = Script::try_from("version 0\nstart now\n1>U\n+5>u\n".to_string()).unwrap();
    assert_eq!(ticks(&script), vec![1, 6]);
    assert!(script.lines.iter().all(|line| !line.relative));
}

#[test]
fn pre_process_resolves_relative_ticks() {
    let mut script = Script {
        version: 0,
        start: StartType::Now,
        lines: vec![line(1, false), line(5, true), line(7, false), line(1, true)],
    };
    assert_eq!(script.pre_process(), Ok(()));
    assert_eq!(ticks(&script), vec![1, 6, 7, 8]);
    assert!(script.lines.iter().all(|line| !line.relative));
}

#[test]
fn first_line_is_the_baseline_even_if_relative() {
    let script = Script::try_from("version 0\nstart now\n+4>U\n+5>u\n".to_string()).unwrap();
    assert_eq!(ticks(&script), vec![4, 9]);
}

#[test]
fn equal_or_decreasing_ticks_are_rejected() {
    let equal = Script::try_from("version 0\nstart now\n3>U\n3>u\n".to_string());
    assert_eq!(equal.unwrap_err(), vec!["Expected tick bigger than 3.".to_string()]);
    let decreasing = Script::try_from("version 0\nstart now\n3>U\n2>u\n".to_string());
    assert_eq!(decreasing.unwrap_err(), vec!["Expected tick bigger than 3.".to_string()]);
    let relative_zero = Script::try_from("version 0\nstart now\n3>U\n+0>u\n".to_string());
    assert_eq!(relative_zero.unwrap_err(), vec!["Expected tick bigger than 3.".to_string()]);
    let later = Script::parse("version 0\nstart now\n1>\n5>\n+2>\n6>\n");
    assert_eq!(later.unwrap_err(), ScriptError::TickOrder { threshold: 7 });
}

#[test]
fn pre_process_stops_at_the_misplaced_line() {
    let mut script = Script {
        version: 0,
        start: StartType::Now,
        lines: vec![line(1, true), line(5, true), line(6, false), line(9, true)],
    };
    assert_eq!(script.pre_process(), Err(ScriptError::TickOrder { threshold: 6 }));
    assert_eq!(ticks(&script), vec![1, 6, 6, 9]);
    assert!(!script.lines[0].relative && !script.lines[1].relative);
    assert!(!script.lines[2].relative && script.lines[3].relative);
}

#[test]
fn tick_overflow_is_rejected() {
    let r = Script::parse("version 0\nstart now\n4294967295>\n+1>\n");
    assert_eq!(r.unwrap_err(), ScriptError::TickOverflow { threshold: 4294967295 });
    let ok = Script::parse("version 0\nstart now\n4294967294>\n+1>\n").unwrap();
    assert_eq!(ticks(&ok), vec![4294967294, 4294967295]);
}

#[test]
fn version_must_be_supported() {
    let r = Script::try_from("version 1\nstart now\n1>U\n".to_string());
    assert_eq!(r.unwrap_err(), vec!["Invalid version 1".to_string()]);
    let r = Script::parse("version 18446744073709551615\nstart now\n1>U\n");
    assert_eq!(r.unwrap_err(), ScriptError::InvalidVersion(18446744073709551615));
}

#[test]
fn empty_script_is_rejected_by_pre_process() {
    let mut script = Script { version: 0, start: StartType::Now, lines: vec![] };
    assert_eq!(script.pre_process(), Err(ScriptError::NoLines));
    assert_eq!(ScriptError::NoLines.message(), "Expected at least one line.");
}

#[test]
fn syntax_errors_name_their_line() {
    let cases: Vec<(&str, usize, Expected)> = vec![
        ("", 1, Expected::VersionKeyword),
        ("\n\n  verzion 0", 3, Expected::VersionKeyword),
        ("version0\nstart now\n1>", 1, Expected::VersionKeyword),
        ("version\n x", 2, Expected::VersionNumber),
        ("version 18446744073709551616\nstart now\n1>", 1, Expected::VersionNumber),
        ("version 0\n\nbegin now", 3, Expected::StartKeyword),
        ("version 0\nstart\nlater\n1>", 3, Expected::StartKind),
        ("version 0\nstart now\n", 3, Expected::Line),
        ("version 0\nstart now\n1>U\n2>X\n", 4, Expected::Line),
        ("version 0\nstart now\n1>U\n// note\n\n+>u\n", 6, Expected::Line),
        ("version 0\nstart now\n1>U|5\n", 3, Expected::Line),
        ("version 0\nstart now\n4294967296>U\n", 3, Expected::Line),
        ("version 0\nstart now\n01>U\n", 3, Expected::Line),
    ];
    for (text, line, expected) in cases {
        assert_eq!(
            Script::parse(text).unwrap_err(),
            ScriptError::Syntax { line, expected },
            "{text:?}"
        );
    }
}

#[test]
fn error_messages() {
    assert_eq!(
        ScriptError::Syntax { line: 12, expected: Expected::VersionKeyword }.message(),
        "line 12: expected the word version"
    );
    assert_eq!(
        ScriptError::Syntax { line: 1, expected: Expected::VersionNumber }.message(),
        "line 1: expected a version number"
    );
    assert_eq!(
        ScriptError::Syntax { line: 2, expected: Expected::StartKeyword }.message(),
        "line 2: expected the word start"
    );
    assert_eq!(
        ScriptError::Syntax { line: 2, expected: Expected::StartKind }.message(),
        "line 2: expected one of now, newgame, save"
    );
    assert_eq!(
        ScriptError::Syntax { line: 305, expected: Expected::Line }.message(),
        "line 305: expected a line"
    );
    assert_eq!(ScriptError::InvalidVersion(7).message(), "Invalid version 7");
    assert_eq!(
        ScriptError::TickOrder { threshold: 40 }.message(),
        "Expected tick bigger than 40."
    );
    assert_eq!(
        ScriptError::TickOverflow { threshold: 4294967295 }.message(),
        "Expected tick that fits 32 bits after 4294967295."
    );
    let r = Script::try_from("version 0\nstart now\n1>U\n2>X\n".to_string());
    assert_eq!(r.unwrap_err(), vec!["line 4: expected a line".to_string()]);
}

#[test]
fn mouse_coordinates_cover_the_signed_range() {
    let script =
        Script::parse("version 0 start now 1>|-2147483648 2147483647 2>|-0 0").unwrap();
    assert_eq!(script.lines[0].mouse, Some((i32::MIN, i32::MAX)));
    assert_eq!(script.lines[1].mouse, Some((0, 0)));
    assert!(Script::parse("version 0 start now 1>|2147483648 0").is_err());
    assert!(Script::parse("version 0 start now 1>|-2147483649 0").is_err());
}

#[test]
fn comments_and_blank_lines_are_skipped() {
    let script = Script::parse(
        "version 0\nstart newgame\n// first\n\n  // second\n1>U // trailing\n//third\n2>u//x\n\n",
    )
    .unwrap();
    assert_eq!(ticks(&script), vec![1, 2]);
    assert_eq!(script.lines[0].keys, vec!['U']);
    assert_eq!(script.lines[1].keys, vec!['u']);
}
