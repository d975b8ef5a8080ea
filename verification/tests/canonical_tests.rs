use witness_tas::script::{DecimalNumber, Script, ScriptLine, StartType, Tool};

fn tuples(script: &Script) -> Vec<(u32, Vec<char>, Option<(i32, i32)>)> {
    script.lines.iter().map(|line| (line.tick, line.keys.clone(), line.mouse)).collect()
}

fn decimal(negative: bool, whole: &str, fraction: &str) -> DecimalNumber {
    DecimalNumber {
        negative,
        whole: whole.chars().collect(),
        fraction: fraction.chars().collect(),
    }
}

#[test]
fn canonical_text_of_a_script() {
    let script = Script {
        version: 0,
        start: StartType::Save("slots/my save.sav".to_string()),
        lines: vec![
            ScriptLine { relative: false, tick: 0, keys: vec![], mouse: None, tools: None },
            ScriptLine {
                relative: false,
                tick: 12,
                keys: vec!['U', 'p'],
                mouse: Some((-5, 0)),
                tools: None,
            },
            ScriptLine {
                relative: true,
                tick: 4294967295,
                keys: vec![],
                mouse: None,
                tools: Some(Tool::SetPos {
                    x: decimal(true, "1", "5"),
                    y: decimal(false, "0", ""),
                    z: decimal(false, "20", "25"),
                    yaw: decimal(true, "0", "0"),
                    pitch: decimal(false, "3", "14159"),
                }),
            },
            ScriptLine {
                relative: false,
                tick: 7,
                keys: vec!['s'],
                mouse: Some((i32::MIN, i32::MAX)),
                tools: Some(Tool::SetPos {
                    x: decimal(false, "1", ""),
                    y: decimal(false, "2", ""),
                    z: decimal(false, "3", ""),
                    yaw: decimal(false, "4", ""),
                    pitch: decimal(false, "5", ""),
                }),
            },
        ],
    };
    assert_eq!(
        script.to_text(),
        "version 0\nstart save slots/my save.sav\n0>\n12>Up|-5 0\n+4294967295>||setpos -1.5 0. 20.25 -0.0 3.14159\n7>s|-2147483648 2147483647|setpos 1. 2. 3. 4. 5.\n"
    );
    let now = Script { version: 3, start: StartType::Now, lines: vec![] };
    assert_eq!(now.to_text(), "version 3\nstart now\n");
    let newgame = Script { version: u64::MAX, start: StartType::NewGame, lines: vec![] };
    assert_eq!(newgame.to_text(), "version 18446744073709551615\nstart newgame\n");
}

#[test]
fn canonical_text_reads_back_as_the_same_script() {
    let texts = [
        "version 0\nstart now\n1>U\n3>u|5 -2\n",
        "  version 0 start newgame // go\n +3>UuDdLlRrSsPp| 1 2|setpos 1.0 2. 3.5 -4.25 -0. //x\n+7>\n100>P||  setpos\t0.1 0.2 0.3 0.4 0.5",
        "version 0 start save  some where/a b.sav  \n4294967294>|-2147483648 2147483647\n+1>|",
        "\n        version 0\n        start now\n        \n        1>|0 0\n        2>|\n        3>|0 0 \n        4>|0 0 // test\n        5>|0 0//test\n        ",
    ];
    for text in texts {
        let script = Script::try_from(text.to_string()).unwrap();
        let canonical = script.to_text();
        let again = Script::try_from(canonical.clone()).unwrap();
        assert_eq!(tuples(&again), tuples(&script));
        assert_eq!(format!("{again:?}"), format!("{script:?}"));
        assert_eq!(again.to_text(), canonical);
    }
}

#[test]
fn canonical_text_is_canonical() {
    let a = Script::try_from("version 0 start now 1>U|3  4 //c\n+2>u".to_string()).unwrap();
    let b = Script::try_from("version 0\n\nstart now\n1>U|\t3 4\n3>u\n\n".to_string()).unwrap();
    assert_eq!(a.to_text(), b.to_text());
    assert_eq!(a.to_text(), "version 0\nstart now\n1>U|3 4\n3>u\n");
}
