use easymacros::instruction::Instruction;
use easymacros::parser::{parse_line, parse_script, serialize_script};

fn parses_to(line: &str, expected: &Instruction) {
    match parse_line(line) {
        Ok(i) => assert!(i.eq_instr(expected), "line {:?} parsed to {:?}", line, i),
        Err(e) => panic!("line {:?} was rejected: {}", line, e.explanation),
    }
}

fn rejected(line: &str) {
    match parse_line(line) {
        Ok(i) => panic!("line {:?} was accepted as {:?}", line, i),
        Err(e) => assert_eq!(e.line, line),
    }
}

#[test]
fn parses_every_keyword() {
    parses_to("Delay 250", &Instruction::Delay(250));
    parses_to("ButtonPress 1", &Instruction::ButtonPress(1));
    parses_to("ButtonRelease 3", &Instruction::ButtonRelease(3));
    parses_to("MotionNotify 100 -200", &Instruction::MotionNotify(100, -200));
    parses_to("KeyCodePress 40", &Instruction::KeyCodePress(40));
    parses_to("KeyCodeRelease 40", &Instruction::KeyCodeRelease(40));
    parses_to(
        "KeySymPress Super_L",
        &Instruction::KeySymPress(String::from("Super_L")),
    );
    parses_to(
        "KeySymRelease Super_L",
        &Instruction::KeySymRelease(String::from("Super_L")),
    );
    parses_to("KeySym d", &Instruction::KeySym(String::from("d")));
    parses_to(
        "KeyStrPress space",
        &Instruction::KeyStrPress(String::from("space")),
    );
    parses_to(
        "KeyStrRelease space",
        &Instruction::KeyStrRelease(String::from("space")),
    );
    parses_to("KeyStr space", &Instruction::KeyStr(String::from("space")));
}

#[test]
fn string_takes_the_rest_of_the_line() {
    parses_to(
        "String hello world",
        &Instruction::Str(String::from("hello world")),
    );
    parses_to("String ", &Instruction::Str(String::from("")));
    rejected("String");
}

#[test]
fn unknown_keyword_rejected() {
    rejected("Screenshot 1");
    rejected("");
    rejected("delay 250");
}

#[test]
fn wrong_argument_count_rejected() {
    rejected("ButtonPress");
    rejected("ButtonPress 1 2");
    rejected("Delay");
    rejected("Delay 1 2");
    rejected("MotionNotify 1");
    rejected("MotionNotify 1 2 3");
    rejected("KeySym");
    rejected("KeySym a b");
    rejected("KeyCodePress");
}

#[test]
fn bad_numbers_rejected() {
    rejected("Delay x");
    rejected("Delay -1");
    rejected("Delay 1.5");
    rejected("ButtonPress 4294967296");
    rejected("Delay 18446744073709551616");
    rejected("MotionNotify 2147483648 0");
    rejected("MotionNotify 0 -2147483649");
    rejected("KeyCodePress 1x");
}

#[test]
fn extreme_numbers_accepted() {
    parses_to("Delay 18446744073709551615", &Instruction::Delay(u64::MAX));
    parses_to("ButtonPress 4294967295", &Instruction::ButtonPress(u32::MAX));
    parses_to(
        "MotionNotify 2147483647 -2147483648",
        &Instruction::MotionNotify(i32::MAX, i32::MIN),
    );
    parses_to("Delay 007", &Instruction::Delay(7));
}

#[test]
fn double_space_makes_an_empty_token() {
    rejected("Delay  250");
    rejected(" Delay 250");
}

#[test]
fn serialized_line_parses_back() {
    let lines = [
        "Delay 250",
        "ButtonPress 1",
        "MotionNotify -5 7",
        "KeyCodeRelease 40",
        "KeySym d",
        "KeyStrPress space",
        "String hello world",
        "Delay 007",
    ];
    for line in lines {
        let first = parse_line(line).unwrap();
        let reprinted = first.to_line();
        let second = parse_line(reprinted.as_str()).unwrap();
        assert!(
            first.eq_instr(&second),
            "round trip of {:?} through {:?} changed the instruction",
            line,
            reprinted
        );
    }
}

#[test]
fn serialization_is_canonical() {
    assert_eq!(parse_line("Delay 007").unwrap().to_line(), "Delay 7");
    assert_eq!(
        parse_line("MotionNotify 100 -200").unwrap().to_line(),
        "MotionNotify 100 -200"
    );
    assert_eq!(
        Instruction::KeySym(String::from("Super_L")).to_line(),
        "KeySym Super_L"
    );
}

#[test]
fn script_parses_line_by_line() {
    let script = "KeySymPress Super_L\nKeySymPress d\nKeyCodeRelease 40\nKeySymRelease Super_L";
    let parsed = parse_script(script).unwrap();
    assert_eq!(parsed.len(), 4);
    assert!(parsed[0].eq_instr(&Instruction::KeySymPress(String::from("Super_L"))));
    assert!(parsed[1].eq_instr(&Instruction::KeySymPress(String::from("d"))));
    assert!(parsed[2].eq_instr(&Instruction::KeyCodeRelease(40)));
    assert!(parsed[3].eq_instr(&Instruction::KeySymRelease(String::from("Super_L"))));
}

#[test]
fn script_trailing_newline_and_empty() {
    assert_eq!(parse_script("").unwrap().len(), 0);
    assert_eq!(parse_script("Delay 1\n").unwrap().len(), 1);
    assert_eq!(parse_script("Delay 1\nDelay 2\n").unwrap().len(), 2);
    assert!(parse_script("Delay 1\n\nDelay 2").is_err());
}

#[test]
fn script_error_carries_the_bad_line() {
    let err = parse_script("Delay 1\nButtonPress\nDelay 2").unwrap_err();
    assert_eq!(err.line, "ButtonPress");
}

#[test]
fn script_round_trip() {
    let script = "Delay 250\nKeySym d\nMotionNotify 10 -20\nString hello world\n";
    let parsed = parse_script(script).unwrap();
    let reprinted = serialize_script(&parsed);
    assert_eq!(reprinted, script);
    let reparsed = parse_script(reprinted.as_str()).unwrap();
    assert_eq!(reparsed.len(), parsed.len());
    for (a, b) in parsed.iter().zip(reparsed.iter()) {
        assert!(a.eq_instr(b));
    }
}
