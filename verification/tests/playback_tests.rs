use easymacros::instruction::Instruction;
use easymacros::parser::{parse_line, parse_script};
use easymacros::playback::{plan_instruction, SynthAction};

/// The code lookup a live session would perform, fixed for these tests:
/// Super_L is mapped to 133, d to 44, anything else to the unmapped
/// sentinel zero.
fn test_code_for(symbol: &str) -> u32 {
    match symbol {
        "Super_L" => 133,
        "d" => 44,
        _ => 0,
    }
}

fn plan_of(i: &Instruction) -> Vec<SynthAction> {
    let code = i.required_symbol().map(|s| test_code_for(s.as_str()));
    plan_instruction(i, code)
}

#[test]
fn keysym_plans_press_then_release_of_one_code() {
    let i = parse_line("KeySym d").unwrap();
    let plan = plan_of(&i);
    assert_eq!(
        plan,
        vec![
            SynthAction::Key { code: 44, press: true },
            SynthAction::Key { code: 44, press: false },
        ]
    );
    for step in &plan {
        match step {
            SynthAction::Key { code, .. } => assert_eq!(*code, 44),
            other => panic!("KeySym planned a non-key step {:?}", other),
        }
    }
}

#[test]
fn delay_plans_one_wait_and_no_event() {
    let i = parse_line("Delay 250").unwrap();
    assert_eq!(plan_of(&i), vec![SynthAction::Wait(250)]);
}

#[test]
fn wrong_argument_count_plans_nothing() {
    assert!(parse_line("ButtonPress").is_err());
}

#[test]
fn each_variant_plans_its_event() {
    assert_eq!(
        plan_of(&parse_line("ButtonPress 2").unwrap()),
        vec![SynthAction::Button { button: 2, press: true }]
    );
    assert_eq!(
        plan_of(&parse_line("ButtonRelease 2").unwrap()),
        vec![SynthAction::Button { button: 2, press: false }]
    );
    assert_eq!(
        plan_of(&parse_line("MotionNotify 10 -20").unwrap()),
        vec![SynthAction::Motion { x: 10, y: -20 }]
    );
    assert_eq!(
        plan_of(&parse_line("KeyCodePress 40").unwrap()),
        vec![SynthAction::Key { code: 40, press: true }]
    );
    assert_eq!(
        plan_of(&parse_line("KeyCodeRelease 40").unwrap()),
        vec![SynthAction::Key { code: 40, press: false }]
    );
    assert_eq!(
        plan_of(&parse_line("KeySymPress d").unwrap()),
        vec![SynthAction::Key { code: 44, press: true }]
    );
    assert_eq!(
        plan_of(&parse_line("KeyStr d").unwrap()),
        vec![
            SynthAction::Key { code: 44, press: true },
            SynthAction::Key { code: 44, press: false },
        ]
    );
}

#[test]
fn text_instruction_sends_no_event() {
    assert_eq!(
        plan_of(&parse_line("String hello world").unwrap()),
        vec![SynthAction::TextNotSupported]
    );
}

#[test]
fn unmapped_symbol_is_skipped() {
    assert_eq!(
        plan_of(&parse_line("KeySym NoSuchKey").unwrap()),
        vec![SynthAction::SkipUnmappedSymbol]
    );
}

#[test]
fn scripted_sequence_plays_in_order() {
    let script = "KeySymPress Super_L\nKeySymPress d\nKeyCodeRelease 40\nKeySymRelease Super_L";
    let instructions = parse_script(script).unwrap();
    let mut all: Vec<SynthAction> = Vec::new();
    for i in &instructions {
        all.extend(plan_of(i));
    }
    assert_eq!(
        all,
        vec![
            SynthAction::Key { code: 133, press: true },
            SynthAction::Key { code: 44, press: true },
            SynthAction::Key { code: 40, press: false },
            SynthAction::Key { code: 133, press: false },
        ]
    );
}
