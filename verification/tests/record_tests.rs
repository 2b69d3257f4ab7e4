use easymacros::instruction::Instruction;
use easymacros::parser::serialize_script;
use easymacros::record::{
    classify_event, EventClass, KeyGranularity, RecordEngine, RecordPhase, RecordStep,
    CATEGORY_END_OF_DATA, CATEGORY_START_OF_DATA, EV_BUTTON_PRESS, EV_BUTTON_RELEASE,
    EV_KEY_PRESS, EV_KEY_RELEASE, EV_MOTION_NOTIFY, MOTION_RECORD_LEN, MOTION_X_OFFSET,
    MOTION_Y_OFFSET,
};

const FROM_SERVER: u8 = 0;

fn key_press(code: u8) -> [u8; 2] {
    [EV_KEY_PRESS, code]
}

fn key_release(code: u8) -> [u8; 2] {
    [EV_KEY_RELEASE, code]
}

/// A core-protocol motion record: type byte, then the root coordinates as
/// signed 16-bit fields, low byte first.
fn motion(x: i16, y: i16) -> [u8; MOTION_RECORD_LEN] {
    let mut record = [0u8; MOTION_RECORD_LEN];
    record[0] = EV_MOTION_NOTIFY;
    let xb = x.to_le_bytes();
    let yb = y.to_le_bytes();
    record[MOTION_X_OFFSET] = xb[0];
    record[MOTION_X_OFFSET + 1] = xb[1];
    record[MOTION_Y_OFFSET] = yb[0];
    record[MOTION_Y_OFFSET + 1] = yb[1];
    record
}

#[test]
fn classification_reads_type_and_detail() {
    assert_eq!(classify_event(CATEGORY_START_OF_DATA, &[]), EventClass::Marker);
    assert_eq!(classify_event(CATEGORY_END_OF_DATA, &[EV_KEY_PRESS, 9]), EventClass::Marker);
    assert_eq!(classify_event(FROM_SERVER, &[EV_KEY_PRESS, 38]), EventClass::KeyPress(38));
    assert_eq!(classify_event(FROM_SERVER, &[EV_KEY_RELEASE, 38]), EventClass::KeyRelease(38));
    assert_eq!(classify_event(FROM_SERVER, &[EV_BUTTON_PRESS, 1]), EventClass::ButtonPress(1));
    assert_eq!(classify_event(FROM_SERVER, &[EV_BUTTON_RELEASE, 1]), EventClass::ButtonRelease(1));
    assert_eq!(classify_event(FROM_SERVER, &[77, 0]), EventClass::Unknown);
    assert_eq!(classify_event(FROM_SERVER, &[EV_KEY_PRESS]), EventClass::Unknown);
}

#[test]
fn classification_reads_motion_coordinates() {
    assert_eq!(classify_event(FROM_SERVER, &motion(300, -2)), EventClass::Motion(300, -2));
    assert_eq!(classify_event(FROM_SERVER, &motion(0, 0)), EventClass::Motion(0, 0));
    assert_eq!(
        classify_event(FROM_SERVER, &motion(i16::MIN, i16::MAX)),
        EventClass::Motion(-32768, 32767)
    );
    // a motion record too short for its coordinate fields is discarded
    assert_eq!(classify_event(FROM_SERVER, &[EV_MOTION_NOTIFY, 0]), EventClass::Unknown);
}

fn recording_engine(stop_key: u8, granularity: KeyGranularity) -> RecordEngine {
    let mut eng = RecordEngine::new(granularity);
    eng.begin_stop_key_capture();
    eng.set_stop_key(stop_key);
    eng
}

#[test]
fn records_codes_until_the_stop_key() {
    let mut eng = recording_engine(9, KeyGranularity::Codes);
    assert_eq!(eng.on_intercept(CATEGORY_START_OF_DATA, &[]), RecordStep::Ignored);
    assert_eq!(eng.on_intercept(FROM_SERVER, &key_press(38)), RecordStep::Emitted);
    assert_eq!(eng.on_intercept(FROM_SERVER, &key_release(38)), RecordStep::Emitted);
    assert_eq!(eng.on_intercept(FROM_SERVER, &[EV_BUTTON_PRESS, 1]), RecordStep::Emitted);
    assert_eq!(eng.on_intercept(FROM_SERVER, &[EV_BUTTON_RELEASE, 1]), RecordStep::Emitted);
    assert_eq!(eng.on_intercept(FROM_SERVER, &motion(100, -200)), RecordStep::Emitted);
    assert_eq!(eng.phase, RecordPhase::Recording);
    assert_eq!(eng.on_intercept(FROM_SERVER, &key_press(9)), RecordStep::Stopped);
    assert_eq!(eng.phase, RecordPhase::Draining);
    let text = serialize_script(&eng.instructions);
    assert_eq!(
        text,
        "KeyCodePress 38\nKeyCodeRelease 38\nButtonPress 1\nButtonRelease 1\nMotionNotify 100 -200\n"
    );
}

#[test]
fn stop_key_is_never_in_the_stream() {
    let mut eng = recording_engine(9, KeyGranularity::Codes);
    assert_eq!(eng.on_intercept(FROM_SERVER, &key_release(9)), RecordStep::Ignored);
    assert_eq!(eng.on_intercept(FROM_SERVER, &key_press(38)), RecordStep::Emitted);
    assert_eq!(eng.on_intercept(FROM_SERVER, &key_press(9)), RecordStep::Stopped);
    assert_eq!(eng.on_intercept(FROM_SERVER, &key_press(40)), RecordStep::Ignored);
    assert_eq!(eng.on_intercept(CATEGORY_END_OF_DATA, &[]), RecordStep::Ignored);
    for i in &eng.instructions {
        match i {
            Instruction::KeyCodePress(c) => assert_ne!(*c, 9),
            Instruction::KeyCodeRelease(c) => assert_ne!(*c, 9),
            _ => {}
        }
    }
    assert_eq!(eng.instructions.len(), 1);
    assert_eq!(eng.phase, RecordPhase::Draining);
    eng.finish();
    assert_eq!(eng.phase, RecordPhase::Closed);
}

#[test]
fn symbol_granularity_asks_for_names() {
    let mut eng = recording_engine(9, KeyGranularity::Symbols);
    let step = eng.on_intercept(FROM_SERVER, &key_press(40));
    assert_eq!(step, RecordStep::NeedsSymbol { code: 40, press: true });
    assert_eq!(eng.supply_symbol(true, Some("d")), RecordStep::Emitted);
    let step = eng.on_intercept(FROM_SERVER, &key_release(40));
    assert_eq!(step, RecordStep::NeedsSymbol { code: 40, press: false });
    assert_eq!(eng.supply_symbol(false, Some("d")), RecordStep::Emitted);
    let step = eng.on_intercept(FROM_SERVER, &key_press(41));
    assert_eq!(step, RecordStep::NeedsSymbol { code: 41, press: true });
    assert_eq!(eng.supply_symbol(true, None), RecordStep::Ignored);
    let text = serialize_script(&eng.instructions);
    assert_eq!(text, "KeySymPress d\nKeySymRelease d\n");
}

#[test]
fn recorder_tracks_modifiers() {
    // the record stream carries X key codes, eight above the tracker's
    // Linux input-event codes: left control is 29 there, 37 here
    let mut eng = recording_engine(9, KeyGranularity::Codes);
    assert!(!eng.mods.mod_pressed());
    eng.on_intercept(FROM_SERVER, &key_press(37));
    assert!(eng.mods.ctrl_pressed());
    eng.on_intercept(FROM_SERVER, &key_release(37));
    assert!(!eng.mods.mod_pressed());
}

#[test]
fn phases_run_in_order() {
    let mut eng = RecordEngine::new(KeyGranularity::Codes);
    assert_eq!(eng.phase, RecordPhase::Idle);
    eng.begin_stop_key_capture();
    assert_eq!(eng.phase, RecordPhase::CapturingStopKey);
    eng.set_stop_key(24);
    assert_eq!(eng.phase, RecordPhase::Recording);
    assert_eq!(eng.stop_key, 24);
    assert!(eng.instructions.is_empty());
    eng.on_intercept(FROM_SERVER, &key_press(24));
    assert_eq!(eng.phase, RecordPhase::Draining);
    eng.finish();
    assert_eq!(eng.phase, RecordPhase::Closed);
}
