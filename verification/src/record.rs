use vstd::prelude::*;

use crate::instruction::{Instruction, InstrView};
use crate::modifiers::{ModifierStates, spec_update};

verus! {

/// The two bracketing categories of an interception stream; they mark the
/// start and the end of the data and are not real events.  The values are
/// the record extension's protocol constants.
pub const CATEGORY_START_OF_DATA: u8 = 4;
pub const CATEGORY_END_OF_DATA: u8 = 5;

/// The code-level event types of the core input protocol, as they stand in
/// the first byte of an intercepted record.
pub const EV_KEY_PRESS: u8 = 2;
pub const EV_KEY_RELEASE: u8 = 3;
pub const EV_BUTTON_PRESS: u8 = 4;
pub const EV_BUTTON_RELEASE: u8 = 5;
pub const EV_MOTION_NOTIFY: u8 = 6;

/// The byte offsets of the root coordinates in a core-protocol device
/// event: two signed 16-bit fields, low byte first as the record stream
/// carries them on this library's targets.
pub const MOTION_X_OFFSET: usize = 20;
pub const MOTION_Y_OFFSET: usize = 22;

/// The length a device event record must have for its coordinate fields to
/// be read.
pub const MOTION_RECORD_LEN: usize = 24;

/// What one intercepted record is, read from its category and its data
/// bytes: the event type, then the key code or button number, or the root
/// coordinates of a motion.
#[derive(Clone, Copy, Debug, PartialEq, Eq, Structural)]
pub enum EventClass {
    /// A start-of-data or end-of-data marker, not a real event.
    Marker,
    KeyPress(u8),
    KeyRelease(u8),
    ButtonPress(u8),
    ButtonRelease(u8),
    /// A pointer motion to these root coordinates.
    Motion(i32, i32),
    /// An event kind the recorder does not know, or a record too short for
    /// its fields; logged and discarded.
    Unknown,
}

/// A signed 16-bit value from its low and high bytes.
pub open spec fn i16_le(lo: u8, hi: u8) -> int {
    if lo + hi * 256 >= 32768 {
        lo + hi * 256 - 65536
    } else {
        lo + hi * 256
    }
}

pub open spec fn spec_classify(category: u8, data: Seq<u8>) -> EventClass {
    if category == CATEGORY_START_OF_DATA || category == CATEGORY_END_OF_DATA {
        EventClass::Marker
    } else if data.len() < 2 {
        EventClass::Unknown
    } else if data[0] == EV_KEY_PRESS {
        EventClass::KeyPress(data[1])
    } else if data[0] == EV_KEY_RELEASE {
        EventClass::KeyRelease(data[1])
    } else if data[0] == EV_BUTTON_PRESS {
        EventClass::ButtonPress(data[1])
    } else if data[0] == EV_BUTTON_RELEASE {
        EventClass::ButtonRelease(data[1])
    } else if data[0] == EV_MOTION_NOTIFY {
        if data.len() >= MOTION_RECORD_LEN {
            EventClass::Motion(
                i16_le(data[MOTION_X_OFFSET as int], data[MOTION_X_OFFSET as int + 1]) as i32,
                i16_le(data[MOTION_Y_OFFSET as int], data[MOTION_Y_OFFSET as int + 1]) as i32,
            )
        } else {
            EventClass::Unknown
        }
    } else {
        EventClass::Unknown
    }
}

/// Read a signed 16-bit field of a record, low byte first.
fn read_i16_le(data: &[u8], off: usize) -> (r: i32)
    requires
        off + 1 < data@.len(),
    ensures
        r as int == i16_le(data@[off as int], data@[off as int + 1]),
{
    let lo = data[off] as u32;
    let hi = data[off + 1] as u32;
    let raw = lo + hi * 256;
    if raw >= 32768 {
        (raw as i32) - 65536
    } else {
        raw as i32
    }
}

/// Read one intercepted record's class from its category and data bytes.
pub fn classify_event(category: u8, data: &[u8]) -> (r: EventClass)
    ensures
        r == spec_classify(category, data@),
{
    if category == CATEGORY_START_OF_DATA || category == CATEGORY_END_OF_DATA {
        EventClass::Marker
    } else if data.len() < 2 {
        EventClass::Unknown
    } else {
        let ev = data[0];
        let detail = data[1];
        if ev == EV_KEY_PRESS {
            EventClass::KeyPress(detail)
        } else if ev == EV_KEY_RELEASE {
            EventClass::KeyRelease(detail)
        } else if ev == EV_BUTTON_PRESS {
            EventClass::ButtonPress(detail)
        } else if ev == EV_BUTTON_RELEASE {
            EventClass::ButtonRelease(detail)
        } else if ev == EV_MOTION_NOTIFY {
            if data.len() >= MOTION_RECORD_LEN {
                let x = read_i16_le(data, MOTION_X_OFFSET);
                let y = read_i16_le(data, MOTION_Y_OFFSET);
                EventClass::Motion(x, y)
            } else {
                EventClass::Unknown
            }
        } else {
            EventClass::Unknown
        }
    }
}

/// The record stream carries X key codes, which stand eight above the
/// Linux input-event codes the modifier tracker knows; codes below eight
/// do not occur in the protocol and match no modifier key.
pub open spec fn spec_tracker_code(kc: u8) -> u16 {
    if kc >= 8 {
        (kc - 8) as u16
    } else {
        0
    }
}

fn tracker_code(kc: u8) -> (r: u16)
    ensures
        r == spec_tracker_code(kc),
{
    if kc >= 8 {
        (kc - 8) as u16
    } else {
        0
    }
}

/// Whether recorded key events are written down by code or by name.
#[derive(Clone, Copy, Debug, PartialEq, Eq, Structural)]
pub enum KeyGranularity {
    Codes,
    Symbols,
}

/// The phases of one recording session, in the order they are passed
/// through.
#[derive(Clone, Copy, Debug, PartialEq, Eq, Structural)]
pub enum RecordPhase {
    Idle,
    CapturingStopKey,
    Recording,
    Draining,
    Closed,
}

/// What the engine decided about one intercepted record.
#[derive(Clone, Copy, Debug, PartialEq, Eq, Structural)]
pub enum RecordStep {
    /// A marker, an unsupported kind, the stop key's release, or a record
    /// that arrived while draining: nothing is emitted.
    Ignored,
    /// The stop key's press: recording is over, the engine drains.
    Stopped,
    /// An instruction was appended to the output stream.
    Emitted,
    /// A key event to write down by name: the caller translates the code to
    /// its name on the live session and hands it to `supply_symbol`.
    NeedsSymbol { code: u8, press: bool },
}

/// The record engine: owns the output stream, the held-modifier state, and
/// the phase of the session.
pub struct RecordEngine {
    pub phase: RecordPhase,
    pub granularity: KeyGranularity,
    pub stop_key: u8,
    pub mods: ModifierStates,
    pub instructions: Vec<Instruction>,
}

/// The mathematical state of the engine: the output stream as instruction
/// shapes.
pub struct RecorderModel {
    pub phase: RecordPhase,
    pub granularity: KeyGranularity,
    pub stop_key: u8,
    pub mods: ModifierStates,
    pub instructions: Seq<InstrView>,
}

impl View for RecordEngine {
    type V = RecorderModel;

    open spec fn view(&self) -> RecorderModel {
        RecorderModel {
            phase: self.phase,
            granularity: self.granularity,
            stop_key: self.stop_key,
            mods: self.mods,
            instructions: self.instructions@.map_values(|i: Instruction| i@),
        }
    }
}

/// Whether an instruction speaks of this key code.
pub open spec fn references_code(m: InstrView, c: u8) -> bool {
    match m {
        InstrView::KeyCodePress(k) => k == c as u32,
        InstrView::KeyCodeRelease(k) => k == c as u32,
        _ => false,
    }
}

impl RecorderModel {
    /// The stream the engine has emitted never speaks of the stop key.
    pub open spec fn inv(self) -> bool {
        forall|k: int|
            0 <= k < self.instructions.len() ==> !references_code(
                #[trigger] self.instructions[k],
                self.stop_key,
            )
    }
}

/// What one intercepted record does to the engine.  While draining,
/// everything left in the server's buffer is discarded.  While recording: a
/// press of the stop key stops (the stop key itself is never written); other
/// key events feed the modifier tracker and are written by code or handed
/// out for name translation; button events are written; a motion is written
/// with its root coordinates; markers and unknown kinds are discarded.
pub open spec fn spec_step(m: RecorderModel, category: u8, data: Seq<u8>) -> (
    RecorderModel,
    RecordStep,
) {
    if m.phase == RecordPhase::Draining {
        (m, RecordStep::Ignored)
    } else {
        match spec_classify(category, data) {
            EventClass::Marker => (m, RecordStep::Ignored),
            EventClass::KeyPress(kc) => {
                let m1 = RecorderModel { mods: spec_update(m.mods, spec_tracker_code(kc), true), ..m };
                if kc == m.stop_key {
                    (RecorderModel { phase: RecordPhase::Draining, ..m1 }, RecordStep::Stopped)
                } else if m.granularity == KeyGranularity::Codes {
                    (
                        RecorderModel {
                            instructions: m1.instructions.push(
                                InstrView::KeyCodePress(kc as u32),
                            ),
                            ..m1
                        },
                        RecordStep::Emitted,
                    )
                } else {
                    (m1, RecordStep::NeedsSymbol { code: kc, press: true })
                }
            },
            EventClass::KeyRelease(kc) => {
                let m1 = RecorderModel {
                    mods: spec_update(m.mods, spec_tracker_code(kc), false),
                    ..m
                };
                if kc == m.stop_key {
                    (m1, RecordStep::Ignored)
                } else if m.granularity == KeyGranularity::Codes {
                    (
                        RecorderModel {
                            instructions: m1.instructions.push(
                                InstrView::KeyCodeRelease(kc as u32),
                            ),
                            ..m1
                        },
                        RecordStep::Emitted,
                    )
                } else {
                    (m1, RecordStep::NeedsSymbol { code: kc, press: false })
                }
            },
            EventClass::ButtonPress(b) => (
                RecorderModel {
                    instructions: m.instructions.push(InstrView::ButtonPress(b as u32)),
                    ..m
                },
                RecordStep::Emitted,
            ),
            EventClass::ButtonRelease(b) => (
                RecorderModel {
                    instructions: m.instructions.push(InstrView::ButtonRelease(b as u32)),
                    ..m
                },
                RecordStep::Emitted,
            ),
            EventClass::Motion(x, y) => (
                RecorderModel {
                    instructions: m.instructions.push(InstrView::MotionNotify(x, y)),
                    ..m
                },
                RecordStep::Emitted,
            ),
            EventClass::Unknown => (m, RecordStep::Ignored),
        }
    }
}

impl RecordEngine {
    /// A fresh engine, not yet attached to anything.
    pub fn new(granularity: KeyGranularity) -> (r: RecordEngine)
        ensures
            r@.phase == RecordPhase::Idle,
            r@.granularity == granularity,
            r@.instructions == Seq::<InstrView>::empty(),
            r@.mods.none_held(),
            r@.inv(),
    {
        let r = RecordEngine {
            phase: RecordPhase::Idle,
            granularity,
            stop_key: 0,
            mods: ModifierStates::new(),
            instructions: Vec::new(),
        };
        proof {
            assert(r@.instructions =~= Seq::<InstrView>::empty());
        }
        r
    }

    /// Enter the stop-key capture: the caller has grabbed the keyboard and
    /// waits for the first key press on the root window.
    pub fn begin_stop_key_capture(&mut self)
        requires
            old(self)@.phase == RecordPhase::Idle,
        ensures
            final(self)@ == (RecorderModel { phase: RecordPhase::CapturingStopKey, ..old(self)@ }),
    {
        self.phase = RecordPhase::CapturingStopKey;
    }

    /// The first key press observed under the grab becomes the stop key;
    /// the engine starts recording with an empty output stream.
    pub fn set_stop_key(&mut self, code: u8)
        requires
            old(self)@.phase == RecordPhase::CapturingStopKey,
        ensures
            final(self)@ == (RecorderModel {
                phase: RecordPhase::Recording,
                stop_key: code,
                instructions: Seq::<InstrView>::empty(),
                ..old(self)@
            }),
            final(self)@.inv(),
    {
        self.phase = RecordPhase::Recording;
        self.stop_key = code;
        self.instructions = Vec::new();
        proof {
            assert(self@.instructions =~= Seq::<InstrView>::empty());
        }
    }

    /// Feed one intercepted record, as its category and raw data bytes.
    pub fn on_intercept(&mut self, category: u8, data: &[u8]) -> (step: RecordStep)
        requires
            old(self)@.phase == RecordPhase::Recording || old(self)@.phase
                == RecordPhase::Draining,
        ensures
            final(self)@ == spec_step(old(self)@, category, data@).0,
            step == spec_step(old(self)@, category, data@).1,
            old(self)@.inv() ==> final(self)@.inv(),
    {
        proof {
            let (m2, _st) = spec_step(self@, category, data@);
            if self@.inv() {
                assert forall|k: int| 0 <= k < m2.instructions.len() implies !references_code(
                    #[trigger] m2.instructions[k],
                    m2.stop_key,
                ) by {
                    if k < self@.instructions.len() {
                        assert(m2.instructions[k] == self@.instructions[k]);
                    }
                }
            }
        }
        if matches!(self.phase, RecordPhase::Draining) {
            return RecordStep::Ignored;
        }
        let ev = classify_event(category, data);
        match ev {
            EventClass::Marker => RecordStep::Ignored,
            EventClass::KeyPress(kc) => {
                let code = tracker_code(kc);
                self.mods.update(code, true);
                if kc == self.stop_key {
                    self.phase = RecordPhase::Draining;
                    RecordStep::Stopped
                } else if matches!(self.granularity, KeyGranularity::Codes) {
                    self.push_instr(Instruction::KeyCodePress(kc as u32));
                    RecordStep::Emitted
                } else {
                    RecordStep::NeedsSymbol { code: kc, press: true }
                }
            },
            EventClass::KeyRelease(kc) => {
                let code = tracker_code(kc);
                self.mods.update(code, false);
                if kc == self.stop_key {
                    RecordStep::Ignored
                } else if matches!(self.granularity, KeyGranularity::Codes) {
                    self.push_instr(Instruction::KeyCodeRelease(kc as u32));
                    RecordStep::Emitted
                } else {
                    RecordStep::NeedsSymbol { code: kc, press: false }
                }
            },
            EventClass::ButtonPress(b) => {
                self.push_instr(Instruction::ButtonPress(b as u32));
                RecordStep::Emitted
            },
            EventClass::ButtonRelease(b) => {
                self.push_instr(Instruction::ButtonRelease(b as u32));
                RecordStep::Emitted
            },
            EventClass::Motion(x, y) => {
                self.push_instr(Instruction::MotionNotify(x, y));
                RecordStep::Emitted
            },
            EventClass::Unknown => RecordStep::Ignored,
        }
    }

    /// Record one key event by name, after the caller translated its code
    /// on the live session; no name means the display maps none to the
    /// code, and the event is skipped with a diagnostic.
    pub fn supply_symbol(&mut self, press: bool, symbol: Option<&str>) -> (step: RecordStep)
        requires
            old(self)@.phase == RecordPhase::Recording,
        ensures
            final(self)@ == (match symbol {
                Some(s) => RecorderModel {
                    instructions: old(self)@.instructions.push(
                        if press {
                            InstrView::KeySymPress(s@)
                        } else {
                            InstrView::KeySymRelease(s@)
                        },
                    ),
                    ..old(self)@
                },
                None => old(self)@,
            }),
            step == (if symbol is Some {
                RecordStep::Emitted
            } else {
                RecordStep::Ignored
            }),
            old(self)@.inv() ==> final(self)@.inv(),
    {
        proof {
            if self@.inv() {
                let pushed = if press {
                    InstrView::KeySymPress(match symbol {
                        Some(s) => s@,
                        None => Seq::empty(),
                    })
                } else {
                    InstrView::KeySymRelease(match symbol {
                        Some(s) => s@,
                        None => Seq::empty(),
                    })
                };
                assert(!references_code(pushed, self@.stop_key));
            }
        }
        match symbol {
            Some(s) => {
                if press {
                    self.push_instr(Instruction::KeySymPress(String::from_str(s)));
                } else {
                    self.push_instr(Instruction::KeySymRelease(String::from_str(s)));
                }
                RecordStep::Emitted
            },
            None => RecordStep::Ignored,
        }
    }

    /// The server's buffer is drained: the session is closed for good.
    pub fn finish(&mut self)
        requires
            old(self)@.phase == RecordPhase::Draining,
        ensures
            final(self)@ == (RecorderModel { phase: RecordPhase::Closed, ..old(self)@ }),
    {
        self.phase = RecordPhase::Closed;
    }

    fn push_instr(&mut self, i: Instruction)
        ensures
            final(self)@ == (RecorderModel {
                instructions: old(self)@.instructions.push(i@),
                ..old(self)@
            }),
    {
        self.instructions.push(i);
        proof {
            assert(self@.instructions =~= old(self)@.instructions.push(i@));
        }
    }
}

/// Law: once the stop key's press is observed, the engine reports the stop
/// and is draining within that same step; the output stream is left as it
/// was, and it nowhere references the stop key's code — not from before,
/// not from this step, and not from later steps, since a draining engine
/// emits nothing.
pub proof fn lemma_stop_key_never_recorded(m: RecorderModel, category: u8, data: Seq<u8>)
    requires
        m.inv(),
        m.phase == RecordPhase::Recording || m.phase == RecordPhase::Draining,
    ensures
        spec_step(m, category, data).0.inv(),
        m.phase == RecordPhase::Recording && spec_classify(category, data) == EventClass::KeyPress(
            m.stop_key,
        ) ==> spec_step(m, category, data).1 == RecordStep::Stopped && spec_step(
            m,
            category,
            data,
        ).0.phase == RecordPhase::Draining && spec_step(m, category, data).0.instructions
            == m.instructions,
        m.phase == RecordPhase::Draining ==> spec_step(m, category, data).0 == m && spec_step(
            m,
            category,
            data,
        ).1 == RecordStep::Ignored,
        forall|k: int|
            0 <= k < spec_step(m, category, data).0.instructions.len() ==> !references_code(
                #[trigger] spec_step(m, category, data).0.instructions[k],
                spec_step(m, category, data).0.stop_key,
            ),
{
    let (m2, _st) = spec_step(m, category, data);
    assert forall|k: int| 0 <= k < m2.instructions.len() implies !references_code(
        #[trigger] m2.instructions[k],
        m2.stop_key,
    ) by {
        if k < m.instructions.len() {
            assert(m2.instructions[k] == m.instructions[k]);
        }
    }
}

} // verus!
