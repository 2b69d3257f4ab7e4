use vstd::prelude::*;

use crate::instruction::{Instruction, InstrView};

verus! {

/// One step the playback engine asks its caller to perform against the
/// display session.
#[derive(Clone, Copy, Debug, PartialEq, Eq, Structural)]
pub enum SynthAction {
    /// Block for this many milliseconds; nothing is synthesized.
    Wait(u64),
    /// Synthesize a key press or release of this key code.
    Key { code: u32, press: bool },
    /// Synthesize a button press or release of this button number.
    Button { button: u32, press: bool },
    /// Synthesize a pointer motion to these coordinates.
    Motion { x: i32, y: i32 },
    /// Report that text instructions are not supported; nothing is
    /// synthesized.
    TextNotSupported,
    /// Report a key name with no code on this display; nothing is
    /// synthesized.
    SkipUnmappedSymbol,
}

/// The key name an instruction needs translated to a code before playback
/// can act on it, if any.
pub open spec fn spec_required_symbol(m: InstrView) -> Option<Seq<char>> {
    match m {
        InstrView::KeySymPress(s) => Some(s),
        InstrView::KeySymRelease(s) => Some(s),
        InstrView::KeySym(s) => Some(s),
        InstrView::KeyStrPress(s) => Some(s),
        InstrView::KeyStrRelease(s) => Some(s),
        InstrView::KeyStr(s) => Some(s),
        _ => None,
    }
}

impl Instruction {
    /// The key name this instruction needs translated to a code, if any.
    pub fn required_symbol(&self) -> (r: Option<&String>)
        ensures
            r matches Some(s) ==> spec_required_symbol(self@) == Some(s@),
            r is None ==> spec_required_symbol(self@) is None,
    {
        match self {
            Instruction::KeySymPress(s) => Some(s),
            Instruction::KeySymRelease(s) => Some(s),
            Instruction::KeySym(s) => Some(s),
            Instruction::KeyStrPress(s) => Some(s),
            Instruction::KeyStrRelease(s) => Some(s),
            Instruction::KeyStr(s) => Some(s),
            _ => None,
        }
    }
}

/// The steps of a key-name instruction once its code is known: a code of
/// zero means the display maps no key to the name, and the instruction is
/// skipped with a diagnostic instead of synthesizing a bogus event.
pub open spec fn spec_sym_plan(code: Option<u32>, press: bool, release: bool) -> Seq<SynthAction> {
    match code {
        None => Seq::empty(),
        Some(c) => if c == 0 {
            seq![SynthAction::SkipUnmappedSymbol]
        } else if press && release {
            seq![
                SynthAction::Key { code: c, press: true },
                SynthAction::Key { code: c, press: false },
            ]
        } else if press {
            seq![SynthAction::Key { code: c, press: true }]
        } else {
            seq![SynthAction::Key { code: c, press: false }]
        },
    }
}

/// The steps one instruction asks for.  `code` is the translation of the
/// instruction's key name on the live session, and must be given exactly
/// when the instruction carries a key name.
pub open spec fn spec_plan(m: InstrView, code: Option<u32>) -> Seq<SynthAction> {
    match m {
        InstrView::Delay(ms) => seq![SynthAction::Wait(ms)],
        InstrView::ButtonPress(b) => seq![SynthAction::Button { button: b, press: true }],
        InstrView::ButtonRelease(b) => seq![SynthAction::Button { button: b, press: false }],
        InstrView::MotionNotify(x, y) => seq![SynthAction::Motion { x: x, y: y }],
        InstrView::KeyCodePress(c) => seq![SynthAction::Key { code: c, press: true }],
        InstrView::KeyCodeRelease(c) => seq![SynthAction::Key { code: c, press: false }],
        InstrView::KeySymPress(_) => spec_sym_plan(code, true, false),
        InstrView::KeySymRelease(_) => spec_sym_plan(code, false, true),
        InstrView::KeySym(_) => spec_sym_plan(code, true, true),
        InstrView::KeyStrPress(_) => spec_sym_plan(code, true, false),
        InstrView::KeyStrRelease(_) => spec_sym_plan(code, false, true),
        InstrView::KeyStr(_) => spec_sym_plan(code, true, true),
        InstrView::Str(_) => seq![SynthAction::TextNotSupported],
    }
}

/// Lay out the steps of one instruction.  The caller translates the key
/// name beforehand (`required_symbol`) and hands the code in; instructions
/// without a key name take no code.
pub fn plan_instruction(i: &Instruction, code: Option<u32>) -> (r: Vec<SynthAction>)
    requires
        (code is Some) <==> (spec_required_symbol(i@) is Some),
    ensures
        r@ == spec_plan(i@, code),
{
    let r = match i {
        Instruction::Delay(ms) => vec![SynthAction::Wait(*ms)],
        Instruction::ButtonPress(b) => vec![SynthAction::Button { button: *b, press: true }],
        Instruction::ButtonRelease(b) => vec![SynthAction::Button { button: *b, press: false }],
        Instruction::MotionNotify(x, y) => vec![SynthAction::Motion { x: *x, y: *y }],
        Instruction::KeyCodePress(c) => vec![SynthAction::Key { code: *c, press: true }],
        Instruction::KeyCodeRelease(c) => vec![SynthAction::Key { code: *c, press: false }],
        Instruction::KeySymPress(_) => sym_steps(code.unwrap(), true, false),
        Instruction::KeySymRelease(_) => sym_steps(code.unwrap(), false, true),
        Instruction::KeySym(_) => sym_steps(code.unwrap(), true, true),
        Instruction::KeyStrPress(_) => sym_steps(code.unwrap(), true, false),
        Instruction::KeyStrRelease(_) => sym_steps(code.unwrap(), false, true),
        Instruction::KeyStr(_) => sym_steps(code.unwrap(), true, true),
        Instruction::Str(_) => vec![SynthAction::TextNotSupported],
    };
    proof {
        assert(r@ =~= spec_plan(i@, code));
    }
    r
}

/// The steps of a key-name instruction once its code is known.
fn sym_steps(c: u32, press: bool, release: bool) -> (r: Vec<SynthAction>)
    ensures
        r@ == spec_sym_plan(Some(c), press, release),
{
    let r = if c == 0 {
        vec![SynthAction::SkipUnmappedSymbol]
    } else if press && release {
        vec![
            SynthAction::Key { code: c, press: true },
            SynthAction::Key { code: c, press: false },
        ]
    } else if press {
        vec![SynthAction::Key { code: c, press: true }]
    } else {
        vec![SynthAction::Key { code: c, press: false }]
    };
    proof {
        assert(r@ =~= spec_sym_plan(Some(c), press, release));
    }
    r
}

/// Law: playing a `KeySym` instruction whose name maps to a live code plans
/// exactly two events, a press of that code immediately followed by a
/// release of it, and no event for any other code.
pub proof fn lemma_keysym_two_events(sym: Seq<char>, c: u32)
    requires
        c != 0,
    ensures
        spec_plan(InstrView::KeySym(sym), Some(c)) == seq![
            SynthAction::Key { code: c, press: true },
            SynthAction::Key { code: c, press: false },
        ],
        forall|j: int|
            0 <= j < spec_plan(InstrView::KeySym(sym), Some(c)).len() ==> (#[trigger] spec_plan(
                InstrView::KeySym(sym),
                Some(c),
            )[j] matches SynthAction::Key { code, press } && code == c),
{
    assert(spec_plan(InstrView::KeySym(sym), Some(c)) =~= seq![
        SynthAction::Key { code: c, press: true },
        SynthAction::Key { code: c, press: false },
    ]);
}

/// Law: a delay instruction plans exactly one wait of its own duration and
/// synthesizes no input event.
pub proof fn lemma_delay_plans_wait_only(ms: u64)
    ensures
        spec_plan(InstrView::Delay(ms), None) == seq![SynthAction::Wait(ms)],
        forall|j: int|
            0 <= j < spec_plan(InstrView::Delay(ms), None).len() ==> (#[trigger] spec_plan(
                InstrView::Delay(ms),
                None,
            )[j] matches SynthAction::Wait(w) && w == ms),
{
    assert(spec_plan(InstrView::Delay(ms), None) =~= seq![SynthAction::Wait(ms)]);
}

} // verus!
