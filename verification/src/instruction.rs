use vstd::prelude::*;

use crate::XMacroInstructions;
use crate::numbers::{dec_str, int_str};
use crate::numbers::{i32_to_dec, u32_to_dec, u64_to_dec};
use crate::tokens::{has_no_char, str_eq};

verus! {

/// One typed instruction of a macro script, immutable once constructed.
#[derive(Debug, Clone)]
pub enum Instruction {
    Delay(u64),
    ButtonPress(u32),
    ButtonRelease(u32),
    MotionNotify(i32, i32),
    KeyCodePress(u32),
    KeyCodeRelease(u32),
    KeySymPress(String),
    KeySymRelease(String),
    KeySym(String),
    KeyStrPress(String),
    KeyStrRelease(String),
    KeyStr(String),
    Str(String),
}

/// The mathematical shape of an instruction: the same variants, with text
/// payloads as character sequences.
pub enum InstrView {
    Delay(u64),
    ButtonPress(u32),
    ButtonRelease(u32),
    MotionNotify(i32, i32),
    KeyCodePress(u32),
    KeyCodeRelease(u32),
    KeySymPress(Seq<char>),
    KeySymRelease(Seq<char>),
    KeySym(Seq<char>),
    KeyStrPress(Seq<char>),
    KeyStrRelease(Seq<char>),
    KeyStr(Seq<char>),
    Str(Seq<char>),
}

impl View for Instruction {
    type V = InstrView;

    open spec fn view(&self) -> InstrView {
        match self {
            Instruction::Delay(ms) => InstrView::Delay(*ms),
            Instruction::ButtonPress(b) => InstrView::ButtonPress(*b),
            Instruction::ButtonRelease(b) => InstrView::ButtonRelease(*b),
            Instruction::MotionNotify(x, y) => InstrView::MotionNotify(*x, *y),
            Instruction::KeyCodePress(c) => InstrView::KeyCodePress(*c),
            Instruction::KeyCodeRelease(c) => InstrView::KeyCodeRelease(*c),
            Instruction::KeySymPress(s) => InstrView::KeySymPress(s@),
            Instruction::KeySymRelease(s) => InstrView::KeySymRelease(s@),
            Instruction::KeySym(s) => InstrView::KeySym(s@),
            Instruction::KeyStrPress(s) => InstrView::KeyStrPress(s@),
            Instruction::KeyStrRelease(s) => InstrView::KeyStrRelease(s@),
            Instruction::KeyStr(s) => InstrView::KeyStr(s@),
            Instruction::Str(s) => InstrView::Str(s@),
        }
    }
}

impl InstrView {
    /// The keyword under which this instruction stands in a script.
    pub open spec fn keyword(self) -> XMacroInstructions {
        match self {
            InstrView::Delay(_) => XMacroInstructions::Delay,
            InstrView::ButtonPress(_) => XMacroInstructions::ButtonPress,
            InstrView::ButtonRelease(_) => XMacroInstructions::ButtonRelease,
            InstrView::MotionNotify(_, _) => XMacroInstructions::MotionNotify,
            InstrView::KeyCodePress(_) => XMacroInstructions::KeyCodePress,
            InstrView::KeyCodeRelease(_) => XMacroInstructions::KeyCodeRelease,
            InstrView::KeySymPress(_) => XMacroInstructions::KeySymPress,
            InstrView::KeySymRelease(_) => XMacroInstructions::KeySymRelease,
            InstrView::KeySym(_) => XMacroInstructions::KeySym,
            InstrView::KeyStrPress(_) => XMacroInstructions::KeyStrPress,
            InstrView::KeyStrRelease(_) => XMacroInstructions::KeyStrRelease,
            InstrView::KeyStr(_) => XMacroInstructions::KeyStr,
            InstrView::Str(_) => XMacroInstructions::String,
        }
    }

    /// What follows the keyword and the separating space in the serialized
    /// line.
    pub open spec fn payload_text(self) -> Seq<char> {
        match self {
            InstrView::Delay(ms) => dec_str(ms as nat),
            InstrView::ButtonPress(b) => dec_str(b as nat),
            InstrView::ButtonRelease(b) => dec_str(b as nat),
            InstrView::MotionNotify(x, y) => int_str(x as int) + seq![' '] + int_str(y as int),
            InstrView::KeyCodePress(c) => dec_str(c as nat),
            InstrView::KeyCodeRelease(c) => dec_str(c as nat),
            InstrView::KeySymPress(s) => s,
            InstrView::KeySymRelease(s) => s,
            InstrView::KeySym(s) => s,
            InstrView::KeyStrPress(s) => s,
            InstrView::KeyStrRelease(s) => s,
            InstrView::KeyStr(s) => s,
            InstrView::Str(s) => s,
        }
    }

    /// A payload that serialization can put back on one line unchanged: a
    /// key name is a single token, so it carries no space.
    pub open spec fn wf(self) -> bool {
        match self {
            InstrView::KeySymPress(s) => has_no_char(s, ' '),
            InstrView::KeySymRelease(s) => has_no_char(s, ' '),
            InstrView::KeySym(s) => has_no_char(s, ' '),
            InstrView::KeyStrPress(s) => has_no_char(s, ' '),
            InstrView::KeyStrRelease(s) => has_no_char(s, ' '),
            InstrView::KeyStr(s) => has_no_char(s, ' '),
            _ => true,
        }
    }

    /// A payload whose serialized line stays one line of a script: it also
    /// carries no line break.
    pub open spec fn single_line(self) -> bool {
        match self {
            InstrView::KeySymPress(s) => has_no_char(s, '\n'),
            InstrView::KeySymRelease(s) => has_no_char(s, '\n'),
            InstrView::KeySym(s) => has_no_char(s, '\n'),
            InstrView::KeyStrPress(s) => has_no_char(s, '\n'),
            InstrView::KeyStrRelease(s) => has_no_char(s, '\n'),
            InstrView::KeyStr(s) => has_no_char(s, '\n'),
            InstrView::Str(s) => has_no_char(s, '\n'),
            _ => true,
        }
    }
}

/// The one line of script text an instruction serializes to: the keyword, a
/// space, then the payload.
pub open spec fn spec_serialize(m: InstrView) -> Seq<char> {
    m.keyword().keyword() + seq![' '] + m.payload_text()
}

/// The parse-time error: carries the offending line and an explanation of
/// what was wrong with it.
#[derive(Debug, Clone)]
pub struct MalformedInstruction {
    pub line: String,
    pub explanation: String,
}

impl MalformedInstruction {
    pub fn new(line: &str, explanation: &str) -> (e: Self)
        ensures
            e.line@ == line@,
            e.explanation@ == explanation@,
    {
        MalformedInstruction { line: String::from_str(line), explanation: String::from_str(
            explanation,
        ) }
    }
}

impl Instruction {
    /// Serialize the instruction back to one line of script text.
    pub fn to_line(&self) -> (r: String)
        ensures
            r@ == spec_serialize(self@),
    {
        proof {
            reveal_strlit(" ");
        }
        let mut s = String::new();
        match self {
            Instruction::Delay(ms) => {
                s.append(XMacroInstructions::Delay.keyword_text());
                s.append(" ");
                let t = u64_to_dec(*ms);
                s.append(t.as_str());
            },
            Instruction::ButtonPress(b) => {
                s.append(XMacroInstructions::ButtonPress.keyword_text());
                s.append(" ");
                let t = u32_to_dec(*b);
                s.append(t.as_str());
            },
            Instruction::ButtonRelease(b) => {
                s.append(XMacroInstructions::ButtonRelease.keyword_text());
                s.append(" ");
                let t = u32_to_dec(*b);
                s.append(t.as_str());
            },
            Instruction::MotionNotify(x, y) => {
                s.append(XMacroInstructions::MotionNotify.keyword_text());
                s.append(" ");
                let t = i32_to_dec(*x);
                s.append(t.as_str());
                s.append(" ");
                let u = i32_to_dec(*y);
                s.append(u.as_str());
            },
            Instruction::KeyCodePress(c) => {
                s.append(XMacroInstructions::KeyCodePress.keyword_text());
                s.append(" ");
                let t = u32_to_dec(*c);
                s.append(t.as_str());
            },
            Instruction::KeyCodeRelease(c) => {
                s.append(XMacroInstructions::KeyCodeRelease.keyword_text());
                s.append(" ");
                let t = u32_to_dec(*c);
                s.append(t.as_str());
            },
            Instruction::KeySymPress(sym) => {
                s.append(XMacroInstructions::KeySymPress.keyword_text());
                s.append(" ");
                s.append(sym.as_str());
            },
            Instruction::KeySymRelease(sym) => {
                s.append(XMacroInstructions::KeySymRelease.keyword_text());
                s.append(" ");
                s.append(sym.as_str());
            },
            Instruction::KeySym(sym) => {
                s.append(XMacroInstructions::KeySym.keyword_text());
                s.append(" ");
                s.append(sym.as_str());
            },
            Instruction::KeyStrPress(sym) => {
                s.append(XMacroInstructions::KeyStrPress.keyword_text());
                s.append(" ");
                s.append(sym.as_str());
            },
            Instruction::KeyStrRelease(sym) => {
                s.append(XMacroInstructions::KeyStrRelease.keyword_text());
                s.append(" ");
                s.append(sym.as_str());
            },
            Instruction::KeyStr(sym) => {
                s.append(XMacroInstructions::KeyStr.keyword_text());
                s.append(" ");
                s.append(sym.as_str());
            },
            Instruction::Str(text) => {
                s.append(XMacroInstructions::String.keyword_text());
                s.append(" ");
                s.append(text.as_str());
            },
        }
        proof {
            assert(" "@ =~= seq![' ']);
            assert(s@ =~= spec_serialize(self@));
        }
        s
    }

    /// Whether two instructions are the same variant with the same payload.
    pub fn eq_instr(&self, other: &Instruction) -> (r: bool)
        ensures
            r == (self@ == other@),
    {
        match (self, other) {
            (Instruction::Delay(a), Instruction::Delay(b)) => a == b,
            (Instruction::ButtonPress(a), Instruction::ButtonPress(b)) => a == b,
            (Instruction::ButtonRelease(a), Instruction::ButtonRelease(b)) => a == b,
            (Instruction::MotionNotify(x1, y1), Instruction::MotionNotify(x2, y2)) => x1 == x2
                && y1 == y2,
            (Instruction::KeyCodePress(a), Instruction::KeyCodePress(b)) => a == b,
            (Instruction::KeyCodeRelease(a), Instruction::KeyCodeRelease(b)) => a == b,
            (Instruction::KeySymPress(a), Instruction::KeySymPress(b)) => str_eq(
                a.as_str(),
                b.as_str(),
            ),
            (Instruction::KeySymRelease(a), Instruction::KeySymRelease(b)) => str_eq(
                a.as_str(),
                b.as_str(),
            ),
            (Instruction::KeySym(a), Instruction::KeySym(b)) => str_eq(a.as_str(), b.as_str()),
            (Instruction::KeyStrPress(a), Instruction::KeyStrPress(b)) => str_eq(
                a.as_str(),
                b.as_str(),
            ),
            (Instruction::KeyStrRelease(a), Instruction::KeyStrRelease(b)) => str_eq(
                a.as_str(),
                b.as_str(),
            ),
            (Instruction::KeyStr(a), Instruction::KeyStr(b)) => str_eq(a.as_str(), b.as_str()),
            (Instruction::Str(a), Instruction::Str(b)) => str_eq(a.as_str(), b.as_str()),
            (_, _) => false,
        }
    }
}

} // verus!
