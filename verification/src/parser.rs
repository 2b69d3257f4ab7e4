use vstd::prelude::*;

use crate::XMacroInstructions;
use crate::instruction::{Instruction, InstrView, MalformedInstruction, spec_serialize};
use crate::numbers::{dec_val, int_val, is_uint_token, is_int_token};
use crate::numbers::{parse_i32, parse_u32, parse_u64};
use crate::tokens::{has_no_char, split_on, split_str};
use crate::tokens::{lemma_split_len, lemma_split_head};

verus! {

/// An unsigned token whose value fits the given bound.
pub open spec fn is_uint_arg(t: Seq<char>, bound: nat) -> bool {
    is_uint_token(t) && dec_val(t) <= bound
}

/// A signed token whose value fits a 32-bit integer.
pub open spec fn is_i32_arg(t: Seq<char>) -> bool {
    is_int_token(t) && i32::MIN <= int_val(t) <= i32::MAX
}

/// The grammar of one script line: the first space-separated token must be
/// a keyword, the argument count must match the keyword, and numeric
/// arguments must be decimal numbers in range.  The text after `String` is
/// taken whole, spaces included.
pub open spec fn spec_parse_line(s: Seq<char>) -> Option<InstrView> {
    let toks = split_on(s, ' ');
    match XMacroInstructions::spec_from_token(toks[0]) {
        None => None,
        Some(k) => match k {
            XMacroInstructions::Delay => if toks.len() == 2 && is_uint_arg(
                toks[1],
                u64::MAX as nat,
            ) {
                Some(InstrView::Delay(dec_val(toks[1]) as u64))
            } else {
                None
            },
            XMacroInstructions::ButtonPress => if toks.len() == 2 && is_uint_arg(
                toks[1],
                u32::MAX as nat,
            ) {
                Some(InstrView::ButtonPress(dec_val(toks[1]) as u32))
            } else {
                None
            },
            XMacroInstructions::ButtonRelease => if toks.len() == 2 && is_uint_arg(
                toks[1],
                u32::MAX as nat,
            ) {
                Some(InstrView::ButtonRelease(dec_val(toks[1]) as u32))
            } else {
                None
            },
            XMacroInstructions::MotionNotify => if toks.len() == 3 && is_i32_arg(toks[1])
                && is_i32_arg(toks[2]) {
                Some(InstrView::MotionNotify(int_val(toks[1]) as i32, int_val(toks[2]) as i32))
            } else {
                None
            },
            XMacroInstructions::KeyCodePress => if toks.len() == 2 && is_uint_arg(
                toks[1],
                u32::MAX as nat,
            ) {
                Some(InstrView::KeyCodePress(dec_val(toks[1]) as u32))
            } else {
                None
            },
            XMacroInstructions::KeyCodeRelease => if toks.len() == 2 && is_uint_arg(
                toks[1],
                u32::MAX as nat,
            ) {
                Some(InstrView::KeyCodeRelease(dec_val(toks[1]) as u32))
            } else {
                None
            },
            XMacroInstructions::KeySymPress => if toks.len() == 2 {
                Some(InstrView::KeySymPress(toks[1]))
            } else {
                None
            },
            XMacroInstructions::KeySymRelease => if toks.len() == 2 {
                Some(InstrView::KeySymRelease(toks[1]))
            } else {
                None
            },
            XMacroInstructions::KeySym => if toks.len() == 2 {
                Some(InstrView::KeySym(toks[1]))
            } else {
                None
            },
            XMacroInstructions::KeyStrPress => if toks.len() == 2 {
                Some(InstrView::KeyStrPress(toks[1]))
            } else {
                None
            },
            XMacroInstructions::KeyStrRelease => if toks.len() == 2 {
                Some(InstrView::KeyStrRelease(toks[1]))
            } else {
                None
            },
            XMacroInstructions::KeyStr => if toks.len() == 2 {
                Some(InstrView::KeyStr(toks[1]))
            } else {
                None
            },
            XMacroInstructions::String => if toks.len() >= 2 {
                Some(InstrView::Str(s.skip(7)))
            } else {
                None
            },
        },
    }
}

/// Turn one line of script text into a typed instruction; rejected lines
/// come back as a `MalformedInstruction` carrying the offending line.
pub fn parse_line(line: &str) -> (r: Result<Instruction, MalformedInstruction>)
    ensures
        spec_parse_line(line@) matches Some(m) ==> (r matches Ok(i) && i@ == m),
        spec_parse_line(line@) is None ==> (r matches Err(e) && e.line@ == line@),
{
    let toks = split_str(line, ' ');
    proof {
        lemma_split_len(line@, ' ');
        assert(toks.deep_view()[0] == toks@[0]@);
    }
    let kw = match XMacroInstructions::from_token(toks[0]) {
        Some(k) => k,
        None => {
            return Err(MalformedInstruction::new(line, "unrecognized keyword"));
        },
    };
    match kw {
        XMacroInstructions::Delay => {
            if toks.len() != 2 {
                return Err(MalformedInstruction::new(line, "Delay takes one number"));
            }
            proof {
                assert(toks.deep_view()[1] == toks@[1]@);
            }
            match parse_u64(toks[1]) {
                Some(v) => Ok(Instruction::Delay(v)),
                None => Err(MalformedInstruction::new(line, "not a valid delay")),
            }
        },
        XMacroInstructions::ButtonPress => {
            if toks.len() != 2 {
                return Err(MalformedInstruction::new(line, "ButtonPress takes one number"));
            }
            proof {
                assert(toks.deep_view()[1] == toks@[1]@);
            }
            match parse_u32(toks[1]) {
                Some(v) => Ok(Instruction::ButtonPress(v)),
                None => Err(MalformedInstruction::new(line, "not a valid button number")),
            }
        },
        XMacroInstructions::ButtonRelease => {
            if toks.len() != 2 {
                return Err(MalformedInstruction::new(line, "ButtonRelease takes one number"));
            }
            proof {
                assert(toks.deep_view()[1] == toks@[1]@);
            }
            match parse_u32(toks[1]) {
                Some(v) => Ok(Instruction::ButtonRelease(v)),
                None => Err(MalformedInstruction::new(line, "not a valid button number")),
            }
        },
        XMacroInstructions::MotionNotify => {
            if toks.len() != 3 {
                return Err(MalformedInstruction::new(line, "MotionNotify takes two numbers"));
            }
            proof {
                assert(toks.deep_view()[1] == toks@[1]@);
                assert(toks.deep_view()[2] == toks@[2]@);
            }
            let x = match parse_i32(toks[1]) {
                Some(v) => v,
                None => {
                    return Err(MalformedInstruction::new(line, "not a valid coordinate"));
                },
            };
            let y = match parse_i32(toks[2]) {
                Some(v) => v,
                None => {
                    return Err(MalformedInstruction::new(line, "not a valid coordinate"));
                },
            };
            Ok(Instruction::MotionNotify(x, y))
        },
        XMacroInstructions::KeyCodePress => {
            if toks.len() != 2 {
                return Err(MalformedInstruction::new(line, "KeyCodePress takes one number"));
            }
            proof {
                assert(toks.deep_view()[1] == toks@[1]@);
            }
            match parse_u32(toks[1]) {
                Some(v) => Ok(Instruction::KeyCodePress(v)),
                None => Err(MalformedInstruction::new(line, "not a valid key code")),
            }
        },
        XMacroInstructions::KeyCodeRelease => {
            if toks.len() != 2 {
                return Err(MalformedInstruction::new(line, "KeyCodeRelease takes one number"));
            }
            proof {
                assert(toks.deep_view()[1] == toks@[1]@);
            }
            match parse_u32(toks[1]) {
                Some(v) => Ok(Instruction::KeyCodeRelease(v)),
                None => Err(MalformedInstruction::new(line, "not a valid key code")),
            }
        },
        XMacroInstructions::KeySymPress => {
            if toks.len() != 2 {
                return Err(MalformedInstruction::new(line, "KeySymPress takes one key name"));
            }
            proof {
                assert(toks.deep_view()[1] == toks@[1]@);
            }
            Ok(Instruction::KeySymPress(String::from_str(toks[1])))
        },
        XMacroInstructions::KeySymRelease => {
            if toks.len() != 2 {
                return Err(MalformedInstruction::new(line, "KeySymRelease takes one key name"));
            }
            proof {
                assert(toks.deep_view()[1] == toks@[1]@);
            }
            Ok(Instruction::KeySymRelease(String::from_str(toks[1])))
        },
        XMacroInstructions::KeySym => {
            if toks.len() != 2 {
                return Err(MalformedInstruction::new(line, "KeySym takes one key name"));
            }
            proof {
                assert(toks.deep_view()[1] == toks@[1]@);
            }
            Ok(Instruction::KeySym(String::from_str(toks[1])))
        },
        XMacroInstructions::KeyStrPress => {
            if toks.len() != 2 {
                return Err(MalformedInstruction::new(line, "KeyStrPress takes one key name"));
            }
            proof {
                assert(toks.deep_view()[1] == toks@[1]@);
            }
            Ok(Instruction::KeyStrPress(String::from_str(toks[1])))
        },
        XMacroInstructions::KeyStrRelease => {
            if toks.len() != 2 {
                return Err(MalformedInstruction::new(line, "KeyStrRelease takes one key name"));
            }
            proof {
                assert(toks.deep_view()[1] == toks@[1]@);
            }
            Ok(Instruction::KeyStrRelease(String::from_str(toks[1])))
        },
        XMacroInstructions::KeyStr => {
            if toks.len() != 2 {
                return Err(MalformedInstruction::new(line, "KeyStr takes one key name"));
            }
            proof {
                assert(toks.deep_view()[1] == toks@[1]@);
            }
            Ok(Instruction::KeyStr(String::from_str(toks[1])))
        },
        XMacroInstructions::String => {
            if toks.len() < 2 {
                return Err(MalformedInstruction::new(line, "String takes text"));
            }
            proof {
                lemma_split_head(line@, ' ');
                assert(split_on(line@, ' ')[0].len() == 6);
            }
            let n = line.unicode_len();
            let rest = line.substring_char(7, n);
            proof {
                assert(rest@ =~= line@.skip(7));
            }
            Ok(Instruction::Str(String::from_str(rest)))
        },
    }
}

/// Digit strings contain neither spaces nor line breaks.
proof fn lemma_digits_clean(t: Seq<char>)
    requires
        crate::numbers::is_digits(t),
    ensures
        has_no_char(t, ' '),
        has_no_char(t, '\n'),
{
    assert forall|i: int| 0 <= i < t.len() implies t[i] != ' ' && t[i] != '\n' by {
        assert(crate::numbers::is_dec_digit(t[i]));
    }
}

/// The canonical signed decimal text contains neither spaces nor line
/// breaks.
proof fn lemma_int_str_clean(x: int)
    ensures
        has_no_char(crate::numbers::int_str(x), ' '),
        has_no_char(crate::numbers::int_str(x), '\n'),
{
    crate::numbers::lemma_int_str_val(x);
    let t = crate::numbers::int_str(x);
    if x < 0 {
        crate::numbers::lemma_dec_str_is_uint_token((-x) as nat);
        lemma_digits_clean(crate::numbers::dec_str((-x) as nat));
        assert forall|i: int| 0 <= i < t.len() implies t[i] != ' ' && t[i] != '\n' by {
            if i > 0 {
                assert(t[i] == crate::numbers::dec_str((-x) as nat)[i - 1]);
            }
        }
    } else {
        crate::numbers::lemma_dec_str_is_uint_token(x as nat);
        lemma_digits_clean(t);
    }
}

/// Every instruction a line parses to is well formed: its key names are
/// single tokens.
pub proof fn lemma_parse_wf(line: Seq<char>)
    ensures
        spec_parse_line(line) matches Some(m) ==> m.wf(),
{
    crate::tokens::lemma_split_pieces_clean(line, ' ');
}

/// The serialized line of a well-formed instruction parses back to exactly
/// that instruction.
pub proof fn lemma_serialize_parses(m: InstrView)
    requires
        m.wf(),
    ensures
        spec_parse_line(spec_serialize(m)) == Some(m),
{
    let s = spec_serialize(m);
    let k = m.keyword();
    let kw = k.keyword();
    let pay = m.payload_text();
    crate::lemma_keyword_clean(k);
    crate::lemma_keyword_token(k);
    assert(s =~= kw + seq![' '] + pay);
    let j = kw.len() as int;
    assert(s[j] == ' ');
    assert(s.take(j) =~= kw);
    assert(has_no_char(s.take(j), ' '));
    crate::tokens::lemma_split_at(s, ' ', j);
    assert(s.skip(j + 1) =~= pay);
    let toks = split_on(s, ' ');
    assert(toks == seq![kw] + split_on(pay, ' '));
    assert(toks[0] == kw);
    match m {
        InstrView::Delay(ms) => {
            crate::numbers::lemma_dec_str_is_uint_token(ms as nat);
            crate::numbers::lemma_dec_str_val(ms as nat);
            lemma_digits_clean(pay);
            crate::tokens::lemma_split_whole(pay, ' ');
            assert(toks.len() == 2);
            assert(toks[1] == pay);
        },
        InstrView::ButtonPress(b) => {
            crate::numbers::lemma_dec_str_is_uint_token(b as nat);
            crate::numbers::lemma_dec_str_val(b as nat);
            lemma_digits_clean(pay);
            crate::tokens::lemma_split_whole(pay, ' ');
            assert(toks.len() == 2);
            assert(toks[1] == pay);
        },
        InstrView::ButtonRelease(b) => {
            crate::numbers::lemma_dec_str_is_uint_token(b as nat);
            crate::numbers::lemma_dec_str_val(b as nat);
            lemma_digits_clean(pay);
            crate::tokens::lemma_split_whole(pay, ' ');
            assert(toks.len() == 2);
            assert(toks[1] == pay);
        },
        InstrView::MotionNotify(x, y) => {
            let a = crate::numbers::int_str(x as int);
            let b = crate::numbers::int_str(y as int);
            crate::numbers::lemma_int_str_val(x as int);
            crate::numbers::lemma_int_str_val(y as int);
            lemma_int_str_clean(x as int);
            lemma_int_str_clean(y as int);
            assert(pay =~= a + seq![' '] + b);
            let ja = a.len() as int;
            assert(pay[ja] == ' ');
            assert(pay.take(ja) =~= a);
            crate::tokens::lemma_split_at(pay, ' ', ja);
            assert(pay.skip(ja + 1) =~= b);
            crate::tokens::lemma_split_whole(b, ' ');
            assert(split_on(pay, ' ') == seq![a] + seq![b]);
            assert(toks.len() == 3);
            assert(toks[1] == a);
            assert(toks[2] == b);
        },
        InstrView::KeyCodePress(c) => {
            crate::numbers::lemma_dec_str_is_uint_token(c as nat);
            crate::numbers::lemma_dec_str_val(c as nat);
            lemma_digits_clean(pay);
            crate::tokens::lemma_split_whole(pay, ' ');
            assert(toks.len() == 2);
            assert(toks[1] == pay);
        },
        InstrView::KeyCodeRelease(c) => {
            crate::numbers::lemma_dec_str_is_uint_token(c as nat);
            crate::numbers::lemma_dec_str_val(c as nat);
            lemma_digits_clean(pay);
            crate::tokens::lemma_split_whole(pay, ' ');
            assert(toks.len() == 2);
            assert(toks[1] == pay);
        },
        InstrView::KeySymPress(sym) => {
            crate::tokens::lemma_split_whole(pay, ' ');
            assert(toks.len() == 2);
            assert(toks[1] == sym);
        },
        InstrView::KeySymRelease(sym) => {
            crate::tokens::lemma_split_whole(pay, ' ');
            assert(toks.len() == 2);
            assert(toks[1] == sym);
        },
        InstrView::KeySym(sym) => {
            crate::tokens::lemma_split_whole(pay, ' ');
            assert(toks.len() == 2);
            assert(toks[1] == sym);
        },
        InstrView::KeyStrPress(sym) => {
            crate::tokens::lemma_split_whole(pay, ' ');
            assert(toks.len() == 2);
            assert(toks[1] == sym);
        },
        InstrView::KeyStrRelease(sym) => {
            crate::tokens::lemma_split_whole(pay, ' ');
            assert(toks.len() == 2);
            assert(toks[1] == sym);
        },
        InstrView::KeyStr(sym) => {
            crate::tokens::lemma_split_whole(pay, ' ');
            assert(toks.len() == 2);
            assert(toks[1] == sym);
        },
        InstrView::Str(t) => {
            lemma_split_len(pay, ' ');
            assert(toks.len() >= 2);
            assert(s.skip(7) == pay);
        },
    }
}

/// Law: parsing a valid script line and serializing the parsed instruction
/// yields a line that parses to the same instruction again.
pub proof fn lemma_parse_serialize_roundtrip(line: Seq<char>)
    requires
        spec_parse_line(line) is Some,
    ensures
        spec_parse_line(line) matches Some(m) ==> spec_parse_line(spec_serialize(m)) == Some(m),
{
    lemma_parse_wf(line);
    match spec_parse_line(line) {
        Some(m) => {
            lemma_serialize_parses(m);
        },
        None => {},
    }
}

/// The lines of a script text, line feeds separating them; a final line
/// feed closes the last line rather than opening an empty one, and the
/// empty text has no lines.
pub open spec fn spec_script_lines(s: Seq<char>) -> Seq<Seq<char>> {
    if s.len() == 0 {
        Seq::empty()
    } else {
        let ps = split_on(s, '\n');
        if ps.last().len() == 0 {
            ps.drop_last()
        } else {
            ps
        }
    }
}

/// The text of a whole script: each instruction's line, each closed by a
/// line feed.
pub open spec fn spec_serialize_script(ms: Seq<InstrView>) -> Seq<char>
    decreases ms.len(),
{
    if ms.len() == 0 {
        Seq::empty()
    } else {
        spec_serialize(ms[0]) + seq!['\n'] + spec_serialize_script(ms.skip(1))
    }
}

/// Concatenation keeps a character out when both halves lack it.
proof fn lemma_no_char_concat(a: Seq<char>, b: Seq<char>, sep: char)
    requires
        has_no_char(a, sep),
        has_no_char(b, sep),
    ensures
        has_no_char(a + b, sep),
{
    assert forall|i: int| 0 <= i < (a + b).len() implies (a + b)[i] != sep by {
        if i >= a.len() {
            assert((a + b)[i] == b[i - a.len()]);
        }
    }
}

/// A single-line instruction serializes to a nonempty line without a line
/// feed in it.
pub proof fn lemma_serialize_single_line(m: InstrView)
    requires
        m.single_line(),
    ensures
        spec_serialize(m).len() > 0,
        has_no_char(spec_serialize(m), '\n'),
{
    let k = m.keyword();
    crate::lemma_keyword_clean(k);
    let pay = m.payload_text();
    assert(has_no_char(pay, '\n')) by {
        match m {
            InstrView::Delay(ms) => {
                crate::numbers::lemma_dec_str_is_uint_token(ms as nat);
                lemma_digits_clean(pay);
            },
            InstrView::ButtonPress(b) => {
                crate::numbers::lemma_dec_str_is_uint_token(b as nat);
                lemma_digits_clean(pay);
            },
            InstrView::ButtonRelease(b) => {
                crate::numbers::lemma_dec_str_is_uint_token(b as nat);
                lemma_digits_clean(pay);
            },
            InstrView::MotionNotify(x, y) => {
                lemma_int_str_clean(x as int);
                lemma_int_str_clean(y as int);
                let a = crate::numbers::int_str(x as int);
                let b = crate::numbers::int_str(y as int);
                lemma_no_char_concat(a, seq![' '], '\n');
                lemma_no_char_concat(a + seq![' '], b, '\n');
            },
            InstrView::KeyCodePress(c) => {
                crate::numbers::lemma_dec_str_is_uint_token(c as nat);
                lemma_digits_clean(pay);
            },
            InstrView::KeyCodeRelease(c) => {
                crate::numbers::lemma_dec_str_is_uint_token(c as nat);
                lemma_digits_clean(pay);
            },
            _ => {},
        }
    }
    lemma_no_char_concat(k.keyword(), seq![' '], '\n');
    lemma_no_char_concat(k.keyword() + seq![' '], pay, '\n');
    assert(spec_serialize(m) =~= (k.keyword() + seq![' ']) + pay);
}

/// Parse a whole script, line by line, stopping at the first malformed
/// line.
pub fn parse_script(text: &str) -> (r: Result<Vec<Instruction>, MalformedInstruction>)
    ensures
        r matches Ok(v) ==> v@.len() == spec_script_lines(text@).len() && (forall|j: int|
            0 <= j < v@.len() ==> spec_parse_line(#[trigger] spec_script_lines(text@)[j]) == Some(
                v@[j]@,
            )),
        (r is Ok) <==> (forall|j: int|
            0 <= j < spec_script_lines(text@).len() ==> (#[trigger] spec_parse_line(
                spec_script_lines(text@)[j],
            )) is Some),
        r matches Err(e) ==> exists|j: int|
            0 <= j < spec_script_lines(text@).len() && (#[trigger] spec_parse_line(
                spec_script_lines(text@)[j],
            )) is None && e.line@ == spec_script_lines(text@)[j] && (forall|i: int|
                0 <= i < j ==> spec_parse_line(spec_script_lines(text@)[i]) is Some),
{
    let ghost lines = spec_script_lines(text@);
    let n = text.unicode_len();
    if n == 0 {
        let v: Vec<Instruction> = Vec::new();
        return Ok(v);
    }
    let pieces = split_str(text, '\n');
    proof {
        lemma_split_len(text@, '\n');
    }
    let last_empty = pieces[pieces.len() - 1].unicode_len() == 0;
    let line_count = if last_empty {
        pieces.len() - 1
    } else {
        pieces.len()
    };
    proof {
        assert(pieces.deep_view()[pieces.len() - 1] == pieces@[pieces.len() - 1]@);
        if last_empty {
            assert(lines =~= split_on(text@, '\n').drop_last());
        } else {
            assert(lines =~= split_on(text@, '\n'));
        }
        assert(lines.len() == line_count);
    }
    let mut out: Vec<Instruction> = Vec::new();
    let mut j: usize = 0;
    while j < line_count
        invariant
            0 <= j <= line_count,
            line_count <= pieces.len(),
            out@.len() == j,
            pieces.deep_view() == split_on(text@, '\n'),
            lines == spec_script_lines(text@),
            lines.len() == line_count,
            forall|i: int| 0 <= i < line_count ==> lines[i] == pieces.deep_view()[i],
            forall|i: int|
                0 <= i < j ==> spec_parse_line(#[trigger] lines[i]) == Some(out@[i]@),
        decreases line_count - j,
    {
        proof {
            assert(pieces.deep_view()[j as int] == pieces@[j as int]@);
        }
        match parse_line(pieces[j]) {
            Ok(i) => {
                out.push(i);
            },
            Err(e) => {
                proof {
                    assert(spec_parse_line(lines[j as int]) is None);
                }
                return Err(e);
            },
        }
        j += 1;
    }
    Ok(out)
}

/// Serialize a whole instruction stream to script text, one line per
/// instruction.
pub fn serialize_script(instrs: &Vec<Instruction>) -> (r: String)
    ensures
        r@ == spec_serialize_script(instrs@.map_values(|i: Instruction| i@)),
{
    proof {
        reveal_strlit("\n");
    }
    let ghost views = instrs@.map_values(|i: Instruction| i@);
    let mut s = String::new();
    let mut j: usize = 0;
    proof {
        assert(views.skip(0) =~= views);
    }
    while j < instrs.len()
        invariant
            0 <= j <= instrs.len(),
            views == instrs@.map_values(|i: Instruction| i@),
            views.len() == instrs@.len(),
            spec_serialize_script(views) == s@ + spec_serialize_script(views.skip(j as int)),
        decreases instrs.len() - j,
    {
        let line = instrs[j].to_line();
        s.append(line.as_str());
        s.append("\n");
        proof {
            reveal_strlit("\n");
            assert("\n"@ =~= seq!['\n']);
            let tail = views.skip(j as int);
            assert(tail[0] == views[j as int]);
            assert(tail.skip(1) =~= views.skip(j as int + 1));
            assert(spec_serialize_script(tail) == spec_serialize(views[j as int]) + seq!['\n']
                + spec_serialize_script(views.skip(j as int + 1)));
            assert(views[j as int] == instrs@[j as int]@);
        }
        j += 1;
    }
    proof {
        assert(views.skip(instrs@.len() as int) =~= Seq::<InstrView>::empty());
        assert(s@ =~= spec_serialize_script(views));
    }
    s
}

/// Law: a whole script serialized from well-formed single-line
/// instructions splits back into exactly their lines, and each line parses
/// to the instruction it came from.
pub proof fn lemma_script_roundtrip(ms: Seq<InstrView>)
    requires
        forall|j: int| 0 <= j < ms.len() ==> (#[trigger] ms[j]).wf(),
        forall|j: int| 0 <= j < ms.len() ==> (#[trigger] ms[j]).single_line(),
    ensures
        spec_script_lines(spec_serialize_script(ms)).len() == ms.len(),
        forall|j: int|
            0 <= j < ms.len() ==> spec_parse_line(
                #[trigger] spec_script_lines(spec_serialize_script(ms))[j],
            ) == Some(ms[j]),
    decreases ms.len(),
{
    if ms.len() == 0 {
    } else {
        let line0 = spec_serialize(ms[0]);
        let rest = spec_serialize_script(ms.skip(1));
        let t = spec_serialize_script(ms);
        assert(t == line0 + seq!['\n'] + rest);
        lemma_serialize_single_line(ms[0]);
        lemma_serialize_parses(ms[0]);
        assert forall|j: int| 0 <= j < ms.skip(1).len() implies (#[trigger] ms.skip(1)[j]).wf()
            && ms.skip(1)[j].single_line() by {
            assert(ms.skip(1)[j] == ms[j + 1]);
        }
        lemma_script_roundtrip(ms.skip(1));
        let j0 = line0.len() as int;
        assert(t.take(j0) =~= line0);
        assert(t[j0] == '\n');
        crate::tokens::lemma_split_at(t, '\n', j0);
        assert(t.skip(j0 + 1) =~= rest);
        let ps = split_on(t, '\n');
        assert(ps == seq![line0] + split_on(rest, '\n'));
        lemma_split_len(rest, '\n');
        if rest.len() == 0 {
            assert(ms.skip(1).len() == 0) by {
                if ms.skip(1).len() > 0 {
                    lemma_serialize_single_line(ms.skip(1)[0]);
                    assert(rest.len() > 0);
                }
            }
            assert(split_on(rest, '\n') =~~= seq![Seq::<char>::empty()]);
            assert(ps.last().len() == 0);
            assert(spec_script_lines(t) =~= seq![line0]);
            assert(spec_parse_line(spec_script_lines(t)[0]) == Some(ms[0]));
        } else {
            let ps_rest = split_on(rest, '\n');
            assert(ps.last() == ps_rest.last());
            assert(spec_script_lines(rest).len() == ms.skip(1).len());
            if ps_rest.last().len() == 0 {
                assert(spec_script_lines(rest) == ps_rest.drop_last());
                assert(spec_script_lines(t) =~= seq![line0] + spec_script_lines(rest)) by {
                    assert(ps.drop_last() =~= seq![line0] + ps_rest.drop_last());
                }
            } else {
                assert(spec_script_lines(rest) == ps_rest);
                assert(spec_script_lines(t) =~= seq![line0] + spec_script_lines(rest));
            }
            let lines = spec_script_lines(t);
            assert(lines.len() == ms.len());
            assert forall|j: int| 0 <= j < ms.len() implies spec_parse_line(#[trigger] lines[j])
                == Some(ms[j]) by {
                if j == 0 {
                    assert(lines[0] == line0);
                } else {
                    assert(lines[j] == spec_script_lines(rest)[j - 1]);
                    assert(ms.skip(1)[j - 1] == ms[j]);
                }
            }
        }
    }
}

/// How many space-separated tokens a line under this keyword must have.
pub open spec fn keyword_arity_ok(k: XMacroInstructions, n: nat) -> bool {
    match k {
        XMacroInstructions::MotionNotify => n == 3,
        XMacroInstructions::String => n >= 2,
        _ => n == 2,
    }
}

/// Law: a line whose leading token is a known keyword but whose token count
/// does not match that keyword's arity is rejected.
pub proof fn lemma_wrong_arity_rejected(line: Seq<char>, k: XMacroInstructions)
    requires
        XMacroInstructions::spec_from_token(split_on(line, ' ')[0]) == Some(k),
        !keyword_arity_ok(k, split_on(line, ' ').len()),
    ensures
        spec_parse_line(line) is None,
{
}

} // verus!
