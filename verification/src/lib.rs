use vstd::prelude::*;

pub mod instruction;
pub mod modifiers;
pub mod numbers;
pub mod parser;
pub mod playback;
pub mod record;
pub mod session;
pub mod tokens;

use crate::tokens::{has_no_char, str_eq};

verus! {

/// The instruction keywords of the macro script format, one variant per
/// recognized leading token of a script line.
#[derive(Clone, Copy, Debug, PartialEq, Eq, Structural)]
pub enum XMacroInstructions {
    Delay,
    ButtonPress,
    ButtonRelease,
    MotionNotify,
    KeyCodePress,
    KeyCodeRelease,
    KeySymPress,
    KeySymRelease,
    KeySym,
    KeyStrPress,
    KeyStrRelease,
    KeyStr,
    String,
}

impl XMacroInstructions {
    /// The text of the keyword, as it stands in a script line.
    pub open spec fn keyword(self) -> Seq<char> {
        match self {
            XMacroInstructions::Delay => seq!['D', 'e', 'l', 'a', 'y'],
            XMacroInstructions::ButtonPress => seq![
                'B', 'u', 't', 't', 'o', 'n', 'P', 'r', 'e', 's', 's',
            ],
            XMacroInstructions::ButtonRelease => seq![
                'B', 'u', 't', 't', 'o', 'n', 'R', 'e', 'l', 'e', 'a', 's', 'e',
            ],
            XMacroInstructions::MotionNotify => seq![
                'M', 'o', 't', 'i', 'o', 'n', 'N', 'o', 't', 'i', 'f', 'y',
            ],
            XMacroInstructions::KeyCodePress => seq![
                'K', 'e', 'y', 'C', 'o', 'd', 'e', 'P', 'r', 'e', 's', 's',
            ],
            XMacroInstructions::KeyCodeRelease => seq![
                'K', 'e', 'y', 'C', 'o', 'd', 'e', 'R', 'e', 'l', 'e', 'a', 's', 'e',
            ],
            XMacroInstructions::KeySymPress => seq![
                'K', 'e', 'y', 'S', 'y', 'm', 'P', 'r', 'e', 's', 's',
            ],
            XMacroInstructions::KeySymRelease => seq![
                'K', 'e', 'y', 'S', 'y', 'm', 'R', 'e', 'l', 'e', 'a', 's', 'e',
            ],
            XMacroInstructions::KeySym => seq!['K', 'e', 'y', 'S', 'y', 'm'],
            XMacroInstructions::KeyStrPress => seq![
                'K', 'e', 'y', 'S', 't', 'r', 'P', 'r', 'e', 's', 's',
            ],
            XMacroInstructions::KeyStrRelease => seq![
                'K', 'e', 'y', 'S', 't', 'r', 'R', 'e', 'l', 'e', 'a', 's', 'e',
            ],
            XMacroInstructions::KeyStr => seq!['K', 'e', 'y', 'S', 't', 'r'],
            XMacroInstructions::String => seq!['S', 't', 'r', 'i', 'n', 'g'],
        }
    }

    /// The keyword a token names, if the token is one of the thirteen.
    pub open spec fn spec_from_token(s: Seq<char>) -> Option<XMacroInstructions> {
        if s == XMacroInstructions::Delay.keyword() {
            Some(XMacroInstructions::Delay)
        } else if s == XMacroInstructions::ButtonPress.keyword() {
            Some(XMacroInstructions::ButtonPress)
        } else if s == XMacroInstructions::ButtonRelease.keyword() {
            Some(XMacroInstructions::ButtonRelease)
        } else if s == XMacroInstructions::MotionNotify.keyword() {
            Some(XMacroInstructions::MotionNotify)
        } else if s == XMacroInstructions::KeyCodePress.keyword() {
            Some(XMacroInstructions::KeyCodePress)
        } else if s == XMacroInstructions::KeyCodeRelease.keyword() {
            Some(XMacroInstructions::KeyCodeRelease)
        } else if s == XMacroInstructions::KeySymPress.keyword() {
            Some(XMacroInstructions::KeySymPress)
        } else if s == XMacroInstructions::KeySymRelease.keyword() {
            Some(XMacroInstructions::KeySymRelease)
        } else if s == XMacroInstructions::KeySym.keyword() {
            Some(XMacroInstructions::KeySym)
        } else if s == XMacroInstructions::KeyStrPress.keyword() {
            Some(XMacroInstructions::KeyStrPress)
        } else if s == XMacroInstructions::KeyStrRelease.keyword() {
            Some(XMacroInstructions::KeyStrRelease)
        } else if s == XMacroInstructions::KeyStr.keyword() {
            Some(XMacroInstructions::KeyStr)
        } else if s == XMacroInstructions::String.keyword() {
            Some(XMacroInstructions::String)
        } else {
            None
        }
    }

    /// The text of the keyword.
    pub fn keyword_text(self) -> (r: &'static str)
        ensures
            r@ == self.keyword(),
    {
        match self {
            XMacroInstructions::Delay => {
                proof {
                    reveal_strlit("Delay");
                }
                let r = "Delay";
                proof {
                    assert(r@ =~= self.keyword());
                }
                r
            },
            XMacroInstructions::ButtonPress => {
                proof {
                    reveal_strlit("ButtonPress");
                }
                let r = "ButtonPress";
                proof {
                    assert(r@ =~= self.keyword());
                }
                r
            },
            XMacroInstructions::ButtonRelease => {
                proof {
                    reveal_strlit("ButtonRelease");
                }
                let r = "ButtonRelease";
                proof {
                    assert(r@ =~= self.keyword());
                }
                r
            },
            XMacroInstructions::MotionNotify => {
                proof {
                    reveal_strlit("MotionNotify");
                }
                let r = "MotionNotify";
                proof {
                    assert(r@ =~= self.keyword());
                }
                r
            },
            XMacroInstructions::KeyCodePress => {
                proof {
                    reveal_strlit("KeyCodePress");
                }
                let r = "KeyCodePress";
                proof {
                    assert(r@ =~= self.keyword());
                }
                r
            },
            XMacroInstructions::KeyCodeRelease => {
                proof {
                    reveal_strlit("KeyCodeRelease");
                }
                let r = "KeyCodeRelease";
                proof {
                    assert(r@ =~= self.keyword());
                }
                r
            },
            XMacroInstructions::KeySymPress => {
                proof {
                    reveal_strlit("KeySymPress");
                }
                let r = "KeySymPress";
                proof {
                    assert(r@ =~= self.keyword());
                }
                r
            },
            XMacroInstructions::KeySymRelease => {
                proof {
                    reveal_strlit("KeySymRelease");
                }
                let r = "KeySymRelease";
                proof {
                    assert(r@ =~= self.keyword());
                }
                r
            },
            XMacroInstructions::KeySym => {
                proof {
                    reveal_strlit("KeySym");
                }
                let r = "KeySym";
                proof {
                    assert(r@ =~= self.keyword());
                }
                r
            },
            XMacroInstructions::KeyStrPress => {
                proof {
                    reveal_strlit("KeyStrPress");
                }
                let r = "KeyStrPress";
                proof {
                    assert(r@ =~= self.keyword());
                }
                r
            },
            XMacroInstructions::KeyStrRelease => {
                proof {
                    reveal_strlit("KeyStrRelease");
                }
                let r = "KeyStrRelease";
                proof {
                    assert(r@ =~= self.keyword());
                }
                r
            },
            XMacroInstructions::KeyStr => {
                proof {
                    reveal_strlit("KeyStr");
                }
                let r = "KeyStr";
                proof {
                    assert(r@ =~= self.keyword());
                }
                r
            },
            XMacroInstructions::String => {
                proof {
                    reveal_strlit("String");
                }
                let r = "String";
                proof {
                    assert(r@ =~= self.keyword());
                }
                r
            },
        }
    }

    /// Recognize a leading token as a keyword.
    pub fn from_token(tok: &str) -> (r: Option<XMacroInstructions>)
        ensures
            r == XMacroInstructions::spec_from_token(tok@),
    {
        if str_eq(tok, XMacroInstructions::Delay.keyword_text()) {
            Some(XMacroInstructions::Delay)
        } else if str_eq(tok, XMacroInstructions::ButtonPress.keyword_text()) {
            Some(XMacroInstructions::ButtonPress)
        } else if str_eq(tok, XMacroInstructions::ButtonRelease.keyword_text()) {
            Some(XMacroInstructions::ButtonRelease)
        } else if str_eq(tok, XMacroInstructions::MotionNotify.keyword_text()) {
            Some(XMacroInstructions::MotionNotify)
        } else if str_eq(tok, XMacroInstructions::KeyCodePress.keyword_text()) {
            Some(XMacroInstructions::KeyCodePress)
        } else if str_eq(tok, XMacroInstructions::KeyCodeRelease.keyword_text()) {
            Some(XMacroInstructions::KeyCodeRelease)
        } else if str_eq(tok, XMacroInstructions::KeySymPress.keyword_text()) {
            Some(XMacroInstructions::KeySymPress)
        } else if str_eq(tok, XMacroInstructions::KeySymRelease.keyword_text()) {
            Some(XMacroInstructions::KeySymRelease)
        } else if str_eq(tok, XMacroInstructions::KeySym.keyword_text()) {
            Some(XMacroInstructions::KeySym)
        } else if str_eq(tok, XMacroInstructions::KeyStrPress.keyword_text()) {
            Some(XMacroInstructions::KeyStrPress)
        } else if str_eq(tok, XMacroInstructions::KeyStrRelease.keyword_text()) {
            Some(XMacroInstructions::KeyStrRelease)
        } else if str_eq(tok, XMacroInstructions::KeyStr.keyword_text()) {
            Some(XMacroInstructions::KeyStr)
        } else if str_eq(tok, XMacroInstructions::String.keyword_text()) {
            Some(XMacroInstructions::String)
        } else {
            None
        }
    }
}

/// Every keyword is a nonempty token free of spaces and line breaks.
pub proof fn lemma_keyword_clean(k: XMacroInstructions)
    ensures
        k.keyword().len() > 0,
        has_no_char(k.keyword(), ' '),
        has_no_char(k.keyword(), '\n'),
{
}

/// Recognizing a keyword's own text gives the keyword back.
pub proof fn lemma_keyword_token(k: XMacroInstructions)
    ensures
        XMacroInstructions::spec_from_token(k.keyword()) == Some(k),
{
    let d = XMacroInstructions::Delay.keyword();
    let bp = XMacroInstructions::ButtonPress.keyword();
    let br = XMacroInstructions::ButtonRelease.keyword();
    let mn = XMacroInstructions::MotionNotify.keyword();
    let kcp = XMacroInstructions::KeyCodePress.keyword();
    let kcr = XMacroInstructions::KeyCodeRelease.keyword();
    let ksp = XMacroInstructions::KeySymPress.keyword();
    let ksr = XMacroInstructions::KeySymRelease.keyword();
    let ks = XMacroInstructions::KeySym.keyword();
    let ktp = XMacroInstructions::KeyStrPress.keyword();
    let ktr = XMacroInstructions::KeyStrRelease.keyword();
    let kt = XMacroInstructions::KeyStr.keyword();
    let st = XMacroInstructions::String.keyword();
    assert(d.len() == 5 && bp.len() == 11 && br.len() == 13 && mn.len() == 12 && kcp.len() == 12
        && kcr.len() == 14 && ksp.len() == 11 && ksr.len() == 13 && ks.len() == 6 && ktp.len()
        == 11 && ktr.len() == 13 && kt.len() == 6 && st.len() == 6);
    assert(bp[0] == 'B' && ksp[0] == 'K' && ktp[0] == 'K' && ksp[4] == 'y' && ktp[4] == 't');
    assert(mn[0] == 'M' && kcp[0] == 'K');
    assert(br[0] == 'B' && ksr[0] == 'K' && ktr[0] == 'K' && ksr[4] == 'y' && ktr[4] == 't');
    assert(ks[0] == 'K' && kt[0] == 'K' && st[0] == 'S' && ks[4] == 'y' && kt[4] == 't');
}

} // verus!
