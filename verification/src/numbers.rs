use vstd::prelude::*;

verus! {

/// The decimal digit character of a value below ten.
pub open spec fn digit_char(d: nat) -> char
    recommends
        d < 10,
{
    if d == 0 {
        '0'
    } else if d == 1 {
        '1'
    } else if d == 2 {
        '2'
    } else if d == 3 {
        '3'
    } else if d == 4 {
        '4'
    } else if d == 5 {
        '5'
    } else if d == 6 {
        '6'
    } else if d == 7 {
        '7'
    } else if d == 8 {
        '8'
    } else {
        '9'
    }
}

pub open spec fn is_dec_digit(c: char) -> bool {
    48 <= c as u32 && c as u32 <= 57
}

pub open spec fn digit_val(c: char) -> nat
    recommends
        is_dec_digit(c),
{
    (c as u32 - 48) as nat
}

/// The value of a digit string read left to right.
pub open spec fn dec_val(s: Seq<char>) -> nat
    decreases s.len(),
{
    if s.len() == 0 {
        0
    } else {
        dec_val(s.drop_last()) * 10 + digit_val(s.last())
    }
}

pub open spec fn is_digits(s: Seq<char>) -> bool {
    forall|i: int| 0 <= i < s.len() ==> is_dec_digit(s[i])
}

/// A token that the unsigned-number grammar accepts: one or more decimal
/// digits and nothing else.
pub open spec fn is_uint_token(s: Seq<char>) -> bool {
    s.len() > 0 && is_digits(s)
}

/// A token that the signed-number grammar accepts: an optional leading minus
/// sign, then one or more decimal digits.
pub open spec fn is_int_token(s: Seq<char>) -> bool {
    if s.len() > 0 && s[0] == '-' {
        is_uint_token(s.skip(1))
    } else {
        is_uint_token(s)
    }
}

pub open spec fn int_val(s: Seq<char>) -> int
    recommends
        is_int_token(s),
{
    if s.len() > 0 && s[0] == '-' {
        -(dec_val(s.skip(1)) as int)
    } else {
        dec_val(s) as int
    }
}

/// The canonical decimal form of a value: no sign, no leading zero except
/// for the single digit of zero itself.
pub open spec fn dec_str(n: nat) -> Seq<char>
    decreases n,
{
    if n < 10 {
        seq![digit_char(n)]
    } else {
        dec_str(n / 10).push(digit_char(n % 10))
    }
}

/// The canonical decimal form of a signed value: a minus sign before the
/// magnitude when the value is negative.
pub open spec fn int_str(x: int) -> Seq<char> {
    if x < 0 {
        seq!['-'] + dec_str((-x) as nat)
    } else {
        dec_str(x as nat)
    }
}

pub proof fn lemma_digit_char_val(d: nat)
    requires
        d < 10,
    ensures
        is_dec_digit(digit_char(d)),
        digit_val(digit_char(d)) == d,
        digit_char(d) != ' ',
        digit_char(d) != '-',
        digit_char(d) != '\n',
{
}

/// The canonical decimal form is a nonempty all-digit token.
pub proof fn lemma_dec_str_is_uint_token(n: nat)
    ensures
        is_uint_token(dec_str(n)),
    decreases n,
{
    if n < 10 {
        lemma_digit_char_val(n);
    } else {
        lemma_dec_str_is_uint_token(n / 10);
        lemma_digit_char_val(n % 10);
        assert forall|i: int| 0 <= i < dec_str(n).len() implies is_dec_digit(dec_str(n)[i]) by {
            if i < dec_str(n / 10).len() {
                assert(dec_str(n)[i] == dec_str(n / 10)[i]);
            } else {
                assert(dec_str(n)[i] == digit_char(n % 10));
            }
        }
    }
}

/// Reading the canonical decimal form back gives the value it was made from.
pub proof fn lemma_dec_str_val(n: nat)
    ensures
        dec_val(dec_str(n)) == n,
    decreases n,
{
    if n < 10 {
        lemma_digit_char_val(n);
        assert(dec_str(n).drop_last() =~= Seq::<char>::empty());
        assert(dec_str(n).last() == digit_char(n));
        assert(dec_val(Seq::<char>::empty()) == 0);
        assert(dec_val(dec_str(n)) == 0 * 10 + digit_val(digit_char(n)));
    } else {
        lemma_dec_str_val(n / 10);
        lemma_digit_char_val(n % 10);
        assert(dec_str(n).drop_last() =~= dec_str(n / 10));
        assert(dec_str(n).last() == digit_char(n % 10));
        assert(dec_val(dec_str(n)) == dec_val(dec_str(n / 10)) * 10 + digit_val(digit_char(n % 10)));
        vstd::arithmetic::div_mod::lemma_fundamental_div_mod(n as int, 10);
    }
}

pub proof fn lemma_int_str_val(x: int)
    ensures
        is_int_token(int_str(x)),
        int_val(int_str(x)) == x,
{
    if x < 0 {
        lemma_dec_str_is_uint_token((-x) as nat);
        lemma_dec_str_val((-x) as nat);
        assert(int_str(x)[0] == '-');
        assert(int_str(x).skip(1) =~= dec_str((-x) as nat));
    } else {
        lemma_dec_str_is_uint_token(x as nat);
        lemma_dec_str_val(x as nat);
        assert(is_dec_digit(int_str(x)[0]));
        assert(int_str(x)[0] != '-');
    }
}

/// One more digit multiplies the value read so far by ten and adds it.
pub proof fn lemma_dec_val_take_succ(s: Seq<char>, i: int)
    requires
        0 <= i < s.len(),
    ensures
        dec_val(s.take(i + 1)) == dec_val(s.take(i)) * 10 + digit_val(s[i]),
{
    assert(s.take(i + 1).drop_last() =~= s.take(i));
    assert(s.take(i + 1).last() == s[i]);
}

/// Append one decimal digit character to a string.
fn push_digit(s: &mut String, d: u64)
    requires
        d < 10,
    ensures
        final(s)@ == old(s)@ + seq![digit_char(d as nat)],
{
    if d == 0 {
        s.append("0");
        proof {
            reveal_strlit("0");
            assert("0"@ =~= seq![digit_char(0)]);
        }
    } else if d == 1 {
        s.append("1");
        proof {
            reveal_strlit("1");
            assert("1"@ =~= seq![digit_char(1)]);
        }
    } else if d == 2 {
        s.append("2");
        proof {
            reveal_strlit("2");
            assert("2"@ =~= seq![digit_char(2)]);
        }
    } else if d == 3 {
        s.append("3");
        proof {
            reveal_strlit("3");
            assert("3"@ =~= seq![digit_char(3)]);
        }
    } else if d == 4 {
        s.append("4");
        proof {
            reveal_strlit("4");
            assert("4"@ =~= seq![digit_char(4)]);
        }
    } else if d == 5 {
        s.append("5");
        proof {
            reveal_strlit("5");
            assert("5"@ =~= seq![digit_char(5)]);
        }
    } else if d == 6 {
        s.append("6");
        proof {
            reveal_strlit("6");
            assert("6"@ =~= seq![digit_char(6)]);
        }
    } else if d == 7 {
        s.append("7");
        proof {
            reveal_strlit("7");
            assert("7"@ =~= seq![digit_char(7)]);
        }
    } else if d == 8 {
        s.append("8");
        proof {
            reveal_strlit("8");
            assert("8"@ =~= seq![digit_char(8)]);
        }
    } else {
        s.append("9");
        proof {
            reveal_strlit("9");
            assert("9"@ =~= seq![digit_char(9)]);
        }
    }
}

/// The canonical decimal text of an unsigned value.
pub fn u64_to_dec(n: u64) -> (r: String)
    ensures
        r@ == dec_str(n as nat),
    decreases n,
{
    if n < 10 {
        let mut s = String::new();
        push_digit(&mut s, n);
        proof {
            assert(Seq::<char>::empty() + seq![digit_char(n as nat)] =~= dec_str(n as nat));
        }
        s
    } else {
        let mut s = u64_to_dec(n / 10);
        push_digit(&mut s, n % 10);
        proof {
            assert(dec_str((n / 10) as nat) + seq![digit_char((n % 10) as nat)] =~= dec_str(
                n as nat,
            ));
        }
        s
    }
}

/// The canonical decimal text of an unsigned value.
pub fn u32_to_dec(n: u32) -> (r: String)
    ensures
        r@ == dec_str(n as nat),
{
    u64_to_dec(n as u64)
}

/// The canonical decimal text of a signed value.
pub fn i32_to_dec(x: i32) -> (r: String)
    ensures
        r@ == int_str(x as int),
{
    if x >= 0 {
        u64_to_dec(x as u64)
    } else {
        let mag: u64 = (-(x as i64)) as u64;
        let mut s = String::from_str("-");
        let m = u64_to_dec(mag);
        s.append(m.as_str());
        proof {
            reveal_strlit("-");
            assert("-"@ =~= seq!['-']);
            assert(s@ =~= int_str(x as int));
        }
        s
    }
}

/// Read an unsigned decimal token; rejects anything but digits and values
/// that do not fit.
pub fn parse_u64(tok: &str) -> (r: Option<u64>)
    ensures
        r is Some <==> (is_uint_token(tok@) && dec_val(tok@) <= u64::MAX),
        r matches Some(v) ==> v == dec_val(tok@),
{
    let n = tok.unicode_len();
    if n == 0 {
        return None;
    }
    let mut acc: u64 = 0;
    let mut i: usize = 0;
    proof {
        assert(tok@.take(0) =~= Seq::<char>::empty());
    }
    while i < n
        invariant
            0 <= i <= n,
            n == tok@.len(),
            is_digits(tok@.take(i as int)),
            acc == dec_val(tok@.take(i as int)),
        decreases n - i,
    {
        let c = tok.get_char(i);
        let code = c as u32;
        if code < 48 || code > 57 {
            proof {
                assert(!is_dec_digit(tok@[i as int]));
            }
            return None;
        }
        let d: u64 = (code - 48) as u64;
        proof {
            lemma_dec_val_take_succ(tok@, i as int);
            assert(digit_val(tok@[i as int]) == d);
        }
        if acc > (u64::MAX - d) / 10 {
            proof {
                let m = (u64::MAX - d) as int;
                vstd::arithmetic::div_mod::lemma_fundamental_div_mod(m, 10);
                assert(acc * 10 + d > u64::MAX);
                lemma_dec_val_take_le(tok@, i as int + 1);
            }
            return None;
        }
        proof {
            let m = (u64::MAX - d) as int;
            vstd::arithmetic::div_mod::lemma_fundamental_div_mod(m, 10);
            assert(acc * 10 <= m);
        }
        acc = acc * 10 + d;
        i += 1;
    }
    proof {
        assert(tok@.take(n as int) =~= tok@);
    }
    Some(acc)
}

/// Read an unsigned decimal token that must fit in 32 bits.
pub fn parse_u32(tok: &str) -> (r: Option<u32>)
    ensures
        r is Some <==> (is_uint_token(tok@) && dec_val(tok@) <= u32::MAX),
        r matches Some(v) ==> v == dec_val(tok@),
{
    match parse_u64(tok) {
        Some(v) => if v <= 0xFFFF_FFFF {
            Some(v as u32)
        } else {
            None
        },
        None => None,
    }
}

/// Read a signed decimal token that must fit in 32 bits.
pub fn parse_i32(tok: &str) -> (r: Option<i32>)
    ensures
        r is Some <==> (is_int_token(tok@) && i32::MIN <= int_val(tok@) <= i32::MAX),
        r matches Some(v) ==> v as int == int_val(tok@),
{
    let n = tok.unicode_len();
    if n > 0 && tok.get_char(0) == '-' {
        let mag = tok.substring_char(1, n);
        proof {
            assert(mag@ =~= tok@.skip(1));
        }
        match parse_u64(mag) {
            Some(v) => if v <= 2147483647 {
                Some(-(v as i32))
            } else if v == 2147483648 {
                Some(i32::MIN)
            } else {
                None
            },
            None => None,
        }
    } else {
        match parse_u64(tok) {
            Some(v) => if v <= 2147483647 {
                Some(v as i32)
            } else {
                None
            },
            None => None,
        }
    }
}

/// The value of a digit string never falls below the value of a prefix.
pub proof fn lemma_dec_val_take_le(s: Seq<char>, i: int)
    requires
        0 <= i <= s.len(),
    ensures
        dec_val(s.take(i)) <= dec_val(s),
    decreases s.len() - i,
{
    if i < s.len() {
        lemma_dec_val_take_succ(s, i);
        lemma_dec_val_take_le(s, i + 1);
    } else {
        assert(s.take(i) =~= s);
    }
}

} // verus!
