//! Canonical decimal text of a byte value, with a proof that the text
//! really denotes the value it was rendered from.

use vstd::prelude::*;
use vstd::string::StringExecFns;

verus! {

/// The character for one decimal digit.
pub open spec fn digit_char(d: int) -> char {
    if d == 0 {
        '0'
    } else if d == 1 {
        '1'
    } else if d == 2 {
        '2'
    } else if d == 3 {
        '3'
    } else if d == 4 {
        '4'
    } else if d == 5 {
        '5'
    } else if d == 6 {
        '6'
    } else if d == 7 {
        '7'
    } else if d == 8 {
        '8'
    } else {
        '9'
    }
}

/// The value of one decimal digit character.
pub open spec fn digit_val(c: char) -> int {
    if c == '0' {
        0
    } else if c == '1' {
        1
    } else if c == '2' {
        2
    } else if c == '3' {
        3
    } else if c == '4' {
        4
    } else if c == '5' {
        5
    } else if c == '6' {
        6
    } else if c == '7' {
        7
    } else if c == '8' {
        8
    } else {
        9
    }
}

/// The canonical decimal text of a byte value: one to three digits,
/// no leading zero.
pub open spec fn u8_dec_str(v: u8) -> Seq<char> {
    if v < 10 {
        seq![digit_char(v as int)]
    } else if v < 100 {
        seq![digit_char(v as int / 10), digit_char(v as int % 10)]
    } else {
        seq![
            digit_char(v as int / 100),
            digit_char((v as int / 10) % 10),
            digit_char(v as int % 10),
        ]
    }
}

/// The number denoted by a sequence of decimal digit characters.
pub open spec fn dec_val(s: Seq<char>) -> int
    decreases s.len(),
{
    if s.len() == 0 {
        0
    } else {
        dec_val(s.drop_last()) * 10 + digit_val(s.last())
    }
}

fn digit_to_str(d: u8) -> (r: &'static str)
    requires
        d < 10,
    ensures
        r@ == seq![digit_char(d as int)],
{
    let r: &'static str = match d {
        0 => "0",
        1 => "1",
        2 => "2",
        3 => "3",
        4 => "4",
        5 => "5",
        6 => "6",
        7 => "7",
        8 => "8",
        _ => "9",
    };
    proof {
        reveal_strlit("0");
        reveal_strlit("1");
        reveal_strlit("2");
        reveal_strlit("3");
        reveal_strlit("4");
        reveal_strlit("5");
        reveal_strlit("6");
        reveal_strlit("7");
        reveal_strlit("8");
        reveal_strlit("9");
        assert(r@ =~= seq![digit_char(d as int)]);
    }
    r
}

/// Renders a byte value as its decimal text, for example 72 as "72".
pub fn u8_to_dec_string(v: u8) -> (r: String)
    ensures
        r@ == u8_dec_str(v),
{
    let mut s = String::new();
    if v >= 100 {
        s.append(digit_to_str(v / 100));
    }
    if v >= 10 {
        s.append(digit_to_str((v / 10) % 10));
    }
    s.append(digit_to_str(v % 10));
    proof {
        assert(s@ =~= u8_dec_str(v));
    }
    s
}

/// The decimal text of a byte value denotes exactly that value.
pub proof fn lemma_u8_dec_str_value(v: u8)
    ensures
        dec_val(u8_dec_str(v)) == v,
{
    reveal_with_fuel(dec_val, 4);
    let s = u8_dec_str(v);
    assert(dec_val(Seq::<char>::empty()) == 0);
    if v < 10 {
        assert(s.drop_last() =~= Seq::<char>::empty());
        assert(dec_val(s) == digit_val(digit_char(v as int)));
    } else if v < 100 {
        let hd = seq![digit_char(v as int / 10)];
        assert(s.drop_last() =~= hd);
        assert(hd.drop_last() =~= Seq::<char>::empty());
        assert(dec_val(hd) == digit_val(digit_char(v as int / 10)));
        assert(dec_val(s) == (v as int / 10) * 10 + v as int % 10);
    } else {
        let hd2 = seq![digit_char(v as int / 100), digit_char((v as int / 10) % 10)];
        let hd1 = seq![digit_char(v as int / 100)];
        assert(s.drop_last() =~= hd2);
        assert(hd2.drop_last() =~= hd1);
        assert(hd1.drop_last() =~= Seq::<char>::empty());
        assert(dec_val(hd1) == digit_val(digit_char(v as int / 100)));
        assert(dec_val(hd2) == (v as int / 100) * 10 + (v as int / 10) % 10);
        assert(dec_val(s) == ((v as int / 100) * 10 + (v as int / 10) % 10) * 10 + v as int % 10);
    }
}

/// The decimal text of a byte value never has a leading zero.
pub proof fn lemma_u8_dec_str_no_leading_zero(v: u8)
    requires
        v >= 10,
    ensures
        u8_dec_str(v)[0] != '0',
{
}

} // verus!
