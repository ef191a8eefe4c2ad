//! Numbers written out as text.

use vstd::prelude::*;

verus! {

/// The character for one digit below sixteen, in lower case.
pub open spec fn digit_char(d: int) -> char {
    if d == 0 {
        '0'
    } else if d == 1 {
        '1'
    } else if d == 2 {
        '2'
    } else if d == 3 {
        '3'
    } else if d == 4 {
        '4'
    } else if d == 5 {
        '5'
    } else if d == 6 {
        '6'
    } else if d == 7 {
        '7'
    } else if d == 8 {
        '8'
    } else if d == 9 {
        '9'
    } else if d == 10 {
        'a'
    } else if d == 11 {
        'b'
    } else if d == 12 {
        'c'
    } else if d == 13 {
        'd'
    } else if d == 14 {
        'e'
    } else {
        'f'
    }
}

/// `n` in decimal, most significant digit first, without leading zeros;
/// zero is the single digit `0`.
pub open spec fn decimal(n: nat) -> Seq<char>
    decreases n,
{
    if n < 10 {
        seq![digit_char(n as int)]
    } else {
        decimal(n / 10).push(digit_char((n % 10) as int))
    }
}

/// The hexadecimal digits of `n` in lower case, most significant first,
/// without leading zeros; zero is the single digit `0`.
pub open spec fn hex_digits(n: nat) -> Seq<char>
    decreases n,
{
    if n < 16 {
        seq![digit_char(n as int)]
    } else {
        hex_digits(n / 16).push(digit_char((n % 16) as int))
    }
}

/// `n` in lower-case hexadecimal after the prefix `0x`.
pub open spec fn hexadecimal(n: nat) -> Seq<char> {
    seq!['0', 'x'] + hex_digits(n)
}

/// A signed quantity in hexadecimal: its sign, `+` or `-`, and then its
/// magnitude.
pub open spec fn signed_hexadecimal(n: int) -> Seq<char> {
    if n < 0 {
        seq!['-'] + hexadecimal((-n) as nat)
    } else {
        seq!['+'] + hexadecimal(n as nat)
    }
}

/// The text of one digit.
fn digit_text(d: u8) -> (s: &'static str)
    requires
        d < 16,
    ensures
        s@ == seq![digit_char(d as int)],
{
    proof {
        reveal_strlit("0");
        reveal_strlit("1");
        reveal_strlit("2");
        reveal_strlit("3");
        reveal_strlit("4");
        reveal_strlit("5");
        reveal_strlit("6");
        reveal_strlit("7");
        reveal_strlit("8");
        reveal_strlit("9");
        reveal_strlit("a");
        reveal_strlit("b");
        reveal_strlit("c");
        reveal_strlit("d");
        reveal_strlit("e");
        reveal_strlit("f");
    }
    let s = match d {
        0 => "0",
        1 => "1",
        2 => "2",
        3 => "3",
        4 => "4",
        5 => "5",
        6 => "6",
        7 => "7",
        8 => "8",
        9 => "9",
        10 => "a",
        11 => "b",
        12 => "c",
        13 => "d",
        14 => "e",
        _ => "f",
    };
    assert(s@ =~= seq![digit_char(d as int)]);
    s
}

/// Appends `n` in decimal to `out`.
pub fn push_decimal(out: &mut String, n: u64)
    ensures
        final(out)@ == old(out)@ + decimal(n as nat),
    decreases n,
{
    if n < 10 {
        out.append(digit_text(n as u8));
    } else {
        push_decimal(out, n / 10);
        out.append(digit_text((n % 10) as u8));
        assert(out@ =~= old(out)@ + decimal(n as nat));
    }
}

/// Appends the hexadecimal digits of `n` to `out`.
fn push_hex_digits(out: &mut String, n: u64)
    ensures
        final(out)@ == old(out)@ + hex_digits(n as nat),
    decreases n,
{
    if n < 16 {
        out.append(digit_text(n as u8));
    } else {
        push_hex_digits(out, n / 16);
        out.append(digit_text((n % 16) as u8));
        assert(out@ =~= old(out)@ + hex_digits(n as nat));
    }
}

/// Appends `n` in prefixed hexadecimal to `out`.
pub fn push_hexadecimal(out: &mut String, n: u64)
    ensures
        final(out)@ == old(out)@ + hexadecimal(n as nat),
{
    proof {
        reveal_strlit("0x");
    }
    out.append("0x");
    push_hex_digits(out, n);
    assert(out@ =~= old(out)@ + hexadecimal(n as nat));
}

/// `n` in decimal.
pub fn decimal_text(n: u64) -> (s: String)
    ensures
        s@ == decimal(n as nat),
{
    let mut s = String::new();
    push_decimal(&mut s, n);
    assert(s@ =~= decimal(n as nat));
    s
}

/// `n` in prefixed hexadecimal.
pub fn hexadecimal_text(n: u64) -> (s: String)
    ensures
        s@ == hexadecimal(n as nat),
{
    let mut s = String::new();
    push_hexadecimal(&mut s, n);
    assert(s@ =~= hexadecimal(n as nat));
    s
}

/// A signed quantity with its sign and its magnitude in prefixed
/// hexadecimal.
pub fn signed_hexadecimal_text(n: i64) -> (s: String)
    ensures
        s@ == signed_hexadecimal(n as int),
{
    proof {
        reveal_strlit("-");
        reveal_strlit("+");
    }
    let mut s = String::new();
    if n < 0 {
        s.append("-");
        let magnitude: u64 = if n == i64::MIN {
            0x8000_0000_0000_0000
        } else {
            (-n) as u64
        };
        push_hexadecimal(&mut s, magnitude);
    } else {
        s.append("+");
        push_hexadecimal(&mut s, n as u64);
    }
    assert(s@ =~= signed_hexadecimal(n as int));
    s
}

} // verus!
