//! Integers written out in decimal.

use vstd::prelude::*;

verus! {

/// The character for a single decimal digit.
pub open spec fn digit_char(d: int) -> char
    recommends
        0 <= d < 10,
{
    if d == 0 {
        '0'
    } else if d == 1 {
        '1'
    } else if d == 2 {
        '2'
    } else if d == 3 {
        '3'
    } else if d == 4 {
        '4'
    } else if d == 5 {
        '5'
    } else if d == 6 {
        '6'
    } else if d == 7 {
        '7'
    } else if d == 8 {
        '8'
    } else {
        '9'
    }
}

/// The digits of a natural number, most significant first, with no leading
/// zero except for zero itself.
pub open spec fn nat_text(n: nat) -> Seq<char>
    decreases n,
{
    if n < 10 {
        seq![digit_char(n as int)]
    } else {
        nat_text(n / 10).push(digit_char((n % 10) as int))
    }
}

/// An integer in decimal: a minus sign for negative numbers, then the digits
/// of the magnitude.
pub open spec fn int_text(i: int) -> Seq<char> {
    if i < 0 {
        seq!['-'] + nat_text((-i) as nat)
    } else {
        nat_text(i as nat)
    }
}

/// Whether `c` is one of the ten digits.
pub open spec fn is_digit(c: char) -> bool {
    0x30 <= c as u32 <= 0x39
}

/// `count` zeros.
pub open spec fn zeros(count: nat) -> Seq<char> {
    Seq::new(count, |i: int| '0')
}

/// The digits of `n`, with as many zeros in front as it takes to make them
/// `width` characters; just the digits where they are as many or more.
pub open spec fn padded_text(n: nat, width: nat) -> Seq<char> {
    if nat_text(n).len() < width {
        zeros((width - nat_text(n).len()) as nat) + nat_text(n)
    } else {
        nat_text(n)
    }
}

/// A number is written with at least one character, and with digits only.
pub proof fn lemma_nat_text_is_digits(n: nat)
    ensures
        nat_text(n).len() >= 1,
        forall|i: int| 0 <= i < nat_text(n).len() ==> is_digit(#[trigger] nat_text(n)[i]),
    decreases n,
{
    if n >= 10 {
        lemma_nat_text_is_digits(n / 10);
    }
}

/// A padded number is written with at least `width` characters, and with
/// digits only.
pub proof fn lemma_padded_text_is_digits(n: nat, width: nat)
    ensures
        padded_text(n, width).len() >= width,
        padded_text(n, width).len() >= 1,
        forall|i: int|
            0 <= i < padded_text(n, width).len() ==> is_digit(#[trigger] padded_text(n, width)[i]),
{
    lemma_nat_text_is_digits(n);
}

fn digit_str(d: u32) -> (s: &'static str)
    requires
        d < 10,
    ensures
        s@ == seq![digit_char(d as int)],
{
    proof {
        reveal_strlit("0");
        reveal_strlit("1");
        reveal_strlit("2");
        reveal_strlit("3");
        reveal_strlit("4");
        reveal_strlit("5");
        reveal_strlit("6");
        reveal_strlit("7");
        reveal_strlit("8");
        reveal_strlit("9");
    }
    let s: &'static str = match d {
        0 => "0",
        1 => "1",
        2 => "2",
        3 => "3",
        4 => "4",
        5 => "5",
        6 => "6",
        7 => "7",
        8 => "8",
        _ => "9",
    };
    assert(s@ =~= seq![digit_char(d as int)]);
    s
}

/// Appends the decimal digits of `n` to `out`.
pub fn append_nat(out: &mut String, n: u32)
    ensures
        final(out)@ == old(out)@ + nat_text(n as nat),
    decreases n,
{
    if n >= 10 {
        append_nat(out, n / 10);
    }
    out.append(digit_str(n % 10));
}

/// Appends the digits of `n` to `out`, with zeros in front where they are
/// fewer than `width`.
pub fn append_padded(out: &mut String, n: u32, width: u32)
    ensures
        final(out)@ == old(out)@ + padded_text(n as nat, width as nat),
{
    let ghost before = out@;
    let mut rest: u32 = n;
    let mut count: u64 = 1;
    while rest >= 10
        invariant
            rest <= n,
            1 <= count <= 1 + n - rest,
            nat_text(n as nat).len() == nat_text(rest as nat).len() + count - 1,
        decreases rest,
    {
        rest = rest / 10;
        count = count + 1;
    }
    let mut written: u64 = count;
    while written < width as u64
        invariant
            count <= written,
            written > count ==> written <= width,
            out@ == before + zeros((written - count) as nat),
        decreases width - written,
    {
        out.append("0");
        written = written + 1;
        proof {
            reveal_strlit("0");
            assert(out@ =~= before + zeros((written - count) as nat));
        }
    }
    append_nat(out, n);
    assert(out@ =~= before + padded_text(n as nat, width as nat));
}

/// Appends `i` in decimal to `out`.
pub fn append_int(out: &mut String, i: i32)
    ensures
        final(out)@ == old(out)@ + int_text(i as int),
{
    if i < 0 {
        proof {
            reveal_strlit("-");
        }
        out.append("-");
        let wide: i64 = i as i64;
        let magnitude: u32 = (-wide) as u32;
        append_nat(out, magnitude);
        assert(out@ =~= old(out)@ + int_text(i as int));
    } else {
        append_nat(out, i as u32);
    }
}

/// `i` in decimal, as `i32`'s own formatting writes it.
pub fn decimal(i: i32) -> (text: String)
    ensures
        text@ == int_text(i as int),
{
    let mut text = String::new();
    append_int(&mut text, i);
    assert(text@ =~= int_text(i as int));
    text
}

} // verus!
