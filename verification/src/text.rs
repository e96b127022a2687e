//! Numbers as text: hexadecimal and decimal digits, appended to a string.

use vstd::prelude::*;

verus! {

/// The character of a hexadecimal digit, with the letters in upper or lower
/// case.
pub open spec fn hex_char(d: int, upper: bool) -> char {
    if d == 0 {
        '0'
    } else if d == 1 {
        '1'
    } else if d == 2 {
        '2'
    } else if d == 3 {
        '3'
    } else if d == 4 {
        '4'
    } else if d == 5 {
        '5'
    } else if d == 6 {
        '6'
    } else if d == 7 {
        '7'
    } else if d == 8 {
        '8'
    } else if d == 9 {
        '9'
    } else if d == 10 {
        if upper {
            'A'
        } else {
            'a'
        }
    } else if d == 11 {
        if upper {
            'B'
        } else {
            'b'
        }
    } else if d == 12 {
        if upper {
            'C'
        } else {
            'c'
        }
    } else if d == 13 {
        if upper {
            'D'
        } else {
            'd'
        }
    } else if d == 14 {
        if upper {
            'E'
        } else {
            'e'
        }
    } else {
        if upper {
            'F'
        } else {
            'f'
        }
    }
}

/// A number in hexadecimal, the highest digit first, with zeros in front up to
/// `width` digits.
pub open spec fn hex_text(n: nat, width: nat, upper: bool) -> Seq<char>
    decreases n, width,
{
    if n < 16 && width <= 1 {
        seq![hex_char(n as int, upper)]
    } else {
        hex_text(
            n / 16,
            if width > 0 {
                (width - 1) as nat
            } else {
                0
            },
            upper,
        ).push(hex_char(n as int % 16, upper))
    }
}

/// A number in decimal, the highest digit first.
pub open spec fn decimal_text(n: nat) -> Seq<char>
    decreases n,
{
    if n < 10 {
        seq![hex_char(n as int, false)]
    } else {
        decimal_text(n / 10).push(hex_char(n as int % 10, false))
    }
}

/// A number in lower-case hexadecimal behind `0x`, with at least `width`
/// digits.
pub open spec fn prefixed_hex_text(n: nat, width: nat) -> Seq<char> {
    "0x"@ + hex_text(n, width, false)
}

/// The one-character string of a hexadecimal digit.
pub fn hex_digit(d: u8, upper: bool) -> (s: &'static str)
    requires
        d < 16,
    ensures
        s@ == seq![hex_char(d as int, upper)],
{
    proof {
        reveal_strlit("0");
        reveal_strlit("1");
        reveal_strlit("2");
        reveal_strlit("3");
        reveal_strlit("4");
        reveal_strlit("5");
        reveal_strlit("6");
        reveal_strlit("7");
        reveal_strlit("8");
        reveal_strlit("9");
        reveal_strlit("A");
        reveal_strlit("B");
        reveal_strlit("C");
        reveal_strlit("D");
        reveal_strlit("E");
        reveal_strlit("F");
        reveal_strlit("a");
        reveal_strlit("b");
        reveal_strlit("c");
        reveal_strlit("d");
        reveal_strlit("e");
        reveal_strlit("f");
    }
    let s = match d {
        0 => "0",
        1 => "1",
        2 => "2",
        3 => "3",
        4 => "4",
        5 => "5",
        6 => "6",
        7 => "7",
        8 => "8",
        9 => "9",
        10 => if upper {
            "A"
        } else {
            "a"
        },
        11 => if upper {
            "B"
        } else {
            "b"
        },
        12 => if upper {
            "C"
        } else {
            "c"
        },
        13 => if upper {
            "D"
        } else {
            "d"
        },
        14 => if upper {
            "E"
        } else {
            "e"
        },
        _ => if upper {
            "F"
        } else {
            "f"
        },
    };
    assert(s@ =~= seq![hex_char(d as int, upper)]);
    s
}

/// Appends a number in hexadecimal with at least `width` digits.
pub fn push_hex(s: &mut String, n: u16, width: u8, upper: bool)
    ensures
        final(s)@ == old(s)@ + hex_text(n as nat, width as nat, upper),
    decreases n, width,
{
    if n < 16 && width <= 1 {
        s.append(hex_digit(n as u8, upper));
    } else {
        push_hex(
            s,
            n / 16,
            if width > 0 {
                width - 1
            } else {
                0
            },
            upper,
        );
        s.append(hex_digit((n % 16) as u8, upper));
        assert(s@ =~= old(s)@ + hex_text(n as nat, width as nat, upper));
    }
}

/// Appends a number in lower-case hexadecimal behind `0x`, with at least
/// `width` digits.
pub fn push_prefixed_hex(s: &mut String, n: u16, width: u8)
    ensures
        final(s)@ == old(s)@ + prefixed_hex_text(n as nat, width as nat),
{
    s.append("0x");
    push_hex(s, n, width, false);
    assert(s@ =~= old(s)@ + prefixed_hex_text(n as nat, width as nat));
}

/// Appends a number in decimal.
pub fn push_decimal(s: &mut String, n: u16)
    ensures
        final(s)@ == old(s)@ + decimal_text(n as nat),
    decreases n,
{
    if n < 10 {
        s.append(hex_digit(n as u8, false));
    } else {
        push_decimal(s, n / 10);
        s.append(hex_digit((n % 10) as u8, false));
        assert(s@ =~= old(s)@ + decimal_text(n as nat));
    }
}

} // verus!
