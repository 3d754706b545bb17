//! Textual forms: bytes as hexadecimal digits, numbers as decimal digits.

use vstd::prelude::*;
use vstd::string::StringExecFns;

verus! {

/// The digit that stands for `d` in base 16, in upper or lower case. For
/// `d` below ten it is the decimal digit.
pub open spec fn hex_digit(d: u8, upper: bool) -> char
    recommends
        d < 16,
{
    if d == 0 {
        '0'
    } else if d == 1 {
        '1'
    } else if d == 2 {
        '2'
    } else if d == 3 {
        '3'
    } else if d == 4 {
        '4'
    } else if d == 5 {
        '5'
    } else if d == 6 {
        '6'
    } else if d == 7 {
        '7'
    } else if d == 8 {
        '8'
    } else if d == 9 {
        '9'
    } else if d == 10 {
        if upper {
            'A'
        } else {
            'a'
        }
    } else if d == 11 {
        if upper {
            'B'
        } else {
            'b'
        }
    } else if d == 12 {
        if upper {
            'C'
        } else {
            'c'
        }
    } else if d == 13 {
        if upper {
            'D'
        } else {
            'd'
        }
    } else if d == 14 {
        if upper {
            'E'
        } else {
            'e'
        }
    } else {
        if upper {
            'F'
        } else {
            'f'
        }
    }
}

/// The hexadecimal form of a run of bytes: two digits for each byte, the
/// high half of the byte first, the bytes in their order.
pub open spec fn hex(bytes: Seq<u8>, upper: bool) -> Seq<char> {
    Seq::new(
        2 * bytes.len(),
        |i: int|
            if i % 2 == 0 {
                hex_digit(bytes[i / 2] / 16, upper)
            } else {
                hex_digit(bytes[i / 2] % 16, upper)
            },
    )
}

/// The decimal form of a number, without leading zeros.
pub open spec fn decimal(n: nat) -> Seq<char>
    decreases n,
{
    if n < 10 {
        seq![hex_digit(n as u8, false)]
    } else {
        decimal(n / 10).push(hex_digit((n % 10) as u8, false))
    }
}

/// The digit of `d` as a string of one character.
fn lower_digit_str(d: u8) -> (s: &'static str)
    requires
        d < 16,
    ensures
        s@ == seq![hex_digit(d, false)],
{
    proof {
        reveal_strlit("0");
        reveal_strlit("1");
        reveal_strlit("2");
        reveal_strlit("3");
        reveal_strlit("4");
        reveal_strlit("5");
        reveal_strlit("6");
        reveal_strlit("7");
        reveal_strlit("8");
        reveal_strlit("9");
        reveal_strlit("a");
        reveal_strlit("b");
        reveal_strlit("c");
        reveal_strlit("d");
        reveal_strlit("e");
        reveal_strlit("f");
    }
    let s = match d {
        0 => "0",
        1 => "1",
        2 => "2",
        3 => "3",
        4 => "4",
        5 => "5",
        6 => "6",
        7 => "7",
        8 => "8",
        9 => "9",
        10 => "a",
        11 => "b",
        12 => "c",
        13 => "d",
        14 => "e",
        _ => "f",
    };
    assert(s@ =~= seq![hex_digit(d, false)]);
    s
}

/// The digit of `d` as a string of one character, letters in upper case.
fn upper_digit_str(d: u8) -> (s: &'static str)
    requires
        d < 16,
    ensures
        s@ == seq![hex_digit(d, true)],
{
    if d < 10 {
        lower_digit_str(d)
    } else {
        proof {
            reveal_strlit("A");
            reveal_strlit("B");
            reveal_strlit("C");
            reveal_strlit("D");
            reveal_strlit("E");
            reveal_strlit("F");
        }
        let s = match d {
            10 => "A",
            11 => "B",
            12 => "C",
            13 => "D",
            14 => "E",
            _ => "F",
        };
        assert(s@ =~= seq![hex_digit(d, true)]);
        s
    }
}

/// The hexadecimal form of `bytes`, in upper or lower case.
pub fn hex_string(bytes: &[u8], upper: bool) -> (s: String)
    ensures
        s@ == hex(bytes@, upper),
{
    let mut s = String::new();
    let mut i: usize = 0;
    while i < bytes.len()
        invariant
            i <= bytes@.len(),
            s@ == hex(bytes@.subrange(0, i as int), upper),
        decreases bytes@.len() - i,
    {
        let b = bytes[i];
        let ghost before = s@;
        if upper {
            s.append(upper_digit_str(b / 16));
            s.append(upper_digit_str(b % 16));
        } else {
            s.append(lower_digit_str(b / 16));
            s.append(lower_digit_str(b % 16));
        }
        i = i + 1;
        assert(s@ =~= hex(bytes@.subrange(0, i as int), upper)) by {
            assert(s@ == before + seq![hex_digit(b / 16, upper)] + seq![hex_digit(b % 16, upper)]);
            assert(s@.len() == 2 * i);
            assert forall|j: int| 0 <= j < 2 * i implies s@[j] == hex(
                bytes@.subrange(0, i as int),
                upper,
            )[j] by {
                if j < 2 * (i - 1) {
                    assert(s@[j] == hex(bytes@.subrange(0, i - 1), upper)[j]);
                    assert(bytes@.subrange(0, i - 1)[j / 2] == bytes@.subrange(0, i as int)[j
                        / 2]);
                } else {
                    assert(j / 2 == i - 1);
                    assert(bytes@.subrange(0, i as int)[j / 2] == b);
                }
            }
        }
    }
    assert(bytes@.subrange(0, i as int) =~= bytes@);
    s
}

/// Appends the decimal form of `n` to `s`.
pub fn append_decimal(s: &mut String, n: u32)
    ensures
        final(s)@ == old(s)@ + decimal(n as nat),
    decreases n,
{
    if n >= 10 {
        append_decimal(s, n / 10);
    }
    s.append(lower_digit_str((n % 10) as u8));
    assert(s@ =~= old(s)@ + decimal(n as nat));
}

} // verus!
