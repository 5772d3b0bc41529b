//! Decimal and hexadecimal renderings of integers, built by appending to a `String`.
use vstd::prelude::*;

verus! {

/// The character of a digit value below 16: `0`..`9`, then `a`..`f`.
pub open spec fn hex_char(d: nat) -> char {
    if d < 10 {
        (48 + d) as char
    } else {
        (87 + d) as char
    }
}

/// The decimal representation of `n`: most significant digit first, no leading zeros.
pub open spec fn decimal(n: nat) -> Seq<char>
    decreases n,
{
    if n < 10 {
        seq![hex_char(n)]
    } else {
        decimal(n / 10).push(hex_char(n % 10))
    }
}

/// The `width` least significant lowercase hexadecimal digits of `n`, most significant first.
pub open spec fn hex_digits(n: nat, width: nat) -> Seq<char>
    decreases width,
{
    if width == 0 {
        seq![]
    } else {
        hex_digits(n / 16, (width - 1) as nat).push(hex_char(n % 16))
    }
}

/// Whether `c` is a decimal digit.
pub open spec fn is_decimal_char(c: char) -> bool {
    '0' <= c <= '9'
}

/// Whether `c` is a lowercase hexadecimal digit.
pub open spec fn is_hex_char(c: char) -> bool {
    ('0' <= c <= '9') || ('a' <= c <= 'f')
}

/// 16 to the power `n`.
pub open spec fn pow16(n: nat) -> nat
    decreases n,
{
    if n == 0 {
        1
    } else {
        16 * pow16((n - 1) as nat)
    }
}

/// `hex_digits(n, width)` has exactly `width` characters, each a lowercase hexadecimal digit.
pub proof fn lemma_hex_digits_shape(n: nat, width: nat)
    ensures
        hex_digits(n, width).len() == width,
        forall|i: int| 0 <= i < width ==> is_hex_char(#[trigger] hex_digits(n, width)[i]),
    decreases width,
{
    if width > 0 {
        lemma_hex_digits_shape(n / 16, (width - 1) as nat);
        let prev = hex_digits(n / 16, (width - 1) as nat);
        assert forall|i: int| 0 <= i < width implies is_hex_char(#[trigger] hex_digits(n, width)[i]) by {
            if i < width - 1 {
                assert(hex_digits(n, width)[i] == prev[i]);
            }
        }
    }
}

/// Two numbers below `16^width` with the same `width`-digit hexadecimal rendering are equal.
pub proof fn lemma_hex_digits_injective(a: nat, b: nat, width: nat)
    requires
        a < pow16(width),
        b < pow16(width),
        hex_digits(a, width) == hex_digits(b, width),
    ensures
        a == b,
    decreases width,
{
    if width > 0 {
        let w1 = (width - 1) as nat;
        let p = pow16(w1);
        assert(a / 16 < p) by (nonlinear_arith)
            requires
                a < 16 * p,
        ;
        assert(b / 16 < p) by (nonlinear_arith)
            requires
                b < 16 * p,
        ;
        let sa = hex_digits(a, width);
        let sb = hex_digits(b, width);
        assert(sa.drop_last() == hex_digits(a / 16, w1));
        assert(sb.drop_last() == hex_digits(b / 16, w1));
        lemma_hex_digits_injective(a / 16, b / 16, w1);
        assert(sa.last() == hex_char(a % 16));
        assert(sb.last() == hex_char(b % 16));
        assert(a % 16 == b % 16);
    }
}

/// `decimal(n)` is non-empty, made of decimal digits, and longer than one digit exactly from 10 on.
pub proof fn lemma_decimal_shape(n: nat)
    ensures
        decimal(n).len() >= 1,
        n >= 10 ==> decimal(n).len() >= 2,
        forall|i: int| 0 <= i < decimal(n).len() ==> is_decimal_char(#[trigger] decimal(n)[i]),
    decreases n,
{
    if n >= 10 {
        lemma_decimal_shape(n / 10);
        let prev = decimal(n / 10);
        assert forall|i: int| 0 <= i < decimal(n).len() implies is_decimal_char(
            #[trigger] decimal(n)[i],
        ) by {
            if i < decimal(n).len() - 1 {
                assert(decimal(n)[i] == prev[i]);
            }
        }
    }
}

/// Different numbers have different decimal representations.
pub proof fn lemma_decimal_injective(a: nat, b: nat)
    requires
        decimal(a) == decimal(b),
    ensures
        a == b,
    decreases a,
{
    lemma_decimal_shape(a);
    lemma_decimal_shape(b);
    if a >= 10 && b >= 10 {
        assert(decimal(a).drop_last() == decimal(a / 10));
        assert(decimal(b).drop_last() == decimal(b / 10));
        lemma_decimal_injective(a / 10, b / 10);
        assert(decimal(a).last() == hex_char(a % 10));
        assert(decimal(b).last() == hex_char(b % 10));
    } else if a < 10 && b < 10 {
        assert(decimal(a)[0] == hex_char(a));
        assert(decimal(b)[0] == hex_char(b));
    }
}

/// The value of a decimal or lowercase hexadecimal digit character.
pub open spec fn digit_value(c: char) -> int {
    if '0' <= c <= '9' {
        (c as int) - 48
    } else {
        (c as int) - 87
    }
}

/// The number that a string of digits denotes in base `base`, most significant digit first.
pub open spec fn digits_value(s: Seq<char>, base: int) -> int
    decreases s.len(),
{
    if s.len() == 0 {
        0
    } else {
        digits_value(s.drop_last(), base) * base + digit_value(s.last())
    }
}

/// `decimal(n)` denotes `n` in base ten, is made of decimal digits, and has no
/// leading zero: it starts with `0` only when it is `0` itself.
pub proof fn lemma_decimal_denotes(n: nat)
    ensures
        digits_value(decimal(n), 10) == n,
        forall|i: int| 0 <= i < decimal(n).len() ==> '0' <= #[trigger] decimal(n)[i] <= '9',
        decimal(n)[0] == '0' ==> decimal(n) == seq!['0'],
    decreases n,
{
    lemma_decimal_shape(n);
    let c = hex_char(n % 10);
    assert(digit_value(c) == n % 10);
    if n >= 10 {
        lemma_decimal_denotes(n / 10);
        assert(decimal(n).drop_last() == decimal(n / 10));
        assert(decimal(n).last() == c);
        assert(decimal(n)[0] == decimal(n / 10)[0]);
        assert(digits_value(decimal(n), 10) == digits_value(decimal(n / 10), 10) * 10 + digit_value(
            c,
        ));
        assert(n == (n / 10) * 10 + n % 10);
        if decimal(n)[0] == '0' {
            let z = seq!['0'];
            assert(z.drop_last() =~= Seq::<char>::empty());
            assert(digits_value(Seq::<char>::empty(), 10) == 0);
            assert(digit_value('0') == 0);
            assert(digits_value(z, 10) == digits_value(z.drop_last(), 10) * 10 + digit_value(z.last()));
            assert(digits_value(z, 10) == 0);
        }
    } else {
        assert(decimal(n).drop_last() =~= Seq::<char>::empty());
        assert(decimal(n).last() == c);
        assert(digits_value(Seq::<char>::empty(), 10) == 0);
        assert(digits_value(decimal(n), 10) == digits_value(decimal(n).drop_last(), 10) * 10
            + digit_value(decimal(n).last()));
    }
}

/// For `n` below `16^width`, `hex_digits(n, width)` is `width` lowercase
/// hexadecimal digits that denote `n` in base sixteen, zero-padded on the left.
pub proof fn lemma_hex_digits_denote(n: nat, width: nat)
    requires
        n < pow16(width),
    ensures
        hex_digits(n, width).len() == width,
        digits_value(hex_digits(n, width), 16) == n,
        forall|i: int|
            0 <= i < width ==> ('0' <= #[trigger] hex_digits(n, width)[i] <= '9' || 'a'
                <= hex_digits(n, width)[i] <= 'f'),
    decreases width,
{
    lemma_hex_digits_shape(n, width);
    if width > 0 {
        let w1 = (width - 1) as nat;
        let p = pow16(w1);
        assert(n / 16 < p) by (nonlinear_arith)
            requires
                n < 16 * p,
        ;
        lemma_hex_digits_denote(n / 16, w1);
        assert(hex_digits(n, width).drop_last() == hex_digits(n / 16, w1));
    } else {
        assert(n == 0);
    }
}

/// A 64-bit number in 16 hexadecimal digits: nothing is cut off.
pub proof fn lemma_hex16_denotes(n: u64)
    ensures
        hex_digits(n as nat, 16).len() == 16,
        digits_value(hex_digits(n as nat, 16), 16) == n,
{
    assert(pow16(16) == 0x1_0000_0000_0000_0000nat) by {
        reveal_with_fuel(pow16, 17);
    }
    lemma_hex_digits_denote(n as nat, 16);
}

/// The one-character string of a digit value below 16.
fn digit_str(d: u8) -> (s: &'static str)
    requires
        d < 16,
    ensures
        s@ == seq![hex_char(d as nat)],
{
    match d {
        0 => {
            proof {
                reveal_strlit("0");
            }
            "0"
        },
        1 => {
            proof {
                reveal_strlit("1");
            }
            "1"
        },
        2 => {
            proof {
                reveal_strlit("2");
            }
            "2"
        },
        3 => {
            proof {
                reveal_strlit("3");
            }
            "3"
        },
        4 => {
            proof {
                reveal_strlit("4");
            }
            "4"
        },
        5 => {
            proof {
                reveal_strlit("5");
            }
            "5"
        },
        6 => {
            proof {
                reveal_strlit("6");
            }
            "6"
        },
        7 => {
            proof {
                reveal_strlit("7");
            }
            "7"
        },
        8 => {
            proof {
                reveal_strlit("8");
            }
            "8"
        },
        9 => {
            proof {
                reveal_strlit("9");
            }
            "9"
        },
        10 => {
            proof {
                reveal_strlit("a");
            }
            "a"
        },
        11 => {
            proof {
                reveal_strlit("b");
            }
            "b"
        },
        12 => {
            proof {
                reveal_strlit("c");
            }
            "c"
        },
        13 => {
            proof {
                reveal_strlit("d");
            }
            "d"
        },
        14 => {
            proof {
                reveal_strlit("e");
            }
            "e"
        },
        _ => {
            proof {
                reveal_strlit("f");
            }
            "f"
        },
    }
}

/// Appends the decimal representation of `n` to `s`.
pub fn append_decimal(s: &mut String, n: u8)
    ensures
        final(s)@ == old(s)@ + decimal(n as nat),
    decreases n,
{
    if n >= 10 {
        append_decimal(s, n / 10);
    }
    s.append(digit_str(n % 10));
}

/// Appends the `width` least significant hexadecimal digits of `n` to `s`.
pub fn append_hex(s: &mut String, n: u64, width: u8)
    ensures
        final(s)@ == old(s)@ + hex_digits(n as nat, width as nat),
    decreases width,
{
    if width > 0 {
        append_hex(s, n / 16, width - 1);
        let d: u8 = (n % 16) as u8;
        s.append(digit_str(d));
    }
}

} // verus!
