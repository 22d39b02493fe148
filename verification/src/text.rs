//! Number formatting for the messages the library builds: plain decimal, and
//! zero-padded hexadecimal of a fixed width.

use vstd::prelude::*;

verus! {

/// The character for digit `d` (below 16), lower- or upper-case for the letters.
pub open spec fn digit_char(d: int, upper: bool) -> char {
    if d < 10 {
        (48 + d) as char
    } else if upper {
        (55 + d) as char
    } else {
        (87 + d) as char
    }
}

/// `n` written in decimal, without leading zeros (`0` is written `"0"`).
pub open spec fn decimal(n: nat) -> Seq<char>
    decreases n,
{
    if n < 10 {
        seq![digit_char(n as int, false)]
    } else {
        decimal(n / 10).push(digit_char((n % 10) as int, false))
    }
}

/// The last `width` hexadecimal digits of `n`, zero-padded, most significant first.
pub open spec fn hex_digits(n: nat, width: nat, upper: bool) -> Seq<char>
    decreases width,
{
    if width == 0 {
        seq![]
    } else {
        hex_digits(n / 16, (width - 1) as nat, upper).push(digit_char((n % 16) as int, upper))
    }
}

/// Appends the single digit `d`.
fn push_digit(out: &mut String, d: u64, upper: bool)
    requires
        d < 16,
    ensures
        final(out)@ == old(out)@.push(digit_char(d as int, upper)),
{
    let table = if upper {
        "0123456789ABCDEF"
    } else {
        "0123456789abcdef"
    };
    proof {
        reveal_strlit("0123456789ABCDEF");
        reveal_strlit("0123456789abcdef");
    }
    let i = d as usize;
    let one = table.substring_char(i, i + 1);
    assert(one@ =~= seq![digit_char(d as int, upper)]);
    out.append(one);
}

/// Appends `n` in decimal.
pub fn push_decimal(out: &mut String, n: u64)
    ensures
        final(out)@ == old(out)@ + decimal(n as nat),
    decreases n,
{
    if n >= 10 {
        push_decimal(out, n / 10);
    }
    push_digit(out, n % 10, false);
    assert(decimal(n as nat) == if n < 10 {
        seq![digit_char(n as int, false)]
    } else {
        decimal((n / 10) as nat).push(digit_char((n % 10) as int, false))
    });
}

/// Appends the last `width` hexadecimal digits of `n`, zero-padded.
pub fn push_hex(out: &mut String, n: u64, width: u32, upper: bool)
    ensures
        final(out)@ == old(out)@ + hex_digits(n as nat, width as nat, upper),
    decreases width,
{
    if width > 0 {
        push_hex(out, n / 16, width - 1, upper);
        push_digit(out, n % 16, upper);
        assert(hex_digits(n as nat, width as nat, upper) == hex_digits(
            (n / 16) as nat,
            (width - 1) as nat,
            upper,
        ).push(digit_char((n % 16) as int, upper)));
    }
}

/// A decimal numeral is non-empty and made of the digits `0` to `9`.
pub proof fn lemma_decimal_is_digits(n: nat)
    ensures
        decimal(n).len() >= 1,
        forall|i: int| 0 <= i < decimal(n).len() ==> '0' <= #[trigger] decimal(n)[i] <= '9',
    decreases n,
{
    if n >= 10 {
        lemma_decimal_is_digits(n / 10);
    }
}

} // verus!
