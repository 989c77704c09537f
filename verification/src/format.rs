//! Rendering of line numbers into a fixed-width field.

use vstd::prelude::*;

verus! {

/// Justification rule for the rendered number inside its field.
#[derive(Clone, Copy)]
pub enum NumberFormat {
    /// Number text left-aligned, padded with trailing spaces.
    Left,
    /// Number text right-aligned, padded with leading spaces.
    Right,
    /// Number text right-aligned, padded with leading zeros after the sign.
    RightZero,
}

/// The decimal digit character for a value in `0..10`.
pub open spec fn spec_digit_char(d: int) -> char {
    if d == 0 {
        '0'
    } else if d == 1 {
        '1'
    } else if d == 2 {
        '2'
    } else if d == 3 {
        '3'
    } else if d == 4 {
        '4'
    } else if d == 5 {
        '5'
    } else if d == 6 {
        '6'
    } else if d == 7 {
        '7'
    } else if d == 8 {
        '8'
    } else {
        '9'
    }
}

/// The decimal digits of a non-negative integer, most significant first,
/// with no sign and no leading zeros (except for the single digit of 0).
pub open spec fn spec_digits(n: nat) -> Seq<char>
    decreases n,
{
    if n < 10 {
        seq![spec_digit_char(n as int)]
    } else {
        spec_digits(n / 10) + seq![spec_digit_char((n % 10) as int)]
    }
}

/// The natural decimal text of an integer: a leading minus sign when
/// negative, followed by the digits of its magnitude.
pub open spec fn spec_decimal(n: int) -> Seq<char> {
    if n < 0 {
        seq!['-'] + spec_digits((-n) as nat)
    } else {
        spec_digits(n as nat)
    }
}

/// `n` copies of the character `c`.
pub open spec fn spec_repeat(c: char, n: nat) -> Seq<char> {
    Seq::new(n, |i: int| c)
}

/// The rendered number: the decimal text of `n`, padded to `width`
/// according to `format`. When the decimal text is already at least
/// `width` characters, the field grows to fit it unchanged.
pub open spec fn spec_render(n: int, width: nat, format: NumberFormat) -> Seq<char> {
    let d = spec_decimal(n);
    if d.len() >= width {
        d
    } else {
        let pad = (width - d.len()) as nat;
        match format {
            NumberFormat::Left => d + spec_repeat(' ', pad),
            NumberFormat::Right => spec_repeat(' ', pad) + d,
            NumberFormat::RightZero => {
                if n < 0 {
                    seq!['-'] + spec_repeat('0', pad) + spec_digits((-n) as nat)
                } else {
                    spec_repeat('0', pad) + d
                }
            },
        }
    }
}

/// The magnitude of an `i64`, as the exact absolute value.
fn magnitude(num: i64) -> (r: u64)
    ensures
        r == if num < 0 {
            -(num as int)
        } else {
            num as int
        },
{
    if num >= 0 {
        num as u64
    } else {
        let p: i64 = -(num + 1);
        (p as u64) + 1
    }
}

/// A one-character string slice holding the decimal digit `d`.
fn digit_str(d: u64) -> (r: &'static str)
    requires
        d < 10,
    ensures
        r@ =~= seq![spec_digit_char(d as int)],
{
    proof {
        reveal_strlit("0");
        reveal_strlit("1");
        reveal_strlit("2");
        reveal_strlit("3");
        reveal_strlit("4");
        reveal_strlit("5");
        reveal_strlit("6");
        reveal_strlit("7");
        reveal_strlit("8");
        reveal_strlit("9");
    }
    if d == 0 {
        "0"
    } else if d == 1 {
        "1"
    } else if d == 2 {
        "2"
    } else if d == 3 {
        "3"
    } else if d == 4 {
        "4"
    } else if d == 5 {
        "5"
    } else if d == 6 {
        "6"
    } else if d == 7 {
        "7"
    } else if d == 8 {
        "8"
    } else {
        "9"
    }
}

/// The decimal digits of `n`, most significant first.
fn digits_string(n: u64) -> (r: String)
    ensures
        r@ == spec_digits(n as nat),
    decreases n,
{
    if n < 10 {
        let r = String::from_str(digit_str(n));
        assert(r@ =~= spec_digits(n as nat));
        r
    } else {
        let mut s = digits_string(n / 10);
        s.append(digit_str(n % 10));
        assert(s@ =~= spec_digits(n as nat));
        s
    }
}

/// `n` copies of the character `c`, as a string.
pub(crate) fn repeat_str(c: char, n: usize) -> (r: String)
    ensures
        r@ == spec_repeat(c, n as nat),
{
    let mut s = String::new();
    let mut i: usize = 0;
    while i < n
        invariant
            i <= n,
            s@ == spec_repeat(c, i as nat),
        decreases n - i,
    {
        push_char(&mut s, c);
        i = i + 1;
        assert(s@ =~= spec_repeat(c, i as nat));
    }
    s
}

/// Relies on `String::push`: appends exactly the one character to the end.
#[verifier::external_body]
pub(crate) fn push_char(s: &mut String, c: char)
    ensures
        final(s)@ == old(s)@.push(c),
{
    s.push(c);
}

/// Every `u64` has at most 20 decimal digits.
proof fn lemma_digits_len_bound(n: nat)
    requires
        n <= u64::MAX,
    ensures
        1 <= spec_digits(n).len() <= 20,
{
    assert(n < spec_pow10(20)) by {
        reveal_with_fuel(spec_pow10, 21);
    }
    lemma_digits_len_below(n, 20);
}

/// A value below `10^k` has at most `k` decimal digits.
proof fn lemma_digits_len_below(n: nat, k: nat)
    requires
        k >= 1,
        n < spec_pow10(k),
    ensures
        1 <= spec_digits(n).len() <= k,
    decreases k,
{
    if n < 10 {
    } else {
        assert(spec_pow10(k) == 10 * spec_pow10((k - 1) as nat));
        assert(n / 10 < spec_pow10((k - 1) as nat)) by {
            if n / 10 >= spec_pow10((k - 1) as nat) {
                assert(n >= 10 * (n / 10));
                vstd::arithmetic::mul::lemma_mul_inequality(
                    spec_pow10((k - 1) as nat) as int,
                    (n / 10) as int,
                    10,
                );
            }
        }
        lemma_digits_len_below(n / 10, (k - 1) as nat);
    }
}

/// `10^k`.
pub open spec fn spec_pow10(k: nat) -> nat
    decreases k,
{
    if k == 0 {
        1
    } else {
        10 * spec_pow10((k - 1) as nat)
    }
}

/// Renders `num` into a field of `width` characters under `format`,
/// growing the field when the decimal text is longer than `width`.
pub fn format_number(num: i64, width: usize, format: NumberFormat) -> (r: String)
    ensures
        r@ == spec_render(num as int, width as nat, format),
{
    let neg = num < 0;
    let mag = magnitude(num);
    let body = digits_string(mag);
    proof {
        lemma_digits_len_bound(mag as nat);
        if neg {
            assert(spec_decimal(num as int) == seq!['-'] + spec_digits(mag as nat));
        } else {
            assert(spec_decimal(num as int) == spec_digits(mag as nat));
        }
    }
    let blen = body.as_str().unicode_len();
    let dlen = if neg {
        blen + 1
    } else {
        blen
    };
    assert(dlen == spec_decimal(num as int).len());
    if dlen >= width {
        if neg {
            let r = String::from_str("-").concat(body.as_str());
            proof {
                reveal_strlit("-");
                assert(r@ =~= spec_decimal(num as int));
            }
            r
        } else {
            body
        }
    } else {
        let pad = width - dlen;
        match format {
            NumberFormat::Left => {
                let mut d = if neg {
                    String::from_str("-").concat(body.as_str())
                } else {
                    body
                };
                d.append(repeat_str(' ', pad).as_str());
                proof {
                    reveal_strlit("-");
                    assert(d@ =~= spec_render(num as int, width as nat, format));
                }
                d
            },
            NumberFormat::Right => {
                let mut d = repeat_str(' ', pad);
                if neg {
                    d.append("-");
                }
                d.append(body.as_str());
                proof {
                    reveal_strlit("-");
                    assert(d@ =~= spec_render(num as int, width as nat, format));
                }
                d
            },
            NumberFormat::RightZero => {
                let mut d = if neg {
                    String::from_str("-")
                } else {
                    String::new()
                };
                d.append(repeat_str('0', pad).as_str());
                d.append(body.as_str());
                proof {
                    reveal_strlit("-");
                    assert(d@ =~= spec_render(num as int, width as nat, format));
                }
                d
            },
        }
    }
}

} // verus!
