//! Decimal text helpers: rendering small numbers as zero-padded or plain
//! decimal text and reading such text back, with exact character-level
//! specifications.

use vstd::prelude::*;

verus! {

/// The decimal digit character for `d`, for `d` in `[0, 9]`.
pub open spec fn spec_digit(d: int) -> char {
    if d == 0 {
        '0'
    } else if d == 1 {
        '1'
    } else if d == 2 {
        '2'
    } else if d == 3 {
        '3'
    } else if d == 4 {
        '4'
    } else if d == 5 {
        '5'
    } else if d == 6 {
        '6'
    } else if d == 7 {
        '7'
    } else if d == 8 {
        '8'
    } else {
        '9'
    }
}

/// The value of a decimal digit character, or `-1` for any other character.
pub open spec fn spec_digit_val(c: char) -> int {
    if c == '0' {
        0
    } else if c == '1' {
        1
    } else if c == '2' {
        2
    } else if c == '3' {
        3
    } else if c == '4' {
        4
    } else if c == '5' {
        5
    } else if c == '6' {
        6
    } else if c == '7' {
        7
    } else if c == '8' {
        8
    } else if c == '9' {
        9
    } else {
        -1
    }
}

/// Reading back the digit character of `d` yields `d` again.
pub proof fn lemma_digit_val_of_digit(d: int)
    requires
        0 <= d < 10,
    ensures
        spec_digit_val(spec_digit(d)) == d,
{
}

/// `n` rendered as exactly two decimal digits, zero-padded, for `n` in
/// `[0, 99]`.
pub open spec fn spec_two_digits(n: int) -> Seq<char> {
    seq![spec_digit(n / 10), spec_digit(n % 10)]
}

/// `n` rendered as plain decimal text without leading zeros (a single `0`
/// for zero), for `n >= 0`.
pub open spec fn spec_udec(n: int) -> Seq<char>
    recommends
        n >= 0,
    decreases n,
{
    if n < 10 {
        seq![spec_digit(n)]
    } else {
        spec_udec(n / 10).push(spec_digit(n % 10))
    }
}

/// The single-character string slice for the decimal digit `d`.
pub fn digit_str(d: u8) -> (r: &'static str)
    requires
        d < 10,
    ensures
        r@ == seq![spec_digit(d as int)],
{
    proof {
        reveal_strlit("0");
        reveal_strlit("1");
        reveal_strlit("2");
        reveal_strlit("3");
        reveal_strlit("4");
        reveal_strlit("5");
        reveal_strlit("6");
        reveal_strlit("7");
        reveal_strlit("8");
        reveal_strlit("9");
    }
    let r: &'static str = match d {
        0 => "0",
        1 => "1",
        2 => "2",
        3 => "3",
        4 => "4",
        5 => "5",
        6 => "6",
        7 => "7",
        8 => "8",
        _ => "9",
    };
    proof {
        assert(r@ =~= seq![spec_digit(d as int)]);
    }
    r
}

/// Renders `n` as exactly two zero-padded decimal digits.
pub fn two_digit_string(n: u8) -> (r: String)
    requires
        n < 100,
    ensures
        r@ == spec_two_digits(n as int),
{
    let mut s = String::new();
    s.append(digit_str(n / 10));
    s.append(digit_str(n % 10));
    proof {
        assert(s@ =~= spec_two_digits(n as int));
    }
    s
}

/// Renders `n` as plain decimal text without leading zeros.
pub fn u32_dec_string(n: u32) -> (r: String)
    ensures
        r@ == spec_udec(n as int),
    decreases n,
{
    if n < 10 {
        let mut s = String::new();
        s.append(digit_str(n as u8));
        proof {
            assert(s@ =~= spec_udec(n as int));
        }
        s
    } else {
        let mut s = u32_dec_string(n / 10);
        s.append(digit_str((n % 10) as u8));
        proof {
            assert(s@ =~= spec_udec(n as int));
        }
        s
    }
}

/// The value of the decimal digit character `c`, or `None` when `c` is no
/// digit.
pub fn digit_val(c: char) -> (r: Option<u8>)
    ensures
        match r {
            Some(d) => d < 10 && spec_digit_val(c) == d as int,
            None => spec_digit_val(c) == -1,
        },
{
    match c {
        '0' => Some(0),
        '1' => Some(1),
        '2' => Some(2),
        '3' => Some(3),
        '4' => Some(4),
        '5' => Some(5),
        '6' => Some(6),
        '7' => Some(7),
        '8' => Some(8),
        '9' => Some(9),
        _ => None,
    }
}

/// Whether every character of `s` is a decimal digit.
pub open spec fn spec_all_digits(s: Seq<char>) -> bool {
    forall|i: int| 0 <= i < s.len() ==> spec_digit_val(#[trigger] s[i]) >= 0
}

/// The numeric value of a sequence of decimal digit characters.
pub open spec fn spec_uint_val(s: Seq<char>) -> int
    decreases s.len(),
{
    if s.len() == 0 {
        0
    } else {
        spec_uint_val(s.drop_last()) * 10 + spec_digit_val(s.last())
    }
}

/// The value of all-digit text is never negative.
pub proof fn lemma_uint_val_nonneg(s: Seq<char>)
    requires
        spec_all_digits(s),
    ensures
        spec_uint_val(s) >= 0,
    decreases s.len(),
{
    if s.len() > 0 {
        assert(spec_all_digits(s.drop_last()));
        lemma_uint_val_nonneg(s.drop_last());
    }
}

/// Reads all-digit decimal text as an unsigned 16-bit number.  Returns
/// `None` when the text is empty, holds a non-digit, or names a value above
/// `u16::MAX`.
pub fn parse_u16(s: &str) -> (r: Option<u16>)
    ensures
        match r {
            Some(v) => s@.len() > 0 && spec_all_digits(s@) && spec_uint_val(s@) == v as int,
            None => s@.len() == 0 || !spec_all_digits(s@) || spec_uint_val(s@) > u16::MAX as int,
        },
{
    let n = s.unicode_len();
    if n == 0 {
        return None;
    }
    let mut acc: u32 = 0;
    let mut i: usize = 0;
    while i < n
        invariant
            0 < n == s@.len(),
            i <= n,
            spec_all_digits(s@.take(i as int)),
            acc as int == spec_uint_val(s@.take(i as int)),
            acc <= u16::MAX,
        decreases n - i,
    {
        let c = s.get_char(i);
        proof {
            assert(s@.take(i as int + 1).drop_last() =~= s@.take(i as int));
            assert(s@.take(i as int + 1).last() == s@[i as int]);
        }
        match digit_val(c) {
            Some(d) => {
                let next: u32 = acc * 10 + (d as u32);
                if next > u16::MAX as u32 {
                    proof {
                        if spec_all_digits(s@) {
                            lemma_uint_val_grows(s@, i as int + 1);
                        }
                    }
                    return None;
                }
                acc = next;
            },
            None => {
                return None;
            },
        }
        i += 1;
    }
    proof {
        assert(s@.take(n as int) =~= s@);
    }
    Some(acc as u16)
}

/// Extending all-digit text on the right never lowers its value: the value
/// of the first `k` characters bounds the value of any longer digit prefix
/// from below.
proof fn lemma_uint_val_grows(s: Seq<char>, k: int)
    requires
        0 <= k <= s.len(),
        spec_all_digits(s),
    ensures
        spec_uint_val(s) >= spec_uint_val(s.take(k)),
    decreases s.len() - k,
{
    if k < s.len() {
        lemma_uint_val_grows(s, k + 1);
        assert(s.take(k + 1).drop_last() =~= s.take(k));
        assert(spec_all_digits(s.take(k)));
        lemma_uint_val_nonneg(s.take(k));
        assert(spec_uint_val(s.take(k + 1)) == spec_uint_val(s.take(k)) * 10 + spec_digit_val(
            s.take(k + 1).last(),
        ));
        assert(spec_digit_val(s.take(k + 1).last()) >= 0);
        assert(spec_uint_val(s.take(k + 1)) >= spec_uint_val(s.take(k)));
    } else {
        assert(s.take(k) =~= s);
    }
}

/// Reading rendered decimal text back yields the number it came from:
/// the rendering of `n` is all digits and its value is `n`.
pub proof fn lemma_udec_roundtrip(n: int)
    requires
        n >= 0,
    ensures
        spec_all_digits(spec_udec(n)),
        spec_uint_val(spec_udec(n)) == n,
    decreases n,
{
    if n < 10 {
        lemma_digit_val_of_digit(n);
        assert(spec_uint_val(spec_udec(n).drop_last()) == 0) by {
            assert(spec_udec(n).drop_last() =~= Seq::<char>::empty());
        }
    } else {
        lemma_udec_roundtrip(n / 10);
        lemma_digit_val_of_digit(n % 10);
        assert(spec_udec(n).drop_last() =~= spec_udec(n / 10));
        assert(spec_udec(n).last() == spec_digit(n % 10));
    }
}

/// Reading rendered two-digit text back yields the number it came from.
pub proof fn lemma_two_digits_roundtrip(n: int)
    requires
        0 <= n < 100,
    ensures
        spec_digit_val(spec_two_digits(n)[0]) * 10 + spec_digit_val(spec_two_digits(n)[1]) == n,
{
    lemma_digit_val_of_digit(n / 10);
    lemma_digit_val_of_digit(n % 10);
}

} // verus!
