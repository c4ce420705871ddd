//! Decimal numbers as text: what counts as one, and its value.

use vstd::prelude::*;

verus! {

/// `c` is one of `0` to `9`.
pub open spec fn is_digit(c: char) -> bool {
    '0' <= c <= '9'
}

/// The value of the digit `c`.
pub open spec fn digit_value(c: char) -> int {
    c as int - '0' as int
}

/// `s` holds digits only.
pub open spec fn all_digits(s: Seq<char>) -> bool {
    forall|i: int| 0 <= i < s.len() ==> is_digit(#[trigger] s[i])
}

/// The number that the digits `s` write in base ten.
pub open spec fn decimal(s: Seq<char>) -> nat
    decreases s.len(),
{
    if s.len() == 0 {
        0
    } else {
        (decimal(s.drop_last()) * 10 + digit_value(s.last())) as nat
    }
}

/// `s` without a plus sign at its front.
pub open spec fn unsigned_part(s: Seq<char>) -> Seq<char> {
    if s.len() > 0 && s[0] == '+' {
        s.skip(1)
    } else {
        s
    }
}

/// The index that `s` writes: digits, at least one, with a plus sign before
/// them or not, whose value fits a `usize`.
pub open spec fn parse_usize_spec(s: Seq<char>) -> Option<usize> {
    let d = unsigned_part(s);
    if d.len() > 0 && all_digits(d) && decimal(d) <= usize::MAX {
        Some(decimal(d) as usize)
    } else {
        None
    }
}

/// More digits never write a smaller number.
pub proof fn lemma_decimal_grows(s: Seq<char>, k: int)
    requires
        all_digits(s),
        0 <= k <= s.len(),
    ensures
        decimal(s.subrange(0, k)) <= decimal(s),
    decreases s.len() - k,
{
    if k == s.len() {
        assert(s.subrange(0, k) =~= s);
    } else {
        lemma_decimal_grows(s, k + 1);
        let longer = s.subrange(0, k + 1);
        assert(longer.drop_last() =~= s.subrange(0, k));
        assert(is_digit(s[k]));
        assert(longer.last() == s[k]);
    }
}

/// The value of the digits `v[from..]`, where they are digits, at least
/// one, and the value is `limit` at most.
pub fn parse_digits(v: &Vec<char>, from: usize, limit: u64) -> (r: Option<u64>)
    requires
        from <= v.len(),
    ensures
        r == ({
            let d = v@.skip(from as int);
            if d.len() > 0 && all_digits(d) && decimal(d) <= limit {
                Some(decimal(d) as u64)
            } else {
                None
            }
        }),
{
    let ghost d = v@.skip(from as int);
    if from == v.len() {
        return None;
    }
    let mut acc: u64 = 0;
    let mut i: usize = from;
    while i < v.len()
        invariant
            from <= i <= v.len(),
            d == v@.skip(from as int),
            all_digits(d.subrange(0, i - from)),
            acc == decimal(d.subrange(0, i - from)),
            acc <= limit,
        decreases v.len() - i,
    {
        let c = v[i];
        assert(d[i - from] == c);
        if !(c >= '0' && c <= '9') {
            return None;
        }
        let digit = (c as u32 - '0' as u32) as u64;
        let ghost longer = d.subrange(0, i - from + 1);
        proof {
            assert(longer.drop_last() =~= d.subrange(0, i - from));
            assert(longer.last() == c);
            assert(all_digits(longer)) by {
                assert forall|j: int| 0 <= j < longer.len() implies is_digit(
                    #[trigger] longer[j],
                ) by {
                    if j < i - from {
                        assert(d.subrange(0, i - from)[j] == longer[j]);
                    }
                }
            }
        }
        if limit < digit || acc > (limit - digit) / 10 {
            proof {
                if all_digits(d) {
                    lemma_decimal_grows(d, i - from + 1);
                }
            }
            return None;
        }
        acc = acc * 10 + digit;
        i = i + 1;
    }
    assert(d.subrange(0, i - from) =~= d);
    Some(acc)
}

/// The index that the text `v` writes, if it writes one.
pub fn parse_usize(v: &Vec<char>) -> (r: Option<usize>)
    ensures
        r == parse_usize_spec(v@),
{
    let from: usize = if v.len() > 0 && v[0] == '+' {
        1
    } else {
        0
    };
    assert(v@.skip(0) =~= v@);
    match parse_digits(v, from, usize::MAX as u64) {
        Some(n) => Some(n as usize),
        None => None,
    }
}

/// The integer that `s` writes: digits, at least one, with a sign before
/// them or not, whose value fits an `i64`.
pub open spec fn parse_i64_spec(s: Seq<char>) -> Option<i64> {
    if s.len() > 0 && s[0] == '-' {
        let d = s.skip(1);
        if d.len() > 0 && all_digits(d) && decimal(d) <= -(i64::MIN as int) {
            Some((-(decimal(d) as int)) as i64)
        } else {
            None
        }
    } else {
        let d = unsigned_part(s);
        if d.len() > 0 && all_digits(d) && decimal(d) <= i64::MAX {
            Some(decimal(d) as i64)
        } else {
            None
        }
    }
}

/// The integer that the text `v` writes, if it writes one.
pub fn parse_i64(v: &Vec<char>) -> (r: Option<i64>)
    ensures
        r == parse_i64_spec(v@),
{
    if v.len() > 0 && v[0] == '-' {
        match parse_digits(v, 1, 0x8000_0000_0000_0000u64) {
            Some(n) => {
                if n == 0x8000_0000_0000_0000u64 {
                    Some(i64::MIN)
                } else {
                    Some(-(n as i64))
                }
            },
            None => None,
        }
    } else {
        let from: usize = if v.len() > 0 && v[0] == '+' {
            1
        } else {
            0
        };
        assert(v@.skip(0) =~= v@);
        match parse_digits(v, from, 0x7fff_ffff_ffff_ffffu64) {
            Some(n) => Some(n as i64),
            None => None,
        }
    }
}

/// The digit that writes `d`, for `0 <= d <= 9`.
pub open spec fn digit_char(d: int) -> char {
    if d == 0 {
        '0'
    } else if d == 1 {
        '1'
    } else if d == 2 {
        '2'
    } else if d == 3 {
        '3'
    } else if d == 4 {
        '4'
    } else if d == 5 {
        '5'
    } else if d == 6 {
        '6'
    } else if d == 7 {
        '7'
    } else if d == 8 {
        '8'
    } else {
        '9'
    }
}

/// The digits that write `n` in base ten, without a zero at the front.
pub open spec fn decimal_text(n: nat) -> Seq<char>
    decreases n,
{
    if n < 10 {
        seq![digit_char(n as int)]
    } else {
        decimal_text(n / 10).push(digit_char((n % 10) as int))
    }
}

/// The text that writes the integer `x`: its digits, behind a minus sign
/// where it is negative.
pub open spec fn integer_text(x: int) -> Seq<char> {
    if x < 0 {
        seq!['-'] + decimal_text((-x) as nat)
    } else {
        decimal_text(x as nat)
    }
}

/// The digits of a number are digits, and write that number.
pub proof fn lemma_decimal_text(n: nat)
    ensures
        decimal_text(n).len() > 0,
        all_digits(decimal_text(n)),
        decimal(decimal_text(n)) == n,
    decreases n,
{
    if n < 10 {
        let s = decimal_text(n);
        assert(s.drop_last() =~= Seq::<char>::empty());
        assert(decimal(s.drop_last()) == 0);
    } else {
        lemma_decimal_text(n / 10);
        let s = decimal_text(n);
        assert(s.drop_last() =~= decimal_text(n / 10));
    }
}

/// Reading the text of an integer gives the integer back.
pub proof fn lemma_integer_text_round_trip(x: i64)
    ensures
        parse_i64_spec(integer_text(x as int)) == Some(x),
{
    let s = integer_text(x as int);
    if x < 0 {
        lemma_decimal_text((-x) as nat);
        assert(s.skip(1) =~= decimal_text((-x) as nat));
    } else {
        lemma_decimal_text(x as nat);
        assert(is_digit(s[0]));
    }
}

/// The digit that writes `d`.
fn digit_of(d: u64) -> (c: char)
    requires
        d < 10,
    ensures
        c == digit_char(d as int),
{
    if d == 0 {
        '0'
    } else if d == 1 {
        '1'
    } else if d == 2 {
        '2'
    } else if d == 3 {
        '3'
    } else if d == 4 {
        '4'
    } else if d == 5 {
        '5'
    } else if d == 6 {
        '6'
    } else if d == 7 {
        '7'
    } else if d == 8 {
        '8'
    } else {
        '9'
    }
}

/// Appends the digits of `n` to `out`.
fn push_decimal(n: u64, out: &mut Vec<char>)
    ensures
        final(out)@ == old(out)@ + decimal_text(n as nat),
    decreases n,
{
    if n < 10 {
        out.push(digit_of(n));
        assert(out@ =~= old(out)@ + decimal_text(n as nat));
    } else {
        push_decimal(n / 10, out);
        out.push(digit_of(n % 10));
        assert(out@ =~= old(out)@ + decimal_text(n as nat));
    }
}

/// The characters that write the integer `x`.
pub fn integer_chars(x: i64) -> (r: Vec<char>)
    ensures
        r@ == integer_text(x as int),
{
    let mut out: Vec<char> = Vec::new();
    if x < 0 {
        out.push('-');
        let magnitude: u64 = if x == i64::MIN {
            0x8000_0000_0000_0000u64
        } else {
            (-x) as u64
        };
        push_decimal(magnitude, &mut out);
        assert(out@ =~= integer_text(x as int));
    } else {
        push_decimal(x as u64, &mut out);
        assert(out@ =~= integer_text(x as int));
    }
    out
}

} // verus!
