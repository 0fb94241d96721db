//! Decimal text of integers, in both directions, as the host writes and reads it.
use vstd::prelude::*;
use vstd::string::StringSliceAdditionalSpecFns;

verus! {

/// The ASCII digit for `d` (which is below ten).
pub open spec fn digit_byte(d: nat) -> u8 {
    (d + 48) as u8
}

/// The decimal digits of `n`, most significant first, without leading zeros.
pub open spec fn digits(n: nat) -> Seq<u8>
    decreases n,
{
    if n < 10 {
        seq![digit_byte(n)]
    } else {
        digits(n / 10).push(digit_byte(n % 10))
    }
}

/// The decimal text of `v`: a minus sign before the digits of a negative value.
pub open spec fn decimal_text(v: int) -> Seq<u8> {
    if v < 0 {
        seq![45u8] + digits((-v) as nat)
    } else {
        digits(v as nat)
    }
}

/// Appends the digits of `n` to `out`.
pub fn push_digits(n: u128, out: &mut Vec<u8>)
    ensures
        final(out)@ == old(out)@ + digits(n as nat),
    decreases n,
{
    if n >= 10 {
        push_digits(n / 10, out);
    }
    out.push((n % 10) as u8 + 48);
    proof {
        assert(old(out)@ + digits(n as nat) =~= final(out)@) by {
            if n >= 10 {
                assert(digits(n as nat) == digits((n / 10) as nat).push(digit_byte((n % 10) as nat)));
            }
        }
    }
}


/// A decimal text starts with a digit or a minus sign.
pub proof fn lemma_decimal_text_first(v: int)
    ensures
        decimal_text(v).len() > 0,
        decimal_text(v)[0] == 45 || 48 <= decimal_text(v)[0] <= 57,
{
    if v < 0 {
        lemma_digits_first((-v) as nat);
    } else {
        lemma_digits_first(v as nat);
    }
}

proof fn lemma_digits_first(n: nat)
    ensures
        digits(n).len() > 0,
        48 <= digits(n)[0] <= 57,
    decreases n,
{
    if n >= 10 {
        lemma_digits_first(n / 10);
    }
}

/// The decimal text of an unsigned value.
pub fn unsigned_text(v: u128) -> (r: Vec<u8>)
    ensures
        r@ == decimal_text(v as int),
{
    let mut out: Vec<u8> = Vec::new();
    push_digits(v, &mut out);
    proof {
        assert(out@ =~= digits(v as nat));
    }
    out
}

/// The decimal text of a signed value.
pub fn signed_text(v: i128) -> (r: Vec<u8>)
    ensures
        r@ == decimal_text(v as int),
{
    let mut out: Vec<u8> = Vec::new();
    if v < 0 {
        out.push(45);
        let m: u128 = (-(v + 1)) as u128 + 1;
        push_digits(m, &mut out);
        proof {
            assert(out@ =~= seq![45u8] + digits((-v) as nat));
        }
    } else {
        push_digits(v as u128, &mut out);
        proof {
            assert(out@ =~= digits(v as nat));
        }
    }
    out
}

/// Whether `c` is one of the ASCII digits.
pub open spec fn is_digit(c: char) -> bool {
    '0' <= c && c <= '9'
}

/// A text of one or more ASCII digits.
pub open spec fn all_digits(s: Seq<char>) -> bool {
    s.len() > 0 && forall|i: int| 0 <= i < s.len() ==> is_digit(#[trigger] s[i])
}

/// The value of a run of ASCII digits read in base ten.
pub open spec fn digits_value(s: Seq<char>) -> nat
    decreases s.len(),
{
    if s.len() == 0 {
        0
    } else {
        digits_value(s.drop_last()) * 10 + ((s.last() as int - '0' as int) as nat)
    }
}

/// The integer that `s` writes in the grammar of the standard library's integer parsing:
/// an optional `+` sign (or `-`, where `signed`), then one or more ASCII digits, nothing else.
pub open spec fn decimal_value(s: Seq<char>, signed: bool) -> Option<int> {
    if s.len() > 0 && s[0] == '+' {
        if all_digits(s.drop_first()) {
            Some(digits_value(s.drop_first()) as int)
        } else {
            None
        }
    } else if signed && s.len() > 0 && s[0] == '-' {
        if all_digits(s.drop_first()) {
            Some(-(digits_value(s.drop_first()) as int))
        } else {
            None
        }
    } else if all_digits(s) {
        Some(digits_value(s) as int)
    } else {
        None
    }
}

/// The magnitude of the value that `s` writes, if it writes one.
pub open spec fn magnitude(v: Option<int>) -> int {
    match v {
        Some(x) => if x < 0 { -x } else { x },
        None => 0,
    }
}

proof fn lemma_digits_value_grows(s: Seq<char>, k: int)
    requires
        0 <= k <= s.len(),
    ensures
        digits_value(s.subrange(0, k)) <= digits_value(s),
    decreases s.len() - k,
{
    if k < s.len() {
        lemma_digits_value_grows(s, k + 1);
        let t = s.subrange(0, k + 1);
        assert(t.drop_last() =~= s.subrange(0, k));
    } else {
        assert(s.subrange(0, k) =~= s);
    }
}

/// Reads `s` in the grammar of `decimal_value`, as a sign and a magnitude.
/// `None` where `s` writes no integer, or one whose magnitude exceeds `u128::MAX`.
pub fn parse_decimal(s: &str, signed: bool) -> (r: Option<(bool, u128)>)
    ensures
        r matches Some((neg, m)) ==> decimal_value(s@, signed) == Some(
            if neg { -(m as int) } else { m as int },
        ),
        r matches Some((neg, m)) ==> (neg ==> signed),
        r is None ==> decimal_value(s@, signed) is None || magnitude(decimal_value(s@, signed))
            > u128::MAX,
{
    broadcast use vstd::string::is_ascii_spec_bytes, vstd::utf8::is_ascii_chars_encode_utf8,
        vstd::utf8::is_ascii_chars_nat_bound;

    if !s.is_ascii() {
        proof {
            let i = choose|i: int| 0 <= i < s@.len() && !('\0' <= #[trigger] s@[i] <= '\u{7f}');
            assert(!is_digit(s@[i]) && s@[i] != '+' && s@[i] != '-');
            if i > 0 {
                assert(s@.drop_first()[i - 1] == s@[i]);
            }
        }
        return None;
    }
    let b = s.as_bytes();
    let n = b.len();
    if n == 0 {
        return None;
    }
    let mut start: usize = 0;
    let mut neg = false;
    if b[0] == 43 {
        start = 1;
    } else if signed && b[0] == 45 {
        start = 1;
        neg = true;
    }
    proof {
        assert(s@.len() == n);
        lemma_ascii_byte(s@[0], b@[0]);
    }
    if start == n {
        return None;
    }
    let mut acc: u128 = 0;
    let mut i: usize = start;
    while i < n
        invariant
            start <= i <= n,
            start <= 1,
            0 < n,
            start == 1 <==> (s@[0] == '+' || (signed && s@[0] == '-')),
            neg <==> (signed && s@[0] == '-'),
            n == b@.len(),
            n == s@.len(),
            b@ == s.spec_bytes(),
            s.is_ascii(),
            acc as int == digits_value(s@.subrange(start as int, i as int)),
            forall|j: int| start <= j < i ==> is_digit(#[trigger] s@[j]),
        decreases n - i,
    {
        let c = b[i];
        proof {
            lemma_ascii_byte(s@[i as int], c);
        }
        if c < 48 || c > 57 {
            proof {
                assert(!is_digit(s@[i as int]));
                lemma_decimal_shape(s@, signed, start as int, i as int);
            }
            return None;
        }
        let d = (c - 48) as u128;
        let ghost before = s@.subrange(start as int, i as int);
        let ghost after = s@.subrange(start as int, i + 1);
        proof {
            assert(after.drop_last() =~= before);
        }
        if acc > (u128::MAX - d) / 10 {
            proof {
                assert(acc * 10 + d > u128::MAX) by (nonlinear_arith)
                    requires
                        acc > (u128::MAX - d) / 10,
                        d <= 9,
                ;
                assert(is_digit(s@[i as int]));
                lemma_digits_value_grows(s@.subrange(start as int, n as int), i + 1 - start);
                assert(s@.subrange(start as int, n as int).subrange(0, i + 1 - start) =~= after);
                lemma_decimal_shape_long(s@, signed, start as int);
            }
            return None;
        }
        proof {
            assert(acc * 10 + d <= u128::MAX) by (nonlinear_arith)
                requires
                    acc <= (u128::MAX - d) / 10,
                    d <= 9,
            ;
        }
        acc = acc * 10 + d;
        i = i + 1;
    }
    proof {
        assert(s@.subrange(start as int, n as int) =~= if start == 1 { s@.drop_first() } else { s@ });
    }
    Some((neg, acc))
}

/// Reads `s` as an unsigned integer no greater than `max`.
pub fn parse_unsigned(s: &str, max: u128) -> (r: Option<u128>)
    ensures
        r is Some <==> (decimal_value(s@, false) matches Some(v) && v <= max),
        r matches Some(v) ==> decimal_value(s@, false) == Some(v as int),
{
    match parse_decimal(s, false) {
        Some((_, m)) => if m <= max {
            Some(m)
        } else {
            None
        },
        None => None,
    }
}

/// Reads `s` as a signed integer in `[min, max]`.
pub fn parse_signed(s: &str, min: i128, max: i128) -> (r: Option<i128>)
    requires
        min < 0 <= max,
    ensures
        r is Some <==> (decimal_value(s@, true) matches Some(v) && min <= v <= max),
        r matches Some(v) ==> decimal_value(s@, true) == Some(v as int),
{
    match parse_decimal(s, true) {
        Some((neg, m)) => {
            if neg {
                // the magnitude of `min`, which may exceed `i128::MAX`
                let lim: u128 = (-(min + 1)) as u128 + 1;
                assert(lim as int == -min && lim <= 0x8000_0000_0000_0000_0000_0000_0000_0000);
                if m > lim {
                    None
                } else if m == 0 {
                    Some(0)
                } else {
                    Some(-((m - 1) as i128) - 1)
                }
            } else if m > max as u128 {
                None
            } else {
                Some(m as i128)
            }
        },
        None => None,
    }
}

proof fn lemma_ascii_byte(c: char, b: u8)
    requires
        c as u8 == b,
        (c as nat) < 128,
    ensures
        b as int == c as int,
        is_digit(c) <==> 48 <= b <= 57,
        c == '+' <==> b == 43,
        c == '-' <==> b == 45,
{
}

/// Where the sign has been read as `decimal_value` reads it, a non-digit after it
/// means that no integer is written.
proof fn lemma_decimal_shape(s: Seq<char>, signed: bool, start: int, i: int)
    requires
        start <= i < s.len(),
        start == 1 <==> (s[0] == '+' || (signed && s[0] == '-')),
        start == 0 || start == 1,
        !is_digit(s[i]),
    ensures
        decimal_value(s, signed) is None,
{
    if start == 1 {
        assert(s.drop_first()[i - 1] == s[i]);
    } else {
        assert(!is_digit(s[0]) || i > 0);
    }
}

/// Where the digits after the sign are all digits and read to more than `u128::MAX`,
/// the magnitude of the value written exceeds it too.
proof fn lemma_decimal_shape_long(s: Seq<char>, signed: bool, start: int)
    requires
        start <= s.len(),
        start == 1 <==> (s.len() > 0 && (s[0] == '+' || (signed && s[0] == '-'))),
        start == 0 || start == 1,
        digits_value(s.subrange(start, s.len() as int)) > u128::MAX,
    ensures
        decimal_value(s, signed) is None || magnitude(decimal_value(s, signed)) > u128::MAX,
{
    if start == 1 {
        assert(s.subrange(1, s.len() as int) =~= s.drop_first());
    } else {
        assert(s.subrange(0, s.len() as int) =~= s);
    }
}

} // verus!
