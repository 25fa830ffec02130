//! Decimal integers: the parsing of std's `FromStr` for `i64`/`u64` and decimal formatting.
use vstd::prelude::*;
use crate::text::{chars_of, push_char};

verus! {

/// Whether `c` is one of the ASCII digits `0`..`9`.
pub open spec fn is_digit(c: char) -> bool {
    '0' <= c <= '9'
}

/// The value of an ASCII digit.
pub open spec fn digit_value(c: char) -> nat {
    (c as u32 - '0' as u32) as nat
}

/// Whether `s` is made of ASCII digits only.
pub open spec fn all_digits(s: Seq<char>) -> bool {
    forall|i: int| 0 <= i < s.len() ==> is_digit(#[trigger] s[i])
}

/// The number that the digits `s` spell in base ten.
pub open spec fn digits_value(s: Seq<char>) -> nat
    decreases s.len(),
{
    if s.len() == 0 {
        0
    } else {
        digits_value(s.drop_last()) * 10 + digit_value(s.last())
    }
}

/// The integer that `s` spells: an optional `+` or `-`, then at least one digit.
pub open spec fn signed_value(s: Seq<char>) -> Option<int> {
    if s.len() > 1 && s[0] == '-' && all_digits(s.skip(1)) {
        Some(-digits_value(s.skip(1)))
    } else if s.len() > 1 && s[0] == '+' && all_digits(s.skip(1)) {
        Some(digits_value(s.skip(1)) as int)
    } else if s.len() > 0 && all_digits(s) {
        Some(digits_value(s) as int)
    } else {
        None
    }
}

/// The natural number that `s` spells: an optional `+`, then at least one digit.
pub open spec fn unsigned_value(s: Seq<char>) -> Option<nat> {
    if s.len() > 1 && s[0] == '+' && all_digits(s.skip(1)) {
        Some(digits_value(s.skip(1)))
    } else if s.len() > 0 && all_digits(s) {
        Some(digits_value(s))
    } else {
        None
    }
}

/// What `s.parse::<i64>()` yields: the value when `s` spells an integer that fits.
pub open spec fn parse_i64_spec(s: Seq<char>) -> Option<i64> {
    match signed_value(s) {
        Some(v) => if i64::MIN <= v <= i64::MAX {
            Some(v as i64)
        } else {
            None
        },
        None => None,
    }
}

/// What `s.parse::<u64>()` yields: the value when `s` spells a natural number that fits.
pub open spec fn parse_u64_spec(s: Seq<char>) -> Option<u64> {
    match unsigned_value(s) {
        Some(v) => if v <= u64::MAX {
            Some(v as u64)
        } else {
            None
        },
        None => None,
    }
}

/// The ASCII digit of a value below ten.
pub open spec fn digit_char(d: nat) -> char {
    (d + '0' as u32) as char
}

/// The decimal digits of `n`, most significant first, without leading zeros.
pub open spec fn decimal(n: nat) -> Seq<char>
    decreases n,
{
    if n < 10 {
        seq![digit_char(n)]
    } else {
        decimal(n / 10).push(digit_char(n % 10))
    }
}

/// The decimal form of `v`, with a leading `-` when it is negative.
pub open spec fn signed_decimal(v: int) -> Seq<char> {
    if v < 0 {
        seq!['-'] + decimal((-v) as nat)
    } else {
        decimal(v as nat)
    }
}

proof fn lemma_digits_value_take(s: Seq<char>, k: int)
    requires
        0 <= k < s.len(),
    ensures
        digits_value(s.take(k + 1)) == digits_value(s.take(k)) * 10 + digit_value(s[k]),
{
    assert(s.take(k + 1).drop_last() =~= s.take(k));
}

proof fn lemma_digits_value_prefix_le(s: Seq<char>, k: int)
    requires
        0 <= k <= s.len(),
    ensures
        digits_value(s.take(k)) <= digits_value(s),
    decreases s.len() - k,
{
    if k == s.len() {
        assert(s.take(k) =~= s);
    } else {
        lemma_digits_value_prefix_le(s, k + 1);
        lemma_digits_value_take(s, k);
    }
}

/// Reads the digits `v[from..]` as a magnitude, giving up once it exceeds `bound`.
fn read_magnitude(v: &Vec<char>, from: usize, bound: u64) -> (res: Option<u64>)
    requires
        from <= v.len(),
    ensures
        match res {
            Some(m) => all_digits(v@.skip(from as int)) && m == digits_value(v@.skip(from as int))
                && m <= bound,
            None => !all_digits(v@.skip(from as int)) || digits_value(v@.skip(from as int))
                > bound,
        },
{
    let ghost s = v@.skip(from as int);
    let mut m: u64 = 0;
    let mut i = from;
    assert(s.take(0) =~= Seq::<char>::empty());
    while i < v.len()
        invariant
            from <= i <= v.len(),
            s == v@.skip(from as int),
            all_digits(s.take(i - from)),
            m == digits_value(s.take(i - from)),
            m <= bound,
        decreases v.len() - i,
    {
        let c = v[i];
        assert(s[i - from] == c);
        if !('0' <= c && c <= '9') {
            return None;
        }
        let d = (c as u32 - '0' as u32) as u64;
        proof {
            lemma_digits_value_take(s, i - from);
            assert(s.take(i - from + 1) =~= s.take(i - from).push(c));
        }
        if d > bound || m > (bound - d) / 10 {
            proof {
                if d <= bound {
                    assert(m * 10 + d > bound) by (nonlinear_arith)
                        requires
                            m > (bound - d) / 10,
                            d <= bound,
                    ;
                }
                if all_digits(s) {
                    lemma_digits_value_prefix_le(s, i - from + 1);
                }
            }
            return None;
        }
        assert(m * 10 + d <= bound) by (nonlinear_arith)
            requires
                m <= (bound - d) / 10,
                d <= bound,
        ;
        m = m * 10 + d;
        i += 1;
    }
    assert(s.take(i - from) =~= s);
    Some(m)
}

/// Parses a decimal `i64` as std's `str::parse::<i64>` does.
pub fn parse_i64(s: &str) -> (res: Option<i64>)
    ensures
        res == parse_i64_spec(s@),
{
    let v = chars_of(s);
    parse_i64_chars(&v)
}

/// Parses the characters `v` as a decimal `i64`, as std's `str::parse::<i64>` does.
pub fn parse_i64_chars(v: &Vec<char>) -> (res: Option<i64>)
    ensures
        res == parse_i64_spec(v@),
{
    assert(v@.skip(0) =~= v@);
    if v.len() == 0 {
        return None;
    }
    if v[0] == '-' {
        if v.len() == 1 {
            return None;
        }
        match read_magnitude(v, 1, 0x8000_0000_0000_0000u64) {
            Some(m) => {
                if m == 0x8000_0000_0000_0000u64 {
                    Some(i64::MIN)
                } else {
                    Some(-(m as i64))
                }
            },
            None => None,
        }
    } else if v[0] == '+' {
        if v.len() == 1 {
            return None;
        }
        match read_magnitude(v, 1, 0x7fff_ffff_ffff_ffffu64) {
            Some(m) => Some(m as i64),
            None => None,
        }
    } else {
        match read_magnitude(v, 0, 0x7fff_ffff_ffff_ffffu64) {
            Some(m) => Some(m as i64),
            None => None,
        }
    }
}

/// Parses a decimal `u64` as std's `str::parse::<u64>` does.
pub fn parse_u64(s: &str) -> (res: Option<u64>)
    ensures
        res == parse_u64_spec(s@),
{
    let v = chars_of(s);
    assert(v@.skip(0) =~= v@);
    if v.len() == 0 {
        return None;
    }
    if v[0] == '+' {
        if v.len() == 1 {
            return None;
        }
        read_magnitude(&v, 1, u64::MAX)
    } else {
        read_magnitude(&v, 0, u64::MAX)
    }
}

/// Appends the decimal digits of `n` to `out`.
pub fn push_decimal(out: &mut String, n: u64)
    ensures
        final(out)@ == old(out)@ + decimal(n as nat),
    decreases n,
{
    if n >= 10 {
        push_decimal(out, n / 10);
    }
    let d = n % 10;
    let c = ((d as u32) + ('0' as u32)) as u8 as char;
    assert(c == digit_char(d as nat)) by {
        assert(d < 10);
    }
    push_char(out, c);
    proof {
        if n >= 10 {
            assert(decimal(n as nat) == decimal((n / 10) as nat).push(digit_char((n % 10) as nat)));
        } else {
            assert(decimal(n as nat) == seq![digit_char(n as nat)]);
        }
    }
}

/// The decimal form of a `u64` (what `n.to_string()` gives).
pub fn format_u64(n: u64) -> (res: String)
    ensures
        res@ == decimal(n as nat),
{
    let mut out = String::new();
    push_decimal(&mut out, n);
    assert(Seq::<char>::empty() + decimal(n as nat) =~= decimal(n as nat));
    out
}

/// The decimal form of an `i64` (what `v.to_string()` gives).
pub fn format_i64(v: i64) -> (res: String)
    ensures
        res@ == signed_decimal(v as int),
{
    let mut out = String::new();
    if v < 0 {
        push_char(&mut out, '-');
        let m: u64 = if v == i64::MIN {
            0x8000_0000_0000_0000u64
        } else {
            (-v) as u64
        };
        push_decimal(&mut out, m);
        assert(out@ =~= seq!['-'] + decimal((-v) as nat));
    } else {
        push_decimal(&mut out, v as u64);
        assert(out@ =~= decimal(v as nat));
    }
    out
}

proof fn lemma_decimal_digits(n: nat)
    ensures
        decimal(n).len() >= 1,
        all_digits(decimal(n)),
        digits_value(decimal(n)) == n,
    decreases n,
{
    if n < 10 {
        let s = decimal(n);
        assert(s =~= seq![digit_char(n)]);
        assert(s.drop_last() =~= Seq::<char>::empty());
        assert(digits_value(Seq::<char>::empty()) == 0);
        assert(s.last() == digit_char(n));
        assert(digit_value(digit_char(n)) == n);
        assert(digits_value(s) == digits_value(s.drop_last()) * 10 + digit_value(s.last()));
    } else {
        lemma_decimal_digits(n / 10);
        let s = decimal(n);
        let d = n % 10;
        assert(s == decimal(n / 10).push(digit_char(d)));
        assert(s.drop_last() =~= decimal(n / 10));
        assert(digit_value(digit_char(d)) == d);
        assert(s.last() == digit_char(d));
        assert((n / 10) * 10 + n % 10 == n) by (nonlinear_arith);
        assert(digits_value(s) == digits_value(decimal(n / 10)) * 10 + d);
        assert forall|i: int| 0 <= i < s.len() implies is_digit(#[trigger] s[i]) by {
            if i < s.len() - 1 {
                assert(s[i] == decimal(n / 10)[i]);
            }
        }
    }
}

/// Formatting an integer in decimal and parsing it back gives the integer again.
pub proof fn lemma_decimal_round_trip(v: i64)
    ensures
        parse_i64_spec(signed_decimal(v as int)) == Some(v),
{
    if v < 0 {
        let m = (-v) as nat;
        lemma_decimal_digits(m);
        let s = signed_decimal(v as int);
        assert(s.skip(1) =~= decimal(m));
        assert(s[0] == '-');
    } else {
        let m = v as nat;
        lemma_decimal_digits(m);
        let s = decimal(m);
        assert(s[0] != '-' && s[0] != '+') by {
            assert(is_digit(s[0]));
        }
    }
}

/// Formatting a natural number in decimal and parsing it back gives the number again.
pub proof fn lemma_unsigned_round_trip(n: u64)
    ensures
        parse_u64_spec(decimal(n as nat)) == Some(n),
{
    lemma_decimal_digits(n as nat);
    let s = decimal(n as nat);
    assert(s[0] != '+') by {
        assert(is_digit(s[0]));
    }
}

} // verus!
