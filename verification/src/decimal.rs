//! Decimal text of `i32` values: writing one, and reading one back with the
//! grammar of `i32`'s `FromStr` (an optional `+` or `-`, then one or more
//! ASCII digits, and a value that fits).

use vstd::prelude::*;

verus! {

/// Whether `c` is one of the ASCII digits `0` to `9`.
pub open spec fn is_ascii_digit(c: char) -> bool {
    48 <= (c as u32) <= 57
}

/// The value of the ASCII digit `c`.
pub open spec fn digit_value(c: char) -> int {
    (c as u32) - 48
}

/// The ASCII digit whose value is `d`, for `0 <= d < 10`.
pub open spec fn digit_char(d: int) -> char {
    if d == 0 {
        '0'
    } else if d == 1 {
        '1'
    } else if d == 2 {
        '2'
    } else if d == 3 {
        '3'
    } else if d == 4 {
        '4'
    } else if d == 5 {
        '5'
    } else if d == 6 {
        '6'
    } else if d == 7 {
        '7'
    } else if d == 8 {
        '8'
    } else {
        '9'
    }
}

/// Whether every character of `s` is an ASCII digit.
pub open spec fn all_digits(s: Seq<char>) -> bool {
    forall|i: int| 0 <= i < s.len() ==> #[trigger] is_ascii_digit(s[i])
}

/// The number that the digits `s` write in base ten (0 for no digits).
pub open spec fn digits_value(s: Seq<char>) -> int
    decreases s.len(),
{
    if s.len() == 0 {
        0
    } else {
        digits_value(s.drop_last()) * 10 + digit_value(s.last())
    }
}

/// The shortest base-ten digits of `n`.
pub open spec fn nat_digits(n: nat) -> Seq<char>
    decreases n,
{
    if n < 10 {
        seq![digit_char(n as int)]
    } else {
        nat_digits(n / 10).push(digit_char((n % 10) as int))
    }
}

/// The decimal text of `i`: a `-` before the digits of its magnitude when it
/// is negative.
pub open spec fn int_decimal(i: int) -> Seq<char> {
    if i < 0 {
        seq!['-'] + nat_digits((-i) as nat)
    } else {
        nat_digits(i as nat)
    }
}

/// `s` without its one optional leading sign.
pub open spec fn unsigned_part(s: Seq<char>) -> Seq<char> {
    if s.len() > 0 && (s[0] == '-' || s[0] == '+') {
        s.drop_first()
    } else {
        s
    }
}

/// What reading `s` as an `i32` gives: `None` where `s` is empty, is a sign
/// alone, holds anything but one optional leading sign and ASCII digits, or
/// writes a value outside the range of `i32`.
pub open spec fn parse_i32_chars(s: Seq<char>) -> Option<int> {
    let body = unsigned_part(s);
    let value = if s.len() > 0 && s[0] == '-' {
        -digits_value(body)
    } else {
        digits_value(body)
    };
    if body.len() == 0 || !all_digits(body) || value < i32::MIN || value > i32::MAX {
        None
    } else {
        Some(value)
    }
}

proof fn lemma_digits_value_nonneg(s: Seq<char>)
    requires
        all_digits(s),
    ensures
        digits_value(s) >= 0,
    decreases s.len(),
{
    if s.len() > 0 {
        assert(is_ascii_digit(s[s.len() - 1]));
        lemma_digits_value_nonneg(s.drop_last());
    }
}

proof fn lemma_digits_value_prefix(s: Seq<char>, k: int)
    requires
        all_digits(s),
        0 <= k <= s.len(),
    ensures
        digits_value(s.take(k)) <= digits_value(s),
    decreases s.len(),
{
    if k < s.len() {
        assert(is_ascii_digit(s[s.len() - 1]));
        assert(s.drop_last().take(k) =~= s.take(k));
        lemma_digits_value_prefix(s.drop_last(), k);
        lemma_digits_value_nonneg(s.drop_last());
    } else {
        assert(s.take(k) =~= s);
    }
}

proof fn lemma_digit_char(d: int)
    requires
        0 <= d < 10,
    ensures
        is_ascii_digit(digit_char(d)),
        digit_value(digit_char(d)) == d,
        digit_char(d) != '-',
        digit_char(d) != '+',
{
}

proof fn lemma_digits_step(s: Seq<char>, k: int)
    requires
        0 <= k < s.len(),
        all_digits(s.take(k)),
        is_ascii_digit(s[k]),
    ensures
        all_digits(s.take(k + 1)),
        digits_value(s.take(k + 1)) == digits_value(s.take(k)) * 10 + digit_value(s[k]),
{
    assert(s.take(k + 1).drop_last() =~= s.take(k));
    assert forall|j: int| 0 <= j < s.take(k + 1).len() implies #[trigger] is_ascii_digit(
        s.take(k + 1)[j],
    ) by {
        if j < k {
            assert(s.take(k + 1)[j] == s.take(k)[j]);
        }
    }
}

proof fn lemma_nat_digits(n: nat)
    ensures
        nat_digits(n).len() > 0,
        all_digits(nat_digits(n)),
        digits_value(nat_digits(n)) == n,
        nat_digits(n)[0] != '-',
        nat_digits(n)[0] != '+',
    decreases n,
{
    if n >= 10 {
        lemma_nat_digits(n / 10);
        lemma_digit_char((n % 10) as int);
        let d = nat_digits(n / 10);
        let c = digit_char((n % 10) as int);
        assert(d.push(c).drop_last() =~= d);
        assert(d.push(c)[0] == d[0]);
        assert(n == (n / 10) * 10 + n % 10) by (nonlinear_arith);
        assert(nat_digits(n) == d.push(c));
        assert(digits_value(d.push(c)) == digits_value(d) * 10 + digit_value(c));
        assert forall|i: int| 0 <= i < d.push(c).len() implies #[trigger] is_ascii_digit(
            d.push(c)[i],
        ) by {
            if i < d.len() {
                assert(is_ascii_digit(d[i]));
            }
        }
    } else {
        lemma_digit_char(n as int);
        let one = seq![digit_char(n as int)];
        assert(one.drop_last() =~= Seq::<char>::empty());
        assert(nat_digits(n) == one);
        assert(digits_value(one) == digits_value(one.drop_last()) * 10 + digit_value(one.last()));
    }
}

/// Reading back the decimal text of an `i32` gives that `i32`.
pub proof fn lemma_parse_of_decimal(n: i32)
    ensures
        parse_i32_chars(int_decimal(n as int)) == Some(n as int),
{
    if n < 0 {
        let m = (-n) as nat;
        lemma_nat_digits(m);
        assert((seq!['-'] + nat_digits(m)).drop_first() =~= nat_digits(m));
    } else {
        lemma_nat_digits(n as nat);
    }
}

/// The one-character text of the digit `d`.
fn digit_text(d: u64) -> (res: String)
    requires
        d < 10,
    ensures
        res@ == seq![digit_char(d as int)],
{
    if d == 0 {
        proof {
            reveal_strlit("0");
        }
        String::from_str("0")
    } else if d == 1 {
        proof {
            reveal_strlit("1");
        }
        String::from_str("1")
    } else if d == 2 {
        proof {
            reveal_strlit("2");
        }
        String::from_str("2")
    } else if d == 3 {
        proof {
            reveal_strlit("3");
        }
        String::from_str("3")
    } else if d == 4 {
        proof {
            reveal_strlit("4");
        }
        String::from_str("4")
    } else if d == 5 {
        proof {
            reveal_strlit("5");
        }
        String::from_str("5")
    } else if d == 6 {
        proof {
            reveal_strlit("6");
        }
        String::from_str("6")
    } else if d == 7 {
        proof {
            reveal_strlit("7");
        }
        String::from_str("7")
    } else if d == 8 {
        proof {
            reveal_strlit("8");
        }
        String::from_str("8")
    } else {
        proof {
            reveal_strlit("9");
        }
        String::from_str("9")
    }
}

/// The base-ten digits of `n`, without leading zeros.
fn u64_digits(n: u64) -> (res: String)
    ensures
        res@ == nat_digits(n as nat),
{
    let mut m: u64 = n / 10;
    let mut res = digit_text(n % 10);
    while m > 0
        invariant
            m > 0 ==> nat_digits(n as nat) == nat_digits(m as nat) + res@,
            m == 0 ==> nat_digits(n as nat) == res@,
        decreases m,
    {
        let ghost old_res = res@;
        let d = digit_text(m % 10);
        res = d.concat(res.as_str());
        assert(nat_digits(m as nat) == nat_digits((m / 10) as nat).push(
            digit_char((m % 10) as int),
        ) || m < 10);
        assert(nat_digits((m / 10) as nat) + res@ =~= nat_digits((m / 10) as nat).push(
            digit_char((m % 10) as int),
        ) + old_res);
        m = m / 10;
    }
    res
}

/// The decimal text of `n`, as `format!("{}", n)` writes it.
pub fn format_i32(n: i32) -> (res: String)
    ensures
        res@ == int_decimal(n as int),
{
    if n < 0 {
        let magnitude: u64 = (0i64 - (n as i64)) as u64;
        let digits = u64_digits(magnitude);
        proof {
            reveal_strlit("-");
        }
        String::from_str("-").concat(digits.as_str())
    } else {
        u64_digits(n as u64)
    }
}

/// Reads `s` as an `i32` as `s.parse::<i32>().ok()` does.
pub fn parse_i32(s: &str) -> (res: Option<i32>)
    ensures
        res matches Some(v) ==> parse_i32_chars(s@) == Some(v as int),
        res is None ==> parse_i32_chars(s@) is None,
{
    let len = s.unicode_len();
    if len == 0 {
        return None;
    }
    let first = s.get_char(0);
    let negative = first == '-';
    let start: usize = if first == '-' || first == '+' {
        1
    } else {
        0
    };
    if start == len {
        return None;
    }
    let ghost body = unsigned_part(s@);
    assert(body =~= s@.subrange(start as int, len as int));
    let mut magnitude: i64 = 0;
    let mut i: usize = start;
    while i < len
        invariant
            len == s@.len(),
            start <= i <= len,
            body == unsigned_part(s@),
            body == s@.subrange(start as int, len as int),
            all_digits(body.take(i - start)),
            magnitude == digits_value(body.take(i - start)),
            0 <= magnitude <= 0x8000_0000,
        decreases len - i,
    {
        let c = s.get_char(i);
        let code = c as u32;
        assert(body[i - start] == c);
        if code < 48 || code > 57 {
            assert(!is_ascii_digit(body[i - start]));
            return None;
        }
        proof {
            lemma_digits_step(body, i - start);
        }
        magnitude = magnitude * 10 + (code - 48) as i64;
        if magnitude > 0x8000_0000 {
            proof {
                if all_digits(body) {
                    lemma_digits_value_prefix(body, i - start + 1);
                }
            }
            return None;
        }
        i = i + 1;
    }
    assert(body.take(len - start) =~= body);
    if negative {
        Some((0 - magnitude) as i32)
    } else if magnitude > 0x7fff_ffff {
        None
    } else {
        Some(magnitude as i32)
    }
}

} // verus!
