//! Decimal text for 64-bit signed integers: the reading that `str::parse::<i64>`
//! performs and the rendering that `{}` formatting produces.

use vstd::prelude::*;
use crate::text::push_char;

verus! {

/// Whether `c` is an ASCII decimal digit.
pub open spec fn is_digit(c: char) -> bool {
    '0' <= c && c <= '9'
}

/// The numeric value of a digit character.
pub open spec fn digit_value(c: char) -> int {
    (c as int) - ('0' as int)
}

/// The digit character for `d` in `0..10`.
pub open spec fn digit_char(d: int) -> char {
    (('0' as int) + d) as char
}

/// Every character is a decimal digit.
pub open spec fn all_digits(s: Seq<char>) -> bool {
    forall|i: int| 0 <= i < s.len() ==> is_digit(#[trigger] s[i])
}

/// The value of a string of decimal digits (most significant first).
pub open spec fn digits_value(s: Seq<char>) -> int
    decreases s.len(),
{
    if s.len() == 0 {
        0
    } else {
        digits_value(s.drop_last()) * 10 + digit_value(s.last())
    }
}

/// What `str::parse::<i64>` returns for a string: an optional `+` or `-`,
/// then one or more decimal digits, and a value inside the range of `i64`.
pub open spec fn parse_i64_spec(s: Seq<char>) -> Option<i64> {
    let neg = s.len() > 0 && s[0] == '-';
    let body = if s.len() > 0 && (s[0] == '-' || s[0] == '+') {
        s.drop_first()
    } else {
        s
    };
    let v = if neg {
        -digits_value(body)
    } else {
        digits_value(body)
    };
    if body.len() == 0 || !all_digits(body) {
        None
    } else if i64::MIN <= v && v <= i64::MAX {
        Some(v as i64)
    } else {
        None
    }
}

/// The shortest decimal digits of a natural number.
pub open spec fn nat_digits(n: nat) -> Seq<char>
    decreases n,
{
    if n < 10 {
        seq![digit_char(n as int)]
    } else {
        nat_digits(n / 10).push(digit_char((n % 10) as int))
    }
}

/// The decimal rendering of an integer, with a leading `-` when negative.
pub open spec fn decimal_spec(n: int) -> Seq<char> {
    if n < 0 {
        seq!['-'] + nat_digits((-n) as nat)
    } else {
        nat_digits(n as nat)
    }
}

proof fn lemma_digits_value_nonneg(s: Seq<char>)
    requires
        all_digits(s),
    ensures
        digits_value(s) >= 0,
    decreases s.len(),
{
    if s.len() > 0 {
        assert(all_digits(s.drop_last())) by {
            assert forall|i: int| 0 <= i < s.drop_last().len() implies is_digit(
                #[trigger] s.drop_last()[i],
            ) by {
                assert(s.drop_last()[i] == s[i]);
            }
        }
        lemma_digits_value_nonneg(s.drop_last());
        assert(is_digit(s[s.len() - 1]));
    }
}

/// A prefix of a digit string never has a larger value than the whole.
proof fn lemma_digits_value_prefix(s: Seq<char>, k: int)
    requires
        all_digits(s),
        0 <= k <= s.len(),
    ensures
        digits_value(s.subrange(0, k)) <= digits_value(s),
    decreases s.len(),
{
    if k < s.len() {
        let p = s.drop_last();
        assert(all_digits(p)) by {
            assert forall|i: int| 0 <= i < p.len() implies is_digit(#[trigger] p[i]) by {
                assert(p[i] == s[i]);
            }
        }
        lemma_digits_value_prefix(p, k);
        assert(p.subrange(0, k) =~= s.subrange(0, k));
        lemma_digits_value_nonneg(p);
        assert(is_digit(s[s.len() - 1]));
    } else {
        assert(s.subrange(0, k) =~= s);
    }
}

proof fn lemma_all_digits_push(s: Seq<char>, c: char)
    requires
        all_digits(s),
        is_digit(c),
    ensures
        all_digits(s.push(c)),
        digits_value(s.push(c)) == digits_value(s) * 10 + digit_value(c),
{
    assert(s.push(c).drop_last() =~= s);
    assert forall|i: int| 0 <= i < s.push(c).len() implies is_digit(#[trigger] s.push(c)[i]) by {
        if i < s.len() {
            assert(s.push(c)[i] == s[i]);
        }
    }
}

/// Reads a decimal integer as `str::parse::<i64>` does.
pub fn parse_i64(s: &str) -> (r: Option<i64>)
    ensures
        r == parse_i64_spec(s@),
{
    let n = s.unicode_len();
    let mut start: usize = 0;
    let mut neg = false;
    if n > 0 {
        let c0 = s.get_char(0);
        if c0 == '-' {
            neg = true;
            start = 1;
        } else if c0 == '+' {
            start = 1;
        }
    }
    let ghost body = s@.subrange(start as int, n as int);
    assert(body =~= (if s@.len() > 0 && (s@[0] == '-' || s@[0] == '+') {
        s@.drop_first()
    } else {
        s@
    }));
    assert(neg == (s@.len() > 0 && s@[0] == '-'));
    if start == n {
        return None;
    }
    let limit: u64 = if neg {
        9223372036854775808u64
    } else {
        9223372036854775807u64
    };
    let mut acc: u64 = 0;
    let mut i: usize = start;
    assert(s@.subrange(start as int, start as int) =~= Seq::<char>::empty());
    while i < n
        invariant
            n == s@.len(),
            start <= i <= n,
            start < n,
            body == s@.subrange(start as int, n as int),
            body == (if s@.len() > 0 && (s@[0] == '-' || s@[0] == '+') {
                s@.drop_first()
            } else {
                s@
            }),
            neg == (s@.len() > 0 && s@[0] == '-'),
            acc <= limit,
            limit == (if neg {
                9223372036854775808u64
            } else {
                9223372036854775807u64
            }),
            all_digits(s@.subrange(start as int, i as int)),
            acc as int == digits_value(s@.subrange(start as int, i as int)),
        decreases n - i,
    {
        let c = s.get_char(i);
        if !('0' <= c && c <= '9') {
            assert(!is_digit(body[i - start]));
            return None;
        }
        let d: u64 = (c as u32 - '0' as u32) as u64;
        assert(s@.subrange(start as int, i + 1) =~= s@.subrange(start as int, i as int).push(c));
        proof {
            lemma_all_digits_push(s@.subrange(start as int, i as int), c);
        }
        if acc > (limit - d) / 10 {
            proof {
                assert(acc * 10 + d > limit) by (nonlinear_arith)
                    requires
                        acc > (limit - d) / 10,
                        d <= 9,
                        limit >= 9,
                ;
                if all_digits(body) {
                    assert(s@.subrange(start as int, i + 1) =~= body.subrange(0, i + 1 - start));
                    lemma_digits_value_prefix(body, i + 1 - start);
                }
            }
            return None;
        }
        assert(acc * 10 + d <= limit) by (nonlinear_arith)
            requires
                acc <= (limit - d) / 10,
                d <= 9,
                limit >= 9,
        ;
        acc = acc * 10 + d;
        i = i + 1;
    }
    assert(s@.subrange(start as int, n as int) =~= body);
    if neg {
        if acc == 9223372036854775808u64 {
            Some(i64::MIN)
        } else {
            Some(-(acc as i64))
        }
    } else {
        Some(acc as i64)
    }
}

proof fn lemma_nat_digits_shape(n: nat)
    ensures
        nat_digits(n).len() >= 1,
        all_digits(nat_digits(n)),
        digits_value(nat_digits(n)) == n,
        nat_digits(n)[0] != '-',
        nat_digits(n)[0] != '+',
    decreases n,
{
    if n < 10 {
        let s = nat_digits(n);
        assert(s.drop_last() =~= Seq::<char>::empty());
        assert(digit_value(digit_char(n as int)) == n);
        assert(digits_value(s.drop_last()) == 0);
        assert(s.last() == digit_char(n as int));
        assert(is_digit(s[0]));
    } else {
        lemma_nat_digits_shape(n / 10);
        let p = nat_digits(n / 10);
        lemma_all_digits_push(p, digit_char((n % 10) as int));
        assert(nat_digits(n)[0] == p[0]);
    }
}

/// Reading back the decimal rendering of any `i64` gives the same number.
pub proof fn lemma_parse_render_roundtrip(n: i64)
    ensures
        parse_i64_spec(decimal_spec(n as int)) == Some(n),
{
    if n < 0 {
        let m = (-(n as int)) as nat;
        lemma_nat_digits_shape(m);
        assert((seq!['-'] + nat_digits(m)).drop_first() =~= nat_digits(m));
    } else {
        lemma_nat_digits_shape(n as nat);
    }
}

/// Renders an integer in decimal, as `{}` formatting of an `i64` does.
pub fn render_i64(n: i64) -> (r: String)
    ensures
        r@ == decimal_spec(n as int),
{
    let neg = n < 0;
    let big: u64 = if n == i64::MIN {
        9223372036854775808u64
    } else if neg {
        (-n) as u64
    } else {
        n as u64
    };
    let ghost total = big as nat;
    let mut m: u64 = big;
    let mut tail: Vec<char> = Vec::new();
    while m >= 10
        invariant
            nat_digits(total) == nat_digits(m as nat) + tail@,
        decreases m,
    {
        let d = (m % 10) as u32;
        let c = char_of_digit(d);
        assert(nat_digits(m as nat) == nat_digits((m / 10) as nat).push(digit_char((m % 10) as int)));
        let ghost before = tail@;
        tail.insert(0, c);
        assert(nat_digits((m / 10) as nat).push(c) + before =~= nat_digits((m / 10) as nat) + tail@);
        m = m / 10;
    }
    let mut s = String::new();
    if neg {
        push_char(&mut s, '-');
    }
    push_char(&mut s, char_of_digit(m as u32));
    let ghost head = s@;
    assert(nat_digits(m as nat) == seq![digit_char(m as int)]);
    let mut i: usize = 0;
    while i < tail.len()
        invariant
            i <= tail.len(),
            s@ == head + tail@.subrange(0, i as int),
        decreases tail.len() - i,
    {
        push_char(&mut s, tail[i]);
        i = i + 1;
        assert(s@ =~= head + tail@.subrange(0, i as int));
    }
    assert(tail@.subrange(0, tail.len() as int) =~= tail@);
    if neg {
        assert(total == -(n as int));
        assert(s@ =~= seq!['-'] + nat_digits(total));
    } else {
        assert(s@ =~= nat_digits(total));
    }
    s
}

/// The digit character for a value below ten.
fn char_of_digit(d: u32) -> (c: char)
    requires
        d < 10,
    ensures
        c == digit_char(d as int),
{
    if d == 0 { '0' }
    else if d == 1 { '1' }
    else if d == 2 { '2' }
    else if d == 3 { '3' }
    else if d == 4 { '4' }
    else if d == 5 { '5' }
    else if d == 6 { '6' }
    else if d == 7 { '7' }
    else if d == 8 { '8' }
    else { '9' }
}

} // verus!

verus! {

/// Every character of a decimal rendering is a digit or a minus sign.
pub proof fn lemma_decimal_chars(n: int)
    ensures
        forall|i: int|
            0 <= i < decimal_spec(n).len() ==> is_digit(#[trigger] decimal_spec(n)[i]) || decimal_spec(n)[i]
                == '-',
{
    if n < 0 {
        lemma_nat_digits_shape((-n) as nat);
        assert forall|i: int| 0 <= i < decimal_spec(n).len() implies is_digit(
            #[trigger] decimal_spec(n)[i],
        ) || decimal_spec(n)[i] == '-' by {
            if i > 0 {
                assert(decimal_spec(n)[i] == nat_digits((-n) as nat)[i - 1]);
            }
        }
    } else {
        lemma_nat_digits_shape(n as nat);
    }
}

} // verus!
