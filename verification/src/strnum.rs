//! Decimal rendering of the numeric parameters that appear inside
//! filter expressions and argument vectors.

use vstd::prelude::*;

verus! {

/// The decimal digit character for a value below ten.
pub open spec fn digit_char(d: int) -> char {
    if d == 0 {
        '0'
    } else if d == 1 {
        '1'
    } else if d == 2 {
        '2'
    } else if d == 3 {
        '3'
    } else if d == 4 {
        '4'
    } else if d == 5 {
        '5'
    } else if d == 6 {
        '6'
    } else if d == 7 {
        '7'
    } else if d == 8 {
        '8'
    } else {
        '9'
    }
}

/// The usual decimal rendering of a non-negative integer, most
/// significant digit first and without leading zeros.
pub open spec fn spec_decimal(n: int) -> Seq<char>
    decreases n,
{
    if n < 10 {
        seq![digit_char(n)]
    } else {
        spec_decimal(n / 10).push(digit_char(n % 10))
    }
}

/// A signed count of tenths rendered with a single fractional digit
/// when the value is not whole: -425 tenths become "-42.5", -500
/// tenths become "-50".
pub open spec fn spec_tenths(t: int) -> Seq<char> {
    let sign: Seq<char> = if t < 0 {
        seq!['-']
    } else {
        Seq::<char>::empty()
    };
    let m = if t < 0 {
        -t
    } else {
        t
    };
    if m % 10 == 0 {
        sign + spec_decimal(m / 10)
    } else {
        sign + spec_decimal(m / 10) + seq!['.'] + seq![digit_char(m % 10)]
    }
}

/// True when `c` is a decimal digit character.
pub open spec fn is_digit(c: char) -> bool {
    '0' <= c <= '9'
}

/// Every character of a decimal rendering is a digit.
pub proof fn lemma_decimal_digits(n: int)
    requires
        n >= 0,
    ensures
        spec_decimal(n).len() >= 1,
        forall|i: int| 0 <= i < spec_decimal(n).len() ==> is_digit(#[trigger] spec_decimal(n)[i]),
    decreases n,
{
    if n < 10 {
    } else {
        lemma_decimal_digits(n / 10);
    }
}

fn digit_str(d: u32) -> (r: &'static str)
    requires
        d < 10,
    ensures
        r@ == seq![digit_char(d as int)],
{
    proof {
        reveal_strlit("0");
        reveal_strlit("1");
        reveal_strlit("2");
        reveal_strlit("3");
        reveal_strlit("4");
        reveal_strlit("5");
        reveal_strlit("6");
        reveal_strlit("7");
        reveal_strlit("8");
        reveal_strlit("9");
    }
    let r = match d {
        0 => "0",
        1 => "1",
        2 => "2",
        3 => "3",
        4 => "4",
        5 => "5",
        6 => "6",
        7 => "7",
        8 => "8",
        _ => "9",
    };
    proof {
        assert(r@ =~= seq![digit_char(d as int)]);
    }
    r
}

/// Render an unsigned number in decimal.
pub fn u32_to_string(n: u32) -> (r: String)
    ensures
        r@ == spec_decimal(n as int),
    decreases n,
{
    if n < 10 {
        digit_str(n).to_owned()
    } else {
        let mut s = u32_to_string(n / 10);
        s.append(digit_str(n % 10));
        proof {
            assert(s@ =~= spec_decimal((n / 10) as int).push(digit_char((n % 10) as int)));
        }
        s
    }
}

/// Render a signed count of tenths, as a decibel threshold is written
/// inside a filter expression.
pub fn tenths_to_string(t: i32) -> (r: String)
    ensures
        r@ == spec_tenths(t as int),
{
    let neg = t < 0;
    let wide: i64 = t as i64;
    let mag64: i64 = if neg {
        -wide
    } else {
        wide
    };
    let m: u32 = mag64 as u32;
    let mut s = String::new();
    if neg {
        s.append("-");
        proof {
            reveal_strlit("-");
        }
    }
    s.append(u32_to_string(m / 10).as_str());
    if m % 10 != 0 {
        s.append(".");
        s.append(digit_str(m % 10));
        proof {
            reveal_strlit(".");
        }
    }
    proof {
        assert(s@ =~= spec_tenths(t as int));
    }
    s
}

/// The numeric value of a digit character.
pub open spec fn digit_val(c: char) -> int {
    (c as u32) - 48
}

/// The first position at or after `i` that does not hold a digit: the
/// end of the digit run beginning at `i`.
pub open spec fn spec_digit_run_end(s: Seq<char>, i: int) -> int
    decreases s.len() - i,
{
    if 0 <= i < s.len() && is_digit(s[i]) {
        spec_digit_run_end(s, i + 1)
    } else {
        i
    }
}

/// The value of the decimal digits `s[i..j)`, most significant first.
pub open spec fn spec_digits_value(s: Seq<char>, i: int, j: int) -> int
    decreases j - i,
{
    if i >= j {
        0
    } else {
        spec_digits_value(s, i, j - 1) * 10 + digit_val(s[j - 1])
    }
}

pub proof fn lemma_digit_run(s: Seq<char>, a: int)
    requires
        0 <= a <= s.len(),
    ensures
        a <= spec_digit_run_end(s, a) <= s.len(),
        forall|k: int| a <= k < spec_digit_run_end(s, a) ==> is_digit(s[k]),
        spec_digit_run_end(s, a) < s.len() ==> !is_digit(s[spec_digit_run_end(s, a)]),
    decreases s.len() - a,
{
    if a < s.len() && is_digit(s[a]) {
        lemma_digit_run(s, a + 1);
    }
}

pub proof fn lemma_digits_value_nonneg(s: Seq<char>, a: int, j: int)
    requires
        forall|k: int| a <= k < j ==> is_digit(#[trigger] s[k]),
    ensures
        spec_digits_value(s, a, j) >= 0,
    decreases j - a,
{
    if a < j {
        lemma_digits_value_nonneg(s, a, j - 1);
    }
}

/// Reading further digits never lowers the value.
pub proof fn lemma_digits_value_mono(s: Seq<char>, a: int, i: int, j: int)
    requires
        a <= i <= j,
        forall|k: int| a <= k < j ==> is_digit(#[trigger] s[k]),
    ensures
        spec_digits_value(s, a, j) >= spec_digits_value(s, a, i),
    decreases j - i,
{
    if i < j {
        lemma_digits_value_mono(s, a, i, j - 1);
        lemma_digits_value_nonneg(s, a, j - 1);
    }
}

/// Executable digit test.
pub fn is_digit_char(c: char) -> (r: bool)
    ensures
        r == is_digit(c),
{
    let u = c as u32;
    48 <= u && u <= 57
}

/// Read the run of decimal digits beginning at `start`: its value and
/// the position after it. Nothing is returned when no digit stands at
/// `start` or the value does not fit the result type.
pub fn parse_u32_run(s: &str, start: usize) -> (r: Option<(u32, usize)>)
    requires
        start <= s@.len(),
    ensures
        ({
            let j = spec_digit_run_end(s@, start as int);
            match r {
                Some((v, end)) => end == j && start < j && j <= s@.len() && spec_digits_value(
                    s@,
                    start as int,
                    j,
                ) == v,
                None => j == start || spec_digits_value(s@, start as int, j) > u32::MAX,
            }
        }),
{
    proof {
        lemma_digit_run(s@, start as int);
    }
    let ghost jj = spec_digit_run_end(s@, start as int);
    let n = s.unicode_len();
    let mut i: usize = start;
    let mut acc: u64 = 0;
    loop
        invariant
            start <= i <= n,
            n == s@.len(),
            i <= jj,
            jj == spec_digit_run_end(s@, start as int),
            forall|k: int| start <= k < jj ==> is_digit(#[trigger] s@[k]),
            jj <= n,
            jj < n ==> !is_digit(s@[jj as int]),
            forall|k: int| start <= k < i ==> is_digit(s@[k]),
            acc == spec_digits_value(s@, start as int, i as int),
            acc <= u32::MAX,
        ensures
            i == jj,
            acc == spec_digits_value(s@, start as int, jj),
            acc <= u32::MAX,
        decreases n - i,
    {
        if i >= n {
            assert(i == jj);
            break;
        }
        let c = s.get_char(i);
        if !is_digit_char(c) {
            assert(i == jj) by {
                if i < jj {
                    assert(is_digit(s@[i as int]));
                }
            }
            break;
        }
        assert(i < jj) by {
            if i == jj {
                assert(!is_digit(s@[jj as int]));
            }
        }
        let d: u64 = (c as u32 - 48) as u64;
        let next: u64 = acc * 10 + d;
        assert(next == spec_digits_value(s@, start as int, i + 1 as int));
        if next > u32::MAX as u64 {
            proof {
                lemma_digits_value_mono(s@, start as int, i + 1 as int, jj);
            }
            return None;
        }
        acc = next;
        i = i + 1;
    }
    if i == start {
        None
    } else {
        Some((acc as u32, i))
    }
}

} // verus!
