//! String utilities: comparison, decimal parsing and decimal rendering.

use vstd::prelude::*;

verus! {

/// Whether two string slices hold the same characters.
pub fn str_eq(a: &str, b: &str) -> (r: bool)
    ensures
        r == (a@ == b@),
{
    let x: String = a.to_owned();
    let y: String = b.to_owned();
    x.eq(&y)
}

/// Whether every character of `s` is a decimal digit.
pub open spec fn spec_is_digit_seq(s: Seq<char>) -> bool {
    forall|i: int| 0 <= i < s.len() ==> '0' <= #[trigger] s[i] <= '9'
}

/// Numeric value of a digit sequence, most significant digit first.
pub open spec fn spec_digits_value(s: Seq<char>) -> int
    decreases s.len(),
{
    if s.len() == 0 {
        0
    } else {
        spec_digits_value(s.drop_last()) * 10 + (s.last() as u32 - '0' as u32)
    }
}

/// What parsing a decimal number out of `s` yields under the bound `max`:
/// the numeric value when `s` is a non-empty digit sequence whose value is
/// at most `max`, and nothing otherwise.
pub open spec fn spec_parse_dec(s: Seq<char>, max: int) -> Option<int> {
    if s.len() > 0 && spec_is_digit_seq(s) && spec_digits_value(s) <= max {
        Some(spec_digits_value(s))
    } else {
        None
    }
}

/// What parsing a decimal `u32` out of `s` yields.
pub open spec fn spec_parse_u32(s: Seq<char>) -> Option<u32> {
    match spec_parse_dec(s, u32::MAX as int) {
        Some(v) => Some(v as u32),
        None => None,
    }
}

/// What parsing a decimal `usize` out of `s` yields.
pub open spec fn spec_parse_usize(s: Seq<char>) -> Option<usize> {
    match spec_parse_dec(s, usize::MAX as int) {
        Some(v) => Some(v as usize),
        None => None,
    }
}

/// Longer digit prefixes never have a smaller value.
proof fn lemma_digits_value_monotone(s: Seq<char>, i: int, j: int)
    requires
        0 <= i <= j <= s.len(),
        spec_is_digit_seq(s.take(j)),
    ensures
        spec_digits_value(s.take(i)) <= spec_digits_value(s.take(j)),
        spec_digits_value(s.take(j)) >= 0,
    decreases j - i,
{
    if i == j {
        lemma_digits_value_nonneg(s.take(j));
    } else {
        assert(s.take(j).drop_last() =~= s.take(j - 1));
        assert(spec_is_digit_seq(s.take(j - 1)));
        lemma_digits_value_monotone(s, i, j - 1);
        assert(spec_digits_value(s.take(j)) == spec_digits_value(s.take(j - 1)) * 10 + (s.take(
            j,
        ).last() as u32 - '0' as u32));
    }
}

/// A digit sequence has a non-negative value.
proof fn lemma_digits_value_nonneg(s: Seq<char>)
    requires
        spec_is_digit_seq(s),
    ensures
        spec_digits_value(s) >= 0,
    decreases s.len(),
{
    if s.len() > 0 {
        assert(spec_is_digit_seq(s.drop_last()));
        lemma_digits_value_nonneg(s.drop_last());
    }
}

/// Parse a decimal number of at most `max`, which itself must be below
/// `2 ^ 64`, so that the accumulator cannot overflow.
fn parse_dec_bounded(s: &str, max: u128) -> (r: Option<u128>)
    requires
        max <= u64::MAX as u128,
    ensures
        match r {
            Some(v) => spec_parse_dec(s@, max as int) == Some(v as int),
            None => spec_parse_dec(s@, max as int) is None,
        },
{
    let n = s.unicode_len();
    if n == 0 {
        return None;
    }
    let mut acc: u128 = 0;
    let mut i: usize = 0;
    while i < n
        invariant
            n == s@.len(),
            0 <= i <= n,
            max <= u64::MAX as u128,
            spec_is_digit_seq(s@.take(i as int)),
            acc == spec_digits_value(s@.take(i as int)),
            acc <= max,
        decreases n - i,
    {
        let c = s.get_char(i);
        let d = c as u32;
        if d < 48 || d > 57 {
            proof {
                assert(s@[i as int] == c);
                assert(!('0' <= s@[i as int] <= '9'));
                assert(!spec_is_digit_seq(s@));
            }
            return None;
        }
        proof {
            assert(s@.take(i as int + 1).drop_last() =~= s@.take(i as int));
            assert(s@.take(i as int + 1).last() == c);
        }
        acc = acc * 10 + (d - 48) as u128;
        if acc > max {
            proof {
                if spec_is_digit_seq(s@) {
                    assert(s@.take(n as int) =~= s@);
                    lemma_digits_value_monotone(s@, i as int + 1, n as int);
                }
            }
            return None;
        }
        i = i + 1;
    }
    proof {
        assert(s@.take(n as int) =~= s@);
    }
    Some(acc)
}

/// Parse a decimal `u32`, accepting exactly the non-empty all-digit
/// strings whose value fits.
pub fn parse_u32(s: &str) -> (r: Option<u32>)
    ensures
        r == spec_parse_u32(s@),
{
    match parse_dec_bounded(s, u32::MAX as u128) {
        Some(v) => Some(v as u32),
        None => None,
    }
}

/// Parse a decimal `usize`, accepting exactly the non-empty all-digit
/// strings whose value fits.
pub fn parse_usize(s: &str) -> (r: Option<usize>)
    ensures
        r == spec_parse_usize(s@),
{
    match parse_dec_bounded(s, usize::MAX as u128) {
        Some(v) => Some(v as usize),
        None => None,
    }
}

/// The decimal digit character for `d`, which must be below ten.
pub open spec fn spec_digit_char(d: nat) -> char {
    if d == 0 {
        '0'
    } else if d == 1 {
        '1'
    } else if d == 2 {
        '2'
    } else if d == 3 {
        '3'
    } else if d == 4 {
        '4'
    } else if d == 5 {
        '5'
    } else if d == 6 {
        '6'
    } else if d == 7 {
        '7'
    } else if d == 8 {
        '8'
    } else {
        '9'
    }
}

/// The decimal representation of `n`, most significant digit first and
/// without leading zeroes (a single `'0'` for zero).
pub open spec fn spec_u32_dec(n: nat) -> Seq<char>
    decreases n,
{
    if n < 10 {
        seq![spec_digit_char(n)]
    } else {
        spec_u32_dec(n / 10).push(spec_digit_char(n % 10))
    }
}

/// The decimal digit character for `d`, which must be below ten.
fn digit_str(d: u32) -> (r: &'static str)
    requires
        d < 10,
    ensures
        r@ == seq![spec_digit_char(d as nat)],
{
    proof {
        reveal_strlit("0");
        reveal_strlit("1");
        reveal_strlit("2");
        reveal_strlit("3");
        reveal_strlit("4");
        reveal_strlit("5");
        reveal_strlit("6");
        reveal_strlit("7");
        reveal_strlit("8");
        reveal_strlit("9");
    }
    let r = if d == 0 {
        "0"
    } else if d == 1 {
        "1"
    } else if d == 2 {
        "2"
    } else if d == 3 {
        "3"
    } else if d == 4 {
        "4"
    } else if d == 5 {
        "5"
    } else if d == 6 {
        "6"
    } else if d == 7 {
        "7"
    } else if d == 8 {
        "8"
    } else {
        "9"
    };
    proof {
        assert(r@ =~= seq![spec_digit_char(d as nat)]);
    }
    r
}

/// The digit characters of the collected low digits, last collected
/// first: collecting runs from the least significant digit upwards, so
/// this reads them back most significant first.
spec fn spec_collected_chars(ds: Seq<u32>) -> Seq<char> {
    Seq::new(ds.len(), |j: int| spec_digit_char(ds[ds.len() - 1 - j] as nat))
}

/// Render `n` as its decimal digits, most significant first.
pub fn u32_to_string(n: u32) -> (r: String)
    ensures
        r@ == spec_u32_dec(n as nat),
{
    let mut digits: Vec<u32> = Vec::new();
    let mut v: u32 = n;
    while v >= 10
        invariant
            spec_u32_dec(n as nat) =~= spec_u32_dec(v as nat) + spec_collected_chars(
                digits.deep_view(),
            ),
            forall|j: int| 0 <= j < digits@.len() ==> #[trigger] digits@[j] < 10,
        decreases v,
    {
        let ghost before = digits.deep_view();
        let d: u32 = v % 10;
        digits.push(d);
        v = v / 10;
        proof {
            assert(spec_u32_dec((10 * (v as nat) + d) as nat) == spec_u32_dec(v as nat).push(
                spec_digit_char(d as nat),
            ));
            assert(digits.deep_view() =~= before.push(d));
            assert(spec_collected_chars(before.push(d)) =~= seq![
                spec_digit_char(d as nat),
            ] + spec_collected_chars(before));
            assert(spec_u32_dec(v as nat).push(spec_digit_char(d as nat))
                + spec_collected_chars(before) =~= spec_u32_dec(v as nat) + (seq![
                spec_digit_char(d as nat),
            ] + spec_collected_chars(before)));
        }
    }
    let mut r: String = digit_str(v).to_owned();
    let count = digits.len();
    let mut appended: usize = 0;
    while appended < count
        invariant
            count == digits@.len(),
            0 <= appended <= count,
            v < 10,
            forall|j: int| 0 <= j < digits@.len() ==> #[trigger] digits@[j] < 10,
            spec_u32_dec(n as nat) =~= spec_u32_dec(v as nat) + spec_collected_chars(
                digits.deep_view(),
            ),
            r@ =~= seq![spec_digit_char(v as nat)] + spec_collected_chars(
                digits.deep_view(),
            ).take(appended as int),
        decreases count - appended,
    {
        let next = digits[count - 1 - appended];
        r.append(digit_str(next));
        proof {
            assert(spec_collected_chars(digits.deep_view())[appended as int] == spec_digit_char(
                digits@[count - 1 - appended] as nat,
            ));
            assert(r@ =~= seq![spec_digit_char(v as nat)] + spec_collected_chars(
                digits.deep_view(),
            ).take(appended as int + 1));
        }
        appended = appended + 1;
    }
    proof {
        assert(spec_collected_chars(digits.deep_view()).take(count as int) =~= spec_collected_chars(
            digits.deep_view(),
        ));
        assert(r@ =~= spec_u32_dec(n as nat));
    }
    r
}

} // verus!
