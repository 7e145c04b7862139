//! Decimal numerals, written and read, and comma-separated lines.

use vstd::prelude::*;
use vstd::string::*;

verus! {

/// The character of one decimal digit.
pub open spec fn digit_char(d: nat) -> char {
    if d == 0 {
        '0'
    } else if d == 1 {
        '1'
    } else if d == 2 {
        '2'
    } else if d == 3 {
        '3'
    } else if d == 4 {
        '4'
    } else if d == 5 {
        '5'
    } else if d == 6 {
        '6'
    } else if d == 7 {
        '7'
    } else if d == 8 {
        '8'
    } else {
        '9'
    }
}

/// The decimal numeral of `n`: no sign, no leading zero (but "0" itself).
pub open spec fn decimal(n: nat) -> Seq<char>
    decreases n,
{
    if n < 10 {
        seq![digit_char(n)]
    } else {
        decimal(n / 10).push(digit_char(n % 10))
    }
}

/// `n` below 1000 as exactly three digits, zeros in front.
pub open spec fn three_digits(n: nat) -> Seq<char> {
    seq![digit_char(n / 100 % 10), digit_char(n / 10 % 10), digit_char(n % 10)]
}

/// A count of milliseconds as seconds with three decimal places.
pub open spec fn seconds_text(millis: nat) -> Seq<char> {
    decimal(millis / 1000).push('.') + three_digits(millis % 1000)
}

/// The fields of a line with `sep` between each two neighbours.
pub open spec fn joined(fields: Seq<Seq<char>>, sep: char) -> Seq<char>
    decreases fields.len(),
{
    if fields.len() == 0 {
        Seq::empty()
    } else if fields.len() == 1 {
        fields[0]
    } else {
        joined(fields.drop_last(), sep).push(sep) + fields.last()
    }
}

/// A field that is there only if `on`.
pub open spec fn field_if(on: bool, field: Seq<char>) -> Seq<Seq<char>> {
    if on {
        seq![field]
    } else {
        Seq::empty()
    }
}

/// The views of a vector of strings.
pub open spec fn views(fields: Seq<String>) -> Seq<Seq<char>> {
    fields.map_values(|s: String| s@)
}

/// One decimal digit as text.
fn digit_str(d: u8) -> (s: &'static str)
    requires
        d < 10,
    ensures
        s@ == seq![digit_char(d as nat)],
{
    proof {
        reveal_strlit("0");
        reveal_strlit("1");
        reveal_strlit("2");
        reveal_strlit("3");
        reveal_strlit("4");
        reveal_strlit("5");
        reveal_strlit("6");
        reveal_strlit("7");
        reveal_strlit("8");
        reveal_strlit("9");
    }
    let s = match d {
        0 => "0",
        1 => "1",
        2 => "2",
        3 => "3",
        4 => "4",
        5 => "5",
        6 => "6",
        7 => "7",
        8 => "8",
        _ => "9",
    };
    assert(s@ =~= seq![digit_char(d as nat)]);
    s
}

/// Renders `n` in decimal, as `{}` does for an unsigned integer.
pub fn decimal_string(n: u128) -> (s: String)
    ensures
        s@ == decimal(n as nat),
    decreases n,
{
    if n < 10 {
        let s = String::from_str(digit_str(n as u8));
        s
    } else {
        let mut s = decimal_string(n / 10);
        s.append(digit_str((n % 10) as u8));
        assert(s@ =~= decimal(n as nat));
        s
    }
}

/// Renders a count of milliseconds as seconds with three decimal places.
pub fn seconds_string(millis: u128) -> (s: String)
    ensures
        s@ == seconds_text(millis as nat),
{
    let frac: u128 = millis % 1000;
    let mut s = decimal_string(millis / 1000);
    proof {
        reveal_strlit(".");
    }
    s.append(".");
    s.append(digit_str((frac / 100 % 10) as u8));
    s.append(digit_str((frac / 10 % 10) as u8));
    s.append(digit_str((frac % 10) as u8));
    assert(s@ =~= seconds_text(millis as nat));
    s
}

/// Joins the fields of a line with commas.
pub fn join_fields(fields: &Vec<String>) -> (line: String)
    ensures
        line@ == joined(views(fields@), ','),
{
    let mut line = String::new();
    let mut i: usize = 0;
    proof {
        reveal_strlit(",");
        assert(views(fields@).take(0) =~= Seq::<Seq<char>>::empty());
    }
    while i < fields.len()
        invariant
            i <= fields.len(),
            ","@ == seq![','],
            line@ == joined(views(fields@).take(i as int), ','),
        decreases fields.len() - i,
    {
        if i != 0 {
            line.append(",");
        }
        line.append(fields[i].as_str());
        proof {
            let before = views(fields@).take(i as int);
            let after = views(fields@).take(i + 1);
            assert(after.drop_last() =~= before);
            assert(after.last() == fields@[i as int]@);
            if i == 0 {
                assert(line@ =~= after[0]);
            }
        }
        i += 1;
    }
    proof {
        assert(views(fields@).take(fields.len() as int) =~= views(fields@));
    }
    line
}

/// Whether `word` stands somewhere in `text`.
pub open spec fn occurs_in(word: Seq<char>, text: Seq<char>) -> bool {
    exists|i: int|
        0 <= i && i + word.len() <= text.len() && #[trigger] text.subrange(i, i + word.len())
            == word
}

/// Tells whether `word` stands somewhere in `text`.
pub fn contains(text: &str, word: &str) -> (found: bool)
    ensures
        found == occurs_in(word@, text@),
{
    let n: usize = text.unicode_len();
    let m: usize = word.unicode_len();
    if m > n {
        return false;
    }
    if m == 0 {
        assert(text@.subrange(0int, 0int + word@.len()) =~= word@);
        return true;
    }
    let mut i: usize = 0;
    while i <= n - m
        invariant
            n == text@.len(),
            m == word@.len(),
            0 < m <= n,
            i <= n - m + 1,
            forall|k: int| 0 <= k < i ==> #[trigger] text@.subrange(k, k + m) != word@,
        decreases n - m + 1 - i,
    {
        let mut j: usize = 0;
        let mut same = true;
        while same && j < m
            invariant
                n == text@.len(),
                m == word@.len(),
                i + m <= n,
                j <= m,
                same ==> forall|l: int| 0 <= l < j ==> text@[i + l] == word@[l],
                !same ==> text@.subrange(i as int, i + m) != word@,
            decreases m - j, same as int,
        {
            if text.get_char(i + j) != word.get_char(j) {
                same = false;
                assert(text@.subrange(i as int, i + m)[j as int] != word@[j as int]);
            } else {
                j += 1;
            }
        }
        if same {
            assert(text@.subrange(i as int, i + m) =~= word@);
            return true;
        }
        i += 1;
    }
    false
}

/// Why a text is no unsigned number.
#[derive(Debug, Clone, Copy, PartialEq, Eq)]
pub enum NumberError {
    /// The text is empty.
    Empty,
    /// The text holds something other than decimal digits behind an optional `+`,
    /// or no digit at all.
    InvalidDigit,
    /// The digits stand for a number above `u64::MAX`.
    Overflow,
}

/// Whether `c` is one of `0` to `9`.
pub open spec fn is_digit(c: char) -> bool {
    '0' <= c && c <= '9'
}

/// Whether every character of `s` is a decimal digit.
pub open spec fn all_digits(s: Seq<char>) -> bool {
    forall|i: int| 0 <= i < s.len() ==> is_digit(#[trigger] s[i])
}

/// The number that a sequence of decimal digits stands for.
pub open spec fn digits_value(s: Seq<char>) -> nat
    decreases s.len(),
{
    if s.len() == 0 {
        0
    } else {
        digits_value(s.drop_last()) * 10 + ((s.last() as u32 - '0' as u32) as nat)
    }
}

/// The text without the `+` that may stand in front of it.
pub open spec fn unsigned_part(s: Seq<char>) -> Seq<char> {
    if s.len() > 0 && s[0] == '+' {
        s.subrange(1, s.len() as int)
    } else {
        s
    }
}

/// What a text means as an unsigned number: an optional `+`, then one or
/// more decimal digits whose value fits in 64 bits.
pub open spec fn parsed_u64(s: Seq<char>) -> Result<u64, NumberError> {
    let digits = unsigned_part(s);
    if s.len() == 0 {
        Err(NumberError::Empty)
    } else if digits.len() == 0 || !all_digits(digits) {
        Err(NumberError::InvalidDigit)
    } else if digits_value(digits) > u64::MAX {
        Err(NumberError::Overflow)
    } else {
        Ok(digits_value(digits) as u64)
    }
}

/// A numeral is made of digits only and stands for its number.
pub proof fn lemma_decimal_is_digits(n: nat)
    ensures
        decimal(n).len() > 0,
        all_digits(decimal(n)),
        digits_value(decimal(n)) == n,
    decreases n,
{
    if n < 10 {
        assert(decimal(n).drop_last() =~= Seq::<char>::empty());
        assert(digits_value(decimal(n).drop_last()) == 0);
    } else {
        lemma_decimal_is_digits(n / 10);
        assert(decimal(n).drop_last() =~= decimal(n / 10));
        assert(decimal(n).last() == digit_char(n % 10));
        assert forall|i: int| 0 <= i < decimal(n).len() implies is_digit(
            #[trigger] decimal(n)[i],
        ) by {
            if i < decimal(n / 10).len() {
                assert(decimal(n)[i] == decimal(n / 10)[i]);
            }
        }
    }
}

/// Reading the numeral of a number that fits in 64 bits gives the number back.
pub proof fn lemma_decimal_parses_back(n: u64)
    ensures
        parsed_u64(decimal(n as nat)) == Ok::<u64, NumberError>(n),
{
    lemma_decimal_is_digits(n as nat);
    assert(is_digit(decimal(n as nat)[0]));
}

/// Reads an unsigned decimal number.
pub fn parse_u64(arg: &str) -> (r: Result<u64, NumberError>)
    ensures
        r == parsed_u64(arg@),
{
    broadcast use is_ascii_spec_bytes;

    if !arg.is_ascii() {
        proof {
            let i = choose|i: int| 0 <= i < arg@.len() && !('\0' <= #[trigger] arg@[i] <= '\u{7f}');
            let digits = unsigned_part(arg@);
            if arg@[0] == '+' {
                assert(digits[i - 1] == arg@[i]);
                assert(!is_digit(digits[i - 1]));
            } else {
                assert(!is_digit(digits[i]));
            }
        }
        return Err(NumberError::InvalidDigit);
    }
    let n: usize = arg.unicode_len();
    if n == 0 {
        return Err(NumberError::Empty);
    }
    let start: usize = if arg.get_ascii(0) == 43u8 { 1 } else { 0 };
    let ghost digits = unsigned_part(arg@);
    assert(digits.len() == n - start);
    assert(forall|k: int| 0 <= k < digits.len() ==> digits[k] == arg@[k + start]);
    if start == n {
        return Err(NumberError::InvalidDigit);
    }
    let mut value: u64 = 0;
    let mut overflow = false;
    let mut i: usize = start;
    proof {
        assert(digits.take(0) =~= Seq::<char>::empty());
    }
    while i < n
        invariant
            start <= i <= n,
            n == arg@.len(),
            arg.is_ascii(),
            digits == unsigned_part(arg@),
            digits.len() == n - start,
            forall|k: int| 0 <= k < digits.len() ==> digits[k] == arg@[k + start],
            all_digits(digits.take(i - start)),
            !overflow ==> value == digits_value(digits.take(i - start)),
            overflow ==> digits_value(digits.take(i - start)) > u64::MAX,
        decreases n - i,
    {
        let b: u8 = arg.get_ascii(i);
        let ghost c = arg@[i as int];
        assert(c == digits[i - start]);
        assert('\0' <= c <= '\u{7f}');
        assert(c as u32 == b as u32);
        if b < 48 || b > 57 {
            assert(!is_digit(digits[i - start]));
            return Err(NumberError::InvalidDigit);
        }
        let d: u64 = (b - 48) as u64;
        proof {
            let before = digits.take(i - start);
            let after = digits.take(i - start + 1);
            assert(after.drop_last() =~= before);
            assert(after.last() == c);
            assert(digits_value(after) == digits_value(before) * 10 + d);
            assert forall|k: int| 0 <= k < after.len() implies is_digit(#[trigger] after[k]) by {
                if k < before.len() {
                    assert(after[k] == before[k]);
                }
            }
        }
        if !overflow {
            if value > (u64::MAX - d) / 10 {
                overflow = true;
            } else {
                value = value * 10 + d;
            }
        }
        i += 1;
    }
    proof {
        assert(digits.take(n - start) =~= digits);
    }
    if overflow {
        Err(NumberError::Overflow)
    } else {
        Ok(value)
    }
}

} // verus!
