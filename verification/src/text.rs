use vstd::prelude::*;
use vstd::string::*;
use vstd::utf8::*;

verus! {

/// Whether two strings hold the same characters.
pub fn str_eq(a: &str, b: &str) -> (same: bool)
    ensures
        same == (a@ == b@),
{
    let x = a.as_bytes();
    let y = b.as_bytes();
    proof {
        encode_utf8_decode_utf8(a@);
        encode_utf8_decode_utf8(b@);
    }
    if x.len() != y.len() {
        return false;
    }
    let mut i: usize = 0;
    while i < x.len()
        invariant
            i <= x@.len(),
            x@.len() == y@.len(),
            x@ == a.spec_bytes(),
            y@ == b.spec_bytes(),
            forall|j: int| 0 <= j < i ==> x@[j] == y@[j],
        decreases x@.len() - i,
    {
        if x[i] != y[i] {
            return false;
        }
        i += 1;
    }
    assert(x@ =~= y@);
    true
}

/// Whether `s` begins with the characters of `prefix`.
pub open spec fn has_prefix(s: Seq<char>, prefix: Seq<char>) -> bool {
    prefix.len() <= s.len() && s.subrange(0, prefix.len() as int) == prefix
}

pub fn starts_with(s: &str, prefix: &str) -> (yes: bool)
    ensures
        yes == has_prefix(s@, prefix@),
{
    let n = prefix.unicode_len();
    if n > s.unicode_len() {
        return false;
    }
    str_eq(s.substring_char(0, n), prefix)
}

/// Whether `c` is one of the ten decimal digits.
pub open spec fn is_digit(c: char) -> bool {
    '0' <= c && c <= '9'
}

/// The number that a decimal digit stands for.
pub open spec fn digit_value(c: char) -> int {
    c as int - '0' as int
}

/// Whether `s` holds decimal digits only.
pub open spec fn all_digits(s: Seq<char>) -> bool {
    forall|i: int| 0 <= i < s.len() ==> is_digit(#[trigger] s[i])
}

/// The number that a run of decimal digits stands for.
pub open spec fn digits_value(s: Seq<char>) -> int
    decreases s.len(),
{
    if s.len() == 0 {
        0
    } else {
        digits_value(s.drop_last()) * 10 + digit_value(s.last())
    }
}

/// The integer that `s` spells in decimal: an optional sign, then at least one
/// digit, and nothing else. `None` for any other text.
pub open spec fn decimal_value(s: Seq<char>) -> Option<int> {
    if s.len() > 0 && s[0] == '-' {
        if s.len() > 1 && all_digits(s.skip(1)) {
            Some(-digits_value(s.skip(1)))
        } else {
            None
        }
    } else if s.len() > 0 && s[0] == '+' {
        if s.len() > 1 && all_digits(s.skip(1)) {
            Some(digits_value(s.skip(1)))
        } else {
            None
        }
    } else if s.len() > 0 && all_digits(s) {
        Some(digits_value(s))
    } else {
        None
    }
}

/// The `i64` that `s` spells in decimal, if it spells an integer that fits.
pub open spec fn decimal_i64(s: Seq<char>) -> Option<i64> {
    match decimal_value(s) {
        Some(v) => if i64::MIN <= v <= i64::MAX {
            Some(v as i64)
        } else {
            None
        },
        None => None,
    }
}

/// What a scan over a run of digits found.
enum Digits {
    /// The run is empty or holds something that is no digit.
    Invalid,
    /// The run stands for a number above 2^63.
    TooLarge,
    /// The run stands for the negation of this number.
    Negated(i64),
}

proof fn lemma_digits_value_step(s: Seq<char>, start: int, end: int)
    requires
        0 <= start <= end < s.len(),
    ensures
        digits_value(s.subrange(start, end + 1)) == digits_value(s.subrange(start, end)) * 10
            + digit_value(s[end]),
{
    let longer = s.subrange(start, end + 1);
    assert(longer.drop_last() =~= s.subrange(start, end));
    assert(longer.last() == s[end]);
}

/// Reads the digits of `s` from `start` to its end, accumulating downward so
/// that the most negative `i64` is reached without overflow.
fn scan_digits(s: &str, start: usize) -> (found: Digits)
    requires
        s.is_ascii(),
        start <= s@.len(),
    ensures
        found is Invalid <==> !(s@.len() > start && all_digits(s@.skip(start as int))),
        found matches Digits::Negated(n) ==> n == -digits_value(s@.skip(start as int)),
        found is TooLarge ==> digits_value(s@.skip(start as int)) > 0x8000_0000_0000_0000,
{
    proof {
        is_ascii_spec_bytes(s);
        assert(is_ascii(s));
        assert(s.spec_bytes().len() == s@.len());
    }
    let bytes = s.as_bytes();
    let n = bytes.len();
    if start >= n {
        return Digits::Invalid;
    }
    let mut acc: i64 = 0;
    let mut too_large = false;
    let mut i: usize = start;
    while i < n
        invariant
            s.is_ascii(),
            bytes@ == s.spec_bytes(),
            n == s@.len(),
            start <= i <= n,
            acc <= 0,
            all_digits(s@.subrange(start as int, i as int)),
            !too_large ==> acc == -digits_value(s@.subrange(start as int, i as int)),
            too_large ==> digits_value(s@.subrange(start as int, i as int)) > 0x8000_0000_0000_0000,
        decreases n - i,
    {
        proof {
            is_ascii_spec_bytes(s);
        }
        let b = bytes[i];
        if b < 48 || b > 57 {
            proof {
                let c = s@[i as int];
                assert(s@.skip(start as int)[i - start] == c);
                assert(!is_digit(c));
            }
            return Digits::Invalid;
        }
        let d: i64 = (b - 48) as i64;
        proof {
            let c = s@[i as int];
            assert(is_digit(c));
            assert(digit_value(c) == d);
            lemma_digits_value_step(s@, start as int, i as int);
            assert forall|j: int| 0 <= j < i + 1 - start implies is_digit(
                #[trigger] s@.subrange(start as int, i + 1)[j],
            ) by {
                if j < i - start {
                    assert(s@.subrange(start as int, i as int)[j] == s@.subrange(
                        start as int,
                        i + 1,
                    )[j]);
                }
            }
        }
        if !too_large {
            let next: i128 = (acc as i128) * 10 - (d as i128);
            if next < i64::MIN as i128 {
                too_large = true;
            } else {
                acc = next as i64;
            }
        }
        i += 1;
    }
    proof {
        assert(s@.subrange(start as int, n as int) =~= s@.skip(start as int));
    }
    if too_large {
        Digits::TooLarge
    } else {
        Digits::Negated(acc)
    }
}

/// Text that spells an integer holds ASCII characters only.
proof fn lemma_decimal_is_ascii(s: Seq<char>)
    requires
        decimal_value(s) is Some,
    ensures
        is_ascii_chars(s),
{
    assert forall|i: int| 0 <= i < s.len() implies '\0' <= #[trigger] s[i] <= '\u{7f}' by {
        if i == 0 {
            if s[0] != '-' && s[0] != '+' {
                assert(is_digit(s[0]));
            }
        } else if s[0] == '-' || s[0] == '+' {
            assert(is_digit(s.skip(1)[i - 1]));
        } else {
            assert(is_digit(s[i]));
        }
    }
}

/// Reads a decimal integer: an optional `+` or `-`, then digits. Any other
/// text, and any number that an `i64` cannot hold, gives `None`.
pub fn parse_i64(s: &str) -> (value: Option<i64>)
    ensures
        value == decimal_i64(s@),
{
    proof {
        is_ascii_spec_bytes(s);
    }
    if !s.is_ascii() {
        proof {
            if decimal_value(s@) is Some {
                lemma_decimal_is_ascii(s@);
            }
        }
        return None;
    }
    let bytes = s.as_bytes();
    if bytes.len() == 0 {
        return None;
    }
    let first = bytes[0];
    if first == 45 {
        assert(s@[0] == '-');
        match scan_digits(s, 1) {
            Digits::Negated(n) => Some(n),
            _ => None,
        }
    } else if first == 43 {
        assert(s@[0] == '+');
        match scan_digits(s, 1) {
            Digits::Negated(n) => if n == i64::MIN {
                None
            } else {
                Some(-n)
            },
            _ => None,
        }
    } else {
        assert(s@[0] != '-' && s@[0] != '+');
        assert(s@.skip(0) =~= s@);
        match scan_digits(s, 0) {
            Digits::Negated(n) => if n == i64::MIN {
                None
            } else {
                Some(-n)
            },
            _ => None,
        }
    }
}

/// The `u16` that `s` spells in decimal: digits, with `+` before them or no
/// sign, that stand for a number up to 65535.
pub open spec fn decimal_u16(s: Seq<char>) -> Option<u16> {
    if s.len() > 0 && s[0] == '-' {
        None
    } else {
        match decimal_value(s) {
            Some(v) => if 0 <= v <= u16::MAX {
                Some(v as u16)
            } else {
                None
            },
            None => None,
        }
    }
}

/// Reads a decimal number up to 65535. A minus sign is not accepted, not
/// even before zero.
pub fn parse_u16(s: &str) -> (value: Option<u16>)
    ensures
        value == decimal_u16(s@),
{
    proof {
        is_ascii_spec_bytes(s);
    }
    if !s.is_ascii() {
        proof {
            if decimal_value(s@) is Some {
                lemma_decimal_is_ascii(s@);
            }
        }
        return None;
    }
    let bytes = s.as_bytes();
    if bytes.len() > 0 && bytes[0] == 45 {
        assert(s@[0] == '-');
        return None;
    }
    assert(!(s@.len() > 0 && s@[0] == '-'));
    match parse_i64(s) {
        Some(v) => if 0 <= v && v <= 65535 {
            Some(v as u16)
        } else {
            None
        },
        None => None,
    }
}

/// The character that writes a digit from 0 to 9.
pub open spec fn digit_char(d: int) -> char
    recommends
        0 <= d <= 9,
{
    ((d + 48) as u8) as char
}

/// A natural number in decimal, without leading zeros.
pub open spec fn natural_text(n: nat) -> Seq<char>
    decreases n,
{
    if n < 10 {
        seq![digit_char(n as int)]
    } else {
        natural_text(n / 10).push(digit_char((n % 10) as int))
    }
}

/// An integer in decimal: a minus sign where it is negative, then its
/// magnitude without leading zeros.
pub open spec fn decimal_text(n: int) -> Seq<char> {
    if n < 0 {
        seq!['-'] + natural_text((-n) as nat)
    } else {
        natural_text(n as nat)
    }
}

/// A natural number in decimal with at least two digits: a number below ten
/// has a zero before it.
pub open spec fn padded_text(n: nat) -> Seq<char> {
    if n < 10 {
        seq!['0'] + natural_text(n)
    } else {
        natural_text(n)
    }
}

/// A number below one hundred is padded to exactly two digits.
pub proof fn lemma_padded_is_two_digits(n: nat)
    requires
        n < 100,
    ensures
        padded_text(n).len() == 2,
        is_digit(padded_text(n)[0]),
        is_digit(padded_text(n)[1]),
{
    if n >= 10 {
        assert(natural_text(n) == natural_text(n / 10).push(digit_char((n % 10) as int)));
        assert(natural_text(n / 10) == seq![digit_char((n / 10) as int)]);
    }
}

/// The decimal text of a natural number is a run of digits that stands for
/// the number.
pub proof fn lemma_natural_text_reads_back(n: nat)
    ensures
        natural_text(n).len() > 0,
        all_digits(natural_text(n)),
        digits_value(natural_text(n)) == n,
    decreases n,
{
    let text = natural_text(n);
    if n < 10 {
        assert(text.len() == 1);
        assert(is_digit(text[0]));
        assert(text.drop_last() =~= Seq::<char>::empty());
        assert(digits_value(text.drop_last()) == 0);
        assert(digit_value(text.last()) == n);
    } else {
        lemma_natural_text_reads_back(n / 10);
        let head = natural_text(n / 10);
        let digit = digit_char((n % 10) as int);
        assert(text == head.push(digit));
        assert(text.drop_last() =~= head);
        assert(text.last() == digit);
        assert(is_digit(digit));
        assert(digit_value(digit) == n % 10);
        assert forall|i: int| 0 <= i < text.len() implies is_digit(#[trigger] text[i]) by {
            if i < head.len() {
                assert(text[i] == head[i]);
            }
        }
    }
}

/// What is written for an integer reads back as that integer.
pub proof fn lemma_decimal_text_reads_back(n: int)
    ensures
        decimal_value(decimal_text(n)) == Some(n),
        i64::MIN <= n <= i64::MAX ==> decimal_i64(decimal_text(n)) == Some(n as i64),
{
    let text = decimal_text(n);
    if n < 0 {
        let digits = natural_text((-n) as nat);
        lemma_natural_text_reads_back((-n) as nat);
        assert(text[0] == '-');
        assert(text.skip(1) =~= digits);
    } else {
        lemma_natural_text_reads_back(n as nat);
        assert(is_digit(text[0]));
    }
}

/// The one-character text of a digit.
fn digit_str(d: u64) -> (text: &'static str)
    requires
        d <= 9,
    ensures
        text@ == seq![digit_char(d as int)],
{
    proof {
        reveal_strlit("0");
        reveal_strlit("1");
        reveal_strlit("2");
        reveal_strlit("3");
        reveal_strlit("4");
        reveal_strlit("5");
        reveal_strlit("6");
        reveal_strlit("7");
        reveal_strlit("8");
        reveal_strlit("9");
    }
    let text = if d == 0 {
        "0"
    } else if d == 1 {
        "1"
    } else if d == 2 {
        "2"
    } else if d == 3 {
        "3"
    } else if d == 4 {
        "4"
    } else if d == 5 {
        "5"
    } else if d == 6 {
        "6"
    } else if d == 7 {
        "7"
    } else if d == 8 {
        "8"
    } else {
        "9"
    };
    assert(text@ =~= seq![digit_char(d as int)]);
    text
}

/// Appends a natural number in decimal.
pub fn push_natural(out: &mut String, n: u64)
    ensures
        final(out)@ == old(out)@ + natural_text(n as nat),
    decreases n,
{
    if n >= 10 {
        push_natural(out, n / 10);
    }
    let ghost before = out@;
    out.append(digit_str(n % 10));
    proof {
        if n >= 10 {
            assert(out@ =~= old(out)@ + natural_text((n / 10) as nat).push(
                digit_char((n % 10) as int),
            ));
        } else {
            assert(out@ =~= old(out)@ + seq![digit_char(n as int)]);
        }
    }
}

/// Appends an integer in decimal.
pub fn push_decimal(out: &mut String, n: i64)
    ensures
        final(out)@ == old(out)@ + decimal_text(n as int),
{
    if n < 0 {
        proof {
            reveal_strlit("-");
        }
        out.append("-");
        let magnitude: u64 = ((-(n + 1)) as u64) + 1;
        push_natural(out, magnitude);
        assert(out@ =~= old(out)@ + (seq!['-'] + natural_text((-n) as nat)));
    } else {
        push_natural(out, n as u64);
    }
}

/// An integer in decimal.
pub fn decimal_string(n: i64) -> (text: String)
    ensures
        text@ == decimal_text(n as int),
{
    let mut text = String::new();
    push_decimal(&mut text, n);
    assert(text@ =~= decimal_text(n as int));
    text
}

/// Appends a natural number in decimal with at least two digits.
pub fn push_padded(out: &mut String, n: u64)
    ensures
        final(out)@ == old(out)@ + padded_text(n as nat),
{
    if n < 10 {
        proof {
            reveal_strlit("0");
        }
        out.append("0");
    }
    push_natural(out, n);
    assert(out@ =~= old(out)@ + padded_text(n as nat));
}

/// The two texts, one after the other.
pub fn join(head: &str, tail: &str) -> (joined: String)
    ensures
        joined@ == head@ + tail@,
{
    let mut joined = head.to_owned();
    joined.append(tail);
    joined
}

} // verus!
