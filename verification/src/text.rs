//! Strings as sequences of characters.
use vstd::prelude::*;

verus! {

/// The lower-case form of a string, as `str::to_lowercase` gives it.
pub uninterp spec fn lowercase_of(s: Seq<char>) -> Seq<char>;

/// Calls `str::to_lowercase`, which maps the characters of a string to
/// lower case by the tables of Unicode. The contract gives the result the
/// name `lowercase_of` and claims nothing else of it.
#[verifier::external_body]
pub(crate) fn to_lowercase(s: &str) -> (lower: String)
    ensures
        lower@ == lowercase_of(s@),
{
    s.to_lowercase()
}

/// Calls `str::eq`, which tells whether two strings hold the same
/// characters in the same order.
#[verifier::external_body]
pub(crate) fn str_equal(a: &str, b: &str) -> (same: bool)
    ensures
        same == (a@ == b@),
{
    a.eq(b)
}

/// The characters of a string, in order.
pub fn chars_of(s: &str) -> (chars: Vec<char>)
    ensures
        chars@ == s@,
{
    let mut chars: Vec<char> = Vec::new();
    for c in it: s.chars()
        invariant
            it.seq() == s@,
            chars@ == it.seq().take(it.index() as int),
    {
        chars.push(c);
        assert(it.seq().take(it.index() + 1) =~= it.seq().take(it.index() as int).push(c));
    }
    chars
}

/// A string without the white space at its two ends, as `str::trim` gives
/// it.
pub uninterp spec fn trimmed(s: Seq<char>) -> Seq<char>;

/// Calls `str::trim`, which returns the part of a string between its
/// leading and its trailing white space. The contract gives the result the
/// name `trimmed` and claims nothing else of it.
#[verifier::external_body]
pub(crate) fn trim(s: &str) -> (inner: &str)
    ensures
        inner@ == trimmed(s@),
{
    s.trim()
}

/// Calls `String::push`, which appends one character to a string.
#[verifier::external_body]
pub(crate) fn push_char(s: &mut String, c: char)
    ensures
        final(s)@ == old(s)@.push(c),
{
    s.push(c)
}

/// The character that writes the digit `d`.
pub open spec fn digit_char(d: nat) -> char
    recommends
        d < 10,
{
    if d == 0 {
        '0'
    } else if d == 1 {
        '1'
    } else if d == 2 {
        '2'
    } else if d == 3 {
        '3'
    } else if d == 4 {
        '4'
    } else if d == 5 {
        '5'
    } else if d == 6 {
        '6'
    } else if d == 7 {
        '7'
    } else if d == 8 {
        '8'
    } else {
        '9'
    }
}

/// The number `n` written in decimal digits, without leading zeros.
pub open spec fn decimal(n: nat) -> Seq<char>
    decreases n,
{
    if n < 10 {
        seq![digit_char(n)]
    } else {
        decimal(n / 10).push(digit_char(n % 10))
    }
}

/// The digit that the character `c` writes, if it writes one.
pub open spec fn digit_value(c: char) -> Option<nat> {
    if c == '0' {
        Some(0)
    } else if c == '1' {
        Some(1)
    } else if c == '2' {
        Some(2)
    } else if c == '3' {
        Some(3)
    } else if c == '4' {
        Some(4)
    } else if c == '5' {
        Some(5)
    } else if c == '6' {
        Some(6)
    } else if c == '7' {
        Some(7)
    } else if c == '8' {
        Some(8)
    } else if c == '9' {
        Some(9)
    } else {
        None
    }
}

/// Every character of `s` writes a digit.
pub open spec fn all_digits(s: Seq<char>) -> bool {
    forall|i: int| 0 <= i < s.len() ==> digit_value(#[trigger] s[i]) is Some
}

/// The number that the digits `s` write in decimal.
pub open spec fn decimal_value(s: Seq<char>) -> nat
    decreases s.len(),
{
    if s.len() == 0 {
        0
    } else {
        decimal_value(s.drop_last()) * 10 + match digit_value(s.last()) {
            Some(d) => d,
            None => 0,
        }
    }
}

/// The number that `s` writes, if it writes one that is at most `max`: one
/// or more decimal digits, with or without a `+` in front, and nothing else.
pub open spec fn parsed_number(s: Seq<char>, max: nat) -> Option<nat> {
    let digits = if s.len() > 0 && s[0] == '+' {
        s.drop_first()
    } else {
        s
    };
    if digits.len() > 0 && all_digits(digits) && decimal_value(digits) <= max {
        Some(decimal_value(digits))
    } else {
        None
    }
}

/// The strings of `parts` one after the other, with `sep` between each two.
pub open spec fn joined(parts: Seq<Seq<char>>, sep: Seq<char>) -> Seq<char>
    decreases parts.len(),
{
    if parts.len() == 0 {
        Seq::empty()
    } else if parts.len() == 1 {
        parts[0]
    } else {
        joined(parts.drop_last(), sep) + sep + parts.last()
    }
}

/// The views of the strings of `parts`, in the same order.
pub open spec fn string_views(parts: Seq<String>) -> Seq<Seq<char>> {
    Seq::new(parts.len(), |i: int| parts[i]@)
}

/// A number is written by the digits that read back as it.
pub proof fn lemma_decimal_reads_back(n: nat)
    ensures
        decimal(n).len() > 0,
        all_digits(decimal(n)),
        decimal_value(decimal(n)) == n,
    decreases n,
{
    assert(digit_value(digit_char(n % 10)) == Some(n % 10));
    assert(decimal(n).last() == digit_char(n % 10));
    if n >= 10 {
        lemma_decimal_reads_back(n / 10);
        let front = decimal(n / 10);
        assert(decimal(n).drop_last() =~= front);
        assert forall|i: int| 0 <= i < decimal(n).len() implies digit_value(
            #[trigger] decimal(n)[i],
        ) is Some by {
            if i < front.len() {
                assert(decimal(n)[i] == front[i]);
            }
        }
    } else {
        assert(decimal(n).drop_last() =~= Seq::<char>::empty());
        assert(decimal_value(Seq::<char>::empty()) == 0);
    }
    assert(decimal_value(decimal(n)) == decimal_value(decimal(n).drop_last()) * 10 + n % 10);
}

/// More digits behind write no smaller a number.
pub proof fn lemma_decimal_value_grows(s: Seq<char>, n: int)
    requires
        0 <= n <= s.len(),
    ensures
        decimal_value(s.take(n)) <= decimal_value(s),
    decreases s.len() - n,
{
    if n < s.len() {
        lemma_decimal_value_grows(s, n + 1);
        assert(s.take(n + 1).drop_last() =~= s.take(n));
    } else {
        assert(s.take(n) =~= s);
    }
}

fn digit_of(d: u64) -> (c: char)
    requires
        d < 10,
    ensures
        c == digit_char(d as nat),
{
    if d == 0 {
        '0'
    } else if d == 1 {
        '1'
    } else if d == 2 {
        '2'
    } else if d == 3 {
        '3'
    } else if d == 4 {
        '4'
    } else if d == 5 {
        '5'
    } else if d == 6 {
        '6'
    } else if d == 7 {
        '7'
    } else if d == 8 {
        '8'
    } else {
        '9'
    }
}

fn value_of(c: char) -> (d: Option<u64>)
    ensures
        match d {
            Some(d) => digit_value(c) == Some(d as nat) && d < 10,
            None => digit_value(c) is None,
        },
{
    if c == '0' {
        Some(0)
    } else if c == '1' {
        Some(1)
    } else if c == '2' {
        Some(2)
    } else if c == '3' {
        Some(3)
    } else if c == '4' {
        Some(4)
    } else if c == '5' {
        Some(5)
    } else if c == '6' {
        Some(6)
    } else if c == '7' {
        Some(7)
    } else if c == '8' {
        Some(8)
    } else if c == '9' {
        Some(9)
    } else {
        None
    }
}

/// Appends the decimal digits of `n` to `s`.
pub fn push_decimal(s: &mut String, n: u64)
    ensures
        final(s)@ == old(s)@ + decimal(n as nat),
    decreases n,
{
    if n >= 10 {
        push_decimal(s, n / 10);
    }
    push_char(s, digit_of(n % 10));
    assert(s@ =~= old(s)@ + decimal(n as nat));
}

/// The number `n` written in decimal digits.
pub fn decimal_string(n: u64) -> (s: String)
    ensures
        s@ == decimal(n as nat),
{
    let mut s = String::new();
    push_decimal(&mut s, n);
    assert(s@ =~= decimal(n as nat));
    s
}

/// Reads a number of at most `max` from `s`: one or more decimal digits,
/// with or without a `+` in front, and nothing else.
pub fn parse_number(s: &str, max: u32) -> (number: Option<u32>)
    ensures
        match number {
            Some(n) => parsed_number(s@, max as nat) == Some(n as nat),
            None => parsed_number(s@, max as nat) is None,
        },
{
    let chars = chars_of(s);
    let start: usize = if chars.len() > 0 && chars[0] == '+' {
        1
    } else {
        0
    };
    let ghost digits = if start == 1 {
        chars@.drop_first()
    } else {
        chars@
    };
    if start == chars.len() {
        return None;
    }
    let mut value: u64 = 0;
    let mut i: usize = start;
    assert(digits.take(0) =~= Seq::<char>::empty());
    while i < chars.len()
        invariant
            start <= i <= chars.len(),
            start <= 1,
            chars@ == s@,
            start == 1 <==> chars@.len() > 0 && chars@[0] == '+',
            digits == if start == 1 {
                chars@.drop_first()
            } else {
                chars@
            },
            digits.len() == chars.len() - start,
            forall|k: int| 0 <= k < digits.len() ==> digits[k] == chars@[k + start],
            all_digits(digits.take(i - start)),
            value == decimal_value(digits.take(i - start)),
            value <= max,
        decreases chars.len() - i,
    {
        proof {
            assert(digits.take(i - start + 1).drop_last() =~= digits.take(i - start));
            assert(digits.take(i - start + 1).last() == chars@[i as int]);
            lemma_decimal_value_grows(digits, i - start + 1);
        }
        match value_of(chars[i]) {
            Some(d) => {
                let next: u64 = value * 10 + d;
                assert(next == decimal_value(digits.take(i - start + 1)));
                if next > max as u64 {
                    return None;
                }
                value = next;
                proof {
                    assert forall|k: int| 0 <= k < i - start + 1 implies digit_value(
                        #[trigger] digits.take(i - start + 1)[k],
                    ) is Some by {
                        if k < i - start {
                            assert(digits.take(i - start)[k] == digits[k]);
                        }
                    }
                }
            },
            None => {
                assert(digit_value(digits[i - start]) is None);
                assert(!all_digits(digits));
                return None;
            },
        }
        i += 1;
    }
    assert(digits.take(i - start) =~= digits);
    Some(value as u32)
}

/// The strings of `parts` one after the other, with `sep` between each two.
pub fn join(parts: &[String], sep: &str) -> (whole: String)
    ensures
        whole@ == joined(string_views(parts@), sep@),
{
    let ghost views = string_views(parts@);
    let mut whole = String::new();
    let mut i: usize = 0;
    assert(views.take(0) =~= Seq::<Seq<char>>::empty());
    while i < parts.len()
        invariant
            i <= parts.len(),
            views == string_views(parts@),
            whole@ == joined(views.take(i as int), sep@),
        decreases parts.len() - i,
    {
        proof {
            assert(views.take(i + 1).drop_last() =~= views.take(i as int));
            assert(views.take(i + 1).last() == parts@[i as int]@);
        }
        if i > 0 {
            whole.append(sep);
        }
        whole.append(parts[i].as_str());
        proof {
            if i == 0 {
                assert(whole@ =~= parts@[0]@);
                assert(views.take(1)[0] == parts@[0]@);
            }
        }
        i += 1;
    }
    assert(views.take(i as int) =~= views);
    whole
}

} // verus!
