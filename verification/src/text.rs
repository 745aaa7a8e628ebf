//! Characters, decimal numbers and ASCII case, as the other modules need them.
use vstd::prelude::*;
use vstd::string::*;

verus! {

/// The position of the first `c` in `s`, or the length of `s` where there is none.
pub open spec fn first_index(s: Seq<char>, c: char) -> int
    decreases s.len(),
{
    if s.len() == 0 || s[0] == c {
        0
    } else {
        1 + first_index(s.drop_first(), c)
    }
}

/// The position of the last `c` in `s`, or -1 where there is none.
pub open spec fn last_index(s: Seq<char>, c: char) -> int
    decreases s.len(),
{
    if s.len() == 0 || s.last() == c {
        s.len() - 1
    } else {
        last_index(s.drop_last(), c)
    }
}

/// `c` in lower case, where it is one of the letters from A to Z.
pub open spec fn ascii_lower(c: char) -> char {
    if 'A' <= c && c <= 'Z' {
        (c as u32 + 32) as char
    } else {
        c
    }
}

/// `s` with the letters from A to Z in lower case.
pub open spec fn lowered(s: Seq<char>) -> Seq<char> {
    s.map_values(|c: char| ascii_lower(c))
}

pub open spec fn is_digit(c: char) -> bool {
    '0' <= c && c <= '9'
}

pub open spec fn digit(n: nat) -> char {
    ('0' as u32 + n) as char
}

/// `n` in decimal notation.
pub open spec fn decimal(n: nat) -> Seq<char>
    decreases n,
{
    if n < 10 {
        seq![digit(n)]
    } else {
        decimal(n / 10).push(digit(n % 10))
    }
}

pub open spec fn all_digits(s: Seq<char>) -> bool {
    forall|i: int| 0 <= i < s.len() ==> is_digit(#[trigger] s[i])
}

/// The number that the decimal digits `s` stand for.
pub open spec fn digits_value(s: Seq<char>) -> nat
    decreases s.len(),
{
    if s.len() == 0 {
        0
    } else {
        (10 * digits_value(s.drop_last()) + (s.last() as u32 - '0' as u32)) as nat
    }
}

/// `s` without a plus sign in front.
pub open spec fn unsigned(s: Seq<char>) -> Seq<char> {
    if s.len() > 0 && s[0] == '+' {
        s.drop_first()
    } else {
        s
    }
}

/// The number that `s` stands for: decimal digits, of which there is at least one,
/// with or without a plus sign in front. A number too large for `u16` is none.
pub open spec fn u16_value(s: Seq<char>) -> Option<u16> {
    let digits = unsigned(s);
    if digits.len() > 0 && all_digits(digits) && digits_value(digits) <= u16::MAX {
        Some(digits_value(digits) as u16)
    } else {
        None
    }
}

/// [`str::to_ascii_lowercase`] maps the letters from A to Z to lower case and keeps
/// every other character.
pub assume_specification[ str::to_ascii_lowercase ](s: &str) -> (r: String)
    ensures
        r@ == lowered(s@),
;

/// The characters of `s`, one by one.
pub(crate) fn chars_of(s: &str) -> (chars: Vec<char>)
    ensures
        chars@ == s@,
{
    let mut chars: Vec<char> = Vec::new();
    for c in it: s.chars()
        invariant
            it.seq() == s@,
            chars@ == it.seq().take(it.index() as int),
    {
        chars.push(c);
        assert(it.seq().take(it.index() + 1) == it.seq().take(it.index() as int).push(c));
    }
    assert(s@.take(s@.len() as int) == s@);
    chars
}

/// `a` followed by `b`.
pub(crate) fn joined(a: &str, b: &str) -> (r: String)
    ensures
        r@ == a@ + b@,
{
    let mut s = a.to_owned();
    s.append(b);
    s
}

/// Whether two strings hold the same characters.
pub(crate) fn same_text(a: &str, b: &str) -> (same: bool)
    ensures
        same == (a@ == b@),
{
    a.to_owned() == b.to_owned()
}

/// The position of the last `c` in `chars`.
pub(crate) fn find_last(chars: &Vec<char>, c: char) -> (found: Option<usize>)
    ensures
        match found {
            Some(k) => last_index(chars@, c) == k,
            None => last_index(chars@, c) == -1,
        },
{
    let mut n: usize = chars.len();
    assert(chars@.take(n as int) == chars@);
    while n > 0
        invariant
            n <= chars.len(),
            last_index(chars@.take(n as int), c) == last_index(chars@, c),
        decreases n,
    {
        assert(chars@.take(n as int).drop_last() == chars@.take(n - 1));
        if chars[n - 1] == c {
            return Some(n - 1);
        }
        n = n - 1;
    }
    None
}

/// Whether `c` is among `chars`.
pub(crate) fn has_char(chars: &Vec<char>, c: char) -> (found: bool)
    ensures
        found == chars@.contains(c),
{
    for i in 0..chars.len()
        invariant
            forall|j: int| 0 <= j < i ==> chars@[j] != c,
    {
        if chars[i] == c {
            return true;
        }
    }
    false
}

/// The number that `chars` stand for from position `from` on.
pub(crate) fn parse_u16(chars: &Vec<char>, from: usize) -> (value: Option<u16>)
    requires
        from <= chars.len(),
    ensures
        value == u16_value(chars@.skip(from as int)),
{
    let ghost tail = chars@.skip(from as int);
    let start: usize = if from < chars.len() && chars[from] == '+' {
        from + 1
    } else {
        from
    };
    let ghost digits = unsigned(tail);
    assert(digits == chars@.skip(start as int));
    if start == chars.len() {
        return None;
    }
    let mut value: u32 = 0;
    let mut i: usize = start;
    assert(digits.take(0).len() == 0);
    while i < chars.len()
        invariant
            start <= i <= chars.len(),
            digits == chars@.skip(start as int),
            digits == unsigned(chars@.skip(from as int)),
            all_digits(digits.take(i - start)),
            value == digits_value(digits.take(i - start)),
            value <= u16::MAX,
        decreases chars.len() - i,
    {
        let c = chars[i];
        let ghost seen = digits.take(i - start);
        let ghost more = digits.take(i - start + 1);
        assert(more.drop_last() == seen);
        assert(more.last() == c);
        assert(more[i - start] == digits[i - start]);
        if c < '0' || '9' < c {
            assert(!is_digit(digits[i - start]));
            return None;
        }
        value = 10 * value + (c as u32 - '0' as u32);
        assert(value == digits_value(more));
        assert(all_digits(more)) by {
            assert forall|j: int| 0 <= j < more.len() implies is_digit(#[trigger] more[j]) by {
                if j < seen.len() {
                    assert(more[j] == seen[j]);
                }
            }
        }
        if value > 65535 {
            proof {
                digits_value_grows(digits, i - start + 1);
            }
            return None;
        }
        i = i + 1;
    }
    assert(digits.take(i - start) == digits);
    Some(value as u16)
}

/// `n` in decimal notation.
pub(crate) fn decimal_text(n: u16) -> (text: String)
    ensures
        text@ == decimal(n as nat),
    decreases n,
{
    if n < 10 {
        digit_text(n)
    } else {
        let leading = decimal_text(n / 10);
        let last = digit_text(n % 10);
        let text = joined(leading.as_str(), last.as_str());
        assert(text@ == decimal((n / 10) as nat).push(digit((n % 10) as nat)));
        text
    }
}

fn digit_text(n: u16) -> (text: String)
    requires
        n < 10,
    ensures
        text@ == seq![digit(n as nat)],
{
    proof {
        reveal_strlit("0");
        reveal_strlit("1");
        reveal_strlit("2");
        reveal_strlit("3");
        reveal_strlit("4");
        reveal_strlit("5");
        reveal_strlit("6");
        reveal_strlit("7");
        reveal_strlit("8");
        reveal_strlit("9");
    }
    let text = match n {
        0 => "0",
        1 => "1",
        2 => "2",
        3 => "3",
        4 => "4",
        5 => "5",
        6 => "6",
        7 => "7",
        8 => "8",
        _ => "9",
    };
    assert(text@ == seq![digit(n as nat)]);
    text.to_owned()
}

/// More digits never stand for a smaller number.
proof fn digits_value_grows(s: Seq<char>, n: int)
    requires
        0 <= n <= s.len(),
    ensures
        all_digits(s) ==> digits_value(s.take(n)) <= digits_value(s),
    decreases s.len() - n,
{
    if n == s.len() {
        assert(s.take(n) == s);
    } else if all_digits(s) {
        digits_value_grows(s, n + 1);
        assert(s.take(n + 1).drop_last() == s.take(n));
        assert(is_digit(s[n]));
        assert(s.take(n + 1).last() == s[n]);
    }
}

/// Decimal notation is made of digits, is never empty, and reads back as the number.
pub proof fn decimal_reads_back(n: nat)
    ensures
        decimal(n).len() > 0,
        all_digits(decimal(n)),
        digits_value(decimal(n)) == n,
    decreases n,
{
    if n < 10 {
        assert(decimal(n).drop_last() == Seq::<char>::empty());
        assert(digits_value(Seq::<char>::empty()) == 0);
    } else {
        decimal_reads_back(n / 10);
        let leading = decimal(n / 10);
        let last = digit(n % 10);
        assert(leading.push(last).drop_last() == leading);
        assert forall|i: int| 0 <= i < decimal(n).len() implies is_digit(#[trigger] decimal(n)[i]) by {
            if i < leading.len() {
                assert(decimal(n)[i] == leading[i]);
            }
        }
    }
}

/// The decimal notation of a port parses as that port.
pub proof fn decimal_parses(n: u16)
    ensures
        u16_value(decimal(n as nat)) == Some(n),
{
    decimal_reads_back(n as nat);
    assert(is_digit(decimal(n as nat)[0]));
}

/// Where `c` does not occur in `b`, it occurs last in `a`, `c`, `b` in front of `b`.
pub proof fn last_index_of_separator(a: Seq<char>, c: char, b: Seq<char>)
    requires
        !b.contains(c),
    ensures
        last_index(a.push(c) + b, c) == a.len(),
    decreases b.len(),
{
    let whole = a.push(c) + b;
    if b.len() == 0 {
        assert(whole == a.push(c));
    } else {
        assert(b[b.len() - 1] == b.last());
        assert(whole.last() == b.last());
        assert(whole.drop_last() == a.push(c) + b.drop_last());
        assert(!b.drop_last().contains(c)) by {
            if b.drop_last().contains(c) {
                let i = choose|i: int| 0 <= i < b.drop_last().len() && b.drop_last()[i] == c;
                assert(b[i] == c);
            }
        }
        last_index_of_separator(a, c, b.drop_last());
    }
}

/// Lowering twice is lowering once.
pub proof fn lowered_is_stable(s: Seq<char>)
    ensures
        lowered(lowered(s)) == lowered(s),
{
}

/// A last position lies within the sequence and holds the character.
pub proof fn last_index_in_range(s: Seq<char>, c: char)
    ensures
        -1 <= last_index(s, c) < s.len(),
        last_index(s, c) >= 0 ==> s[last_index(s, c)] == c,
    decreases s.len(),
{
    if s.len() > 0 && s.last() != c {
        last_index_in_range(s.drop_last(), c);
    }
}

/// Decimal notation holds no colon.
pub proof fn digits_hold_no_colon(n: nat)
    ensures
        !decimal(n).contains(':'),
{
    decimal_reads_back(n);
    if decimal(n).contains(':') {
        let i = choose|i: int| 0 <= i < decimal(n).len() && decimal(n)[i] == ':';
        assert(is_digit(decimal(n)[i]));
    }
}

/// Where `c` does not occur in `a`, it occurs first in `a`, `c`, `b` right after `a`.
pub proof fn first_index_of_separator(a: Seq<char>, c: char, b: Seq<char>)
    requires
        !a.contains(c),
    ensures
        first_index(a.push(c) + b, c) == a.len(),
    decreases a.len(),
{
    let whole = a.push(c) + b;
    if a.len() > 0 {
        let rest = a.drop_first();
        assert(a.contains(a[0]));
        assert(whole.drop_first() == rest.push(c) + b);
        assert(!rest.contains(c)) by {
            if rest.contains(c) {
                let i = choose|i: int| 0 <= i < rest.len() && rest[i] == c;
                assert(a[i + 1] == c);
            }
        }
        first_index_of_separator(rest, c, b);
    }
}

/// Lower case moves each of the letters from A to Z by 32 code points, and keeps every
/// other character where it is.
pub proof fn lowering_changes_capitals_only(s: Seq<char>)
    ensures
        lowered(s).len() == s.len(),
        forall|i: int|
            0 <= i < s.len() && 'A' <= s[i] && s[i] <= 'Z' ==> (#[trigger] lowered(s)[i]) as u32
                == s[i] as u32 + 32,
        forall|i: int|
            0 <= i < s.len() && (s[i] < 'A' || 'Z' < s[i]) ==> #[trigger] lowered(s)[i] == s[i],
{
}

/// Ten times a number and a digit is written as the number and then the digit. A number
/// below ten is written as one digit, so there are no leading zeros.
pub proof fn decimal_grows_digit_by_digit(n: nat, d: nat)
    requires
        d < 10,
    ensures
        decimal(d).len() == 1,
        decimal(d)[0] as u32 == '0' as u32 + d,
        n > 0 ==> decimal(10 * n + d).drop_last() == decimal(n),
        n > 0 ==> decimal(10 * n + d).len() == decimal(n).len() + 1,
        n > 0 ==> decimal(10 * n + d).last() as u32 == '0' as u32 + d,
{
    if n > 0 {
        assert((10 * n + d) / 10 == n);
        assert((10 * n + d) % 10 == d);
        assert(decimal(10 * n + d) == decimal(n).push(digit(d)));
        assert(decimal(n).push(digit(d)).drop_last() == decimal(n));
    }
}

/// One digit is a number. A digit after a number makes it ten times as large and adds the
/// digit, up to 65535; what is too large stays too large with more digits.
pub proof fn numbers_grow_digit_by_digit(s: Seq<char>, c: char)
    requires
        '0' <= c && c <= '9',
    ensures
        u16_value(seq![c]) == Some((c as u32 - '0' as u32) as u16),
        u16_value(s) matches Some(v) ==> u16_value(s.push(c)) == (if 10 * v + (c as u32
            - '0' as u32) <= 65535 {
            Some((10 * v + (c as u32 - '0' as u32)) as u16)
        } else {
            None
        }),
        u16_value(s) is None && s.len() > 0 && (forall|i: int|
            0 <= i < s.len() ==> '0' <= #[trigger] s[i] && s[i] <= '9') ==> u16_value(
            s.push(c),
        ) is None,
{
    let one = seq![c];
    assert(one.drop_last() == Seq::<char>::empty());
    assert(digits_value(Seq::<char>::empty()) == 0);
    assert(unsigned(one) == one);
    assert(is_digit(one[0]));
    if s.len() > 0 {
        let digits = unsigned(s);
        assert(unsigned(s.push(c)) == digits.push(c));
        assert(digits.push(c).drop_last() == digits);
        if all_digits(digits) {
            assert forall|i: int| 0 <= i < digits.push(c).len() implies is_digit(
                #[trigger] digits.push(c)[i],
            ) by {
                if i < digits.len() {
                    assert(digits.push(c)[i] == digits[i]);
                }
            }
        }
        if forall|i: int| 0 <= i < s.len() ==> '0' <= #[trigger] s[i] && s[i] <= '9' {
            assert(s[0] != '+');
            assert(digits == s);
            assert(all_digits(digits)) by {
                assert forall|i: int| 0 <= i < digits.len() implies is_digit(
                    #[trigger] digits[i],
                ) by {
                    assert('0' <= s[i] && s[i] <= '9');
                }
            }
        }
    }
}

/// A number is made of digits, at least one, with nothing but a plus sign in front.
pub proof fn numbers_are_digits(s: Seq<char>)
    requires
        u16_value(s) is Some,
    ensures
        s.len() > 0,
        forall|i: int| 0 < i < s.len() ==> '0' <= #[trigger] s[i] && s[i] <= '9',
        '0' <= s[0] && s[0] <= '9' || s[0] == '+' && s.len() > 1,
{
    let digits = unsigned(s);
    if s[0] == '+' {
        assert forall|i: int| 0 < i < s.len() implies '0' <= #[trigger] s[i] && s[i] <= '9' by {
            assert(is_digit(digits[i - 1]));
        }
    } else {
        assert(is_digit(digits[0]));
        assert forall|i: int| 0 < i < s.len() implies '0' <= #[trigger] s[i] && s[i] <= '9' by {
            assert(is_digit(digits[i]));
        }
    }
}

/// One plus sign in front changes nothing.
pub proof fn a_plus_sign_changes_nothing(s: Seq<char>)
    requires
        s.len() == 0 || s[0] != '+',
    ensures
        u16_value(seq!['+'] + s) == u16_value(s),
{
    assert((seq!['+'] + s).drop_first() == s);
}

/// The last position of a character holds it, and no later position does. Without a
/// position the character does not occur.
pub proof fn last_index_is_last(s: Seq<char>, c: char)
    ensures
        -1 <= last_index(s, c) < s.len(),
        last_index(s, c) >= 0 ==> s[last_index(s, c)] == c,
        forall|i: int| last_index(s, c) < i < s.len() ==> #[trigger] s[i] != c,
        last_index(s, c) == -1 <==> !s.contains(c),
    decreases s.len(),
{
    if s.len() > 0 && s.last() != c {
        last_index_is_last(s.drop_last(), c);
        assert forall|i: int| last_index(s, c) < i < s.len() implies #[trigger] s[i] != c by {
            if i < s.len() - 1 {
                assert(s[i] == s.drop_last()[i]);
            }
        }
    }
}

/// The first position of a character holds it, and no earlier position does. Without a
/// position the character does not occur.
pub proof fn first_index_is_first(s: Seq<char>, c: char)
    ensures
        0 <= first_index(s, c) <= s.len(),
        first_index(s, c) < s.len() ==> s[first_index(s, c)] == c,
        forall|i: int| 0 <= i < first_index(s, c) ==> #[trigger] s[i] != c,
        first_index(s, c) == s.len() <==> !s.contains(c),
    decreases s.len(),
{
    if s.len() > 0 && s[0] != c {
        first_index_is_first(s.drop_first(), c);
        assert forall|i: int| 0 <= i < first_index(s, c) implies #[trigger] s[i] != c by {
            if i > 0 {
                assert(s[i] == s.drop_first()[i - 1]);
            }
        }
    }
}

} // verus!
