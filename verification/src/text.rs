//! Decimal numbers as text: what counts as the text of a 16-bit unsigned
//! number, the number it denotes, and the canonical text of a number.

use vstd::prelude::*;
use vstd::string::*;

verus! {

/// Whether `c` is one of the ten ASCII decimal digits.
pub open spec fn is_digit(c: char) -> bool {
    '0' <= c && c <= '9'
}

/// The number that the digit `c` stands for.
pub open spec fn digit_value(c: char) -> nat
    recommends
        is_digit(c),
{
    (c as int - '0' as int) as nat
}

/// The digit that stands for `d`.
pub open spec fn digit_char(d: nat) -> char
    recommends
        d < 10,
{
    if d == 0 {
        '0'
    } else if d == 1 {
        '1'
    } else if d == 2 {
        '2'
    } else if d == 3 {
        '3'
    } else if d == 4 {
        '4'
    } else if d == 5 {
        '5'
    } else if d == 6 {
        '6'
    } else if d == 7 {
        '7'
    } else if d == 8 {
        '8'
    } else {
        '9'
    }
}

/// Whether every character of `s` is a decimal digit.
pub open spec fn all_digits(s: Seq<char>) -> bool {
    forall|i: int| 0 <= i < s.len() ==> is_digit(#[trigger] s[i])
}

/// The number written by the digits `s`, most significant digit first.
pub open spec fn decimal_value(s: Seq<char>) -> nat
    decreases s.len(),
{
    if s.len() == 0 {
        0
    } else {
        10 * decimal_value(s.drop_last()) + digit_value(s.last())
    }
}

/// `s` without the single leading plus sign that a number may carry.
pub open spec fn unsigned_part(s: Seq<char>) -> Seq<char> {
    if s.len() > 0 && s[0] == '+' {
        s.drop_first()
    } else {
        s
    }
}

/// Whether `s` is the text of a 16-bit unsigned number: an optional plus
/// sign, then one or more decimal digits whose value is at most 65535.
/// Leading zeros are allowed; spaces, a minus sign and any other character
/// are not.
pub open spec fn is_u16_text(s: Seq<char>) -> bool {
    let digits = unsigned_part(s);
    &&& digits.len() > 0
    &&& all_digits(digits)
    &&& decimal_value(digits) <= u16::MAX
}

/// The number that a text accepted by [`is_u16_text`] denotes.
pub open spec fn u16_text_value(s: Seq<char>) -> nat {
    decimal_value(unsigned_part(s))
}

/// The canonical decimal text of `n`: no sign, no leading zeros.
pub open spec fn decimal_text(n: nat) -> Seq<char>
    decreases n,
{
    if n < 10 {
        seq![digit_char(n)]
    } else {
        decimal_text(n / 10).push(digit_char(n % 10))
    }
}

/// Extending a digit string on the right never lowers its value.
pub proof fn lemma_decimal_value_prefix(s: Seq<char>, k: int)
    requires
        0 <= k <= s.len(),
        all_digits(s),
    ensures
        decimal_value(s.take(k)) <= decimal_value(s),
    decreases s.len() - k,
{
    if k == s.len() {
        assert(s.take(k) =~= s);
    } else {
        lemma_decimal_value_prefix(s, k + 1);
        assert(s.take(k + 1).drop_last() =~= s.take(k));
        assert(is_digit(s[k]));
    }
}

/// The canonical text of a number consists of digits only, is not empty,
/// and denotes that number.
pub proof fn lemma_decimal_text_value(n: nat)
    ensures
        decimal_text(n).len() > 0,
        all_digits(decimal_text(n)),
        decimal_value(decimal_text(n)) == n,
    decreases n,
{
    if n < 10 {
        let s = seq![digit_char(n)];
        assert(s.drop_last() =~= Seq::<char>::empty());
        assert(decimal_value(s.drop_last()) == 0);
        assert(s.last() == digit_char(n));
    } else {
        lemma_decimal_text_value(n / 10);
        let s = decimal_text(n);
        let head = decimal_text(n / 10);
        assert(s.drop_last() =~= head);
        assert(s.last() == digit_char(n % 10));
        assert forall|i: int| 0 <= i < s.len() implies is_digit(#[trigger] s[i]) by {
            if i < head.len() {
                assert(s[i] == head[i]);
            }
        }
    }
}

/// The canonical text of a 16-bit number is accepted as the text of a 16-bit
/// number, and denotes it.
pub proof fn lemma_decimal_text_is_u16_text(n: u16)
    ensures
        is_u16_text(decimal_text(n as nat)),
        u16_text_value(decimal_text(n as nat)) == n,
{
    lemma_decimal_text_value(n as nat);
    let s = decimal_text(n as nat);
    assert(is_digit(s[0]));
    assert(unsigned_part(s) == s);
}

/// Two numbers with the same canonical text are the same number.
pub proof fn lemma_decimal_text_injective(a: nat, b: nat)
    requires
        decimal_text(a) == decimal_text(b),
    ensures
        a == b,
{
    lemma_decimal_text_value(a);
    lemma_decimal_text_value(b);
}

/// The characters of `s`, in order.
pub fn chars_of(s: &str) -> (chars: Vec<char>)
    ensures
        chars@ == s@,
{
    let mut chars: Vec<char> = Vec::new();
    for c in it: s.chars()
        invariant
            chars@ == it.seq().take(it.index@),
    {
        chars.push(c);
    }
    chars
}

/// The value of one decimal digit, or `None` for any other character.
pub fn digit_of(c: char) -> (d: Option<u32>)
    ensures
        d is Some <==> is_digit(c),
        d matches Some(v) ==> v == digit_value(c) && v < 10,
{
    if '0' <= c && c <= '9' {
        Some(c as u32 - '0' as u32)
    } else {
        None
    }
}

/// Reads `text` as a 16-bit unsigned decimal number.
///
/// Returns the number when the whole of `text` is an optional plus sign
/// followed by decimal digits that denote at most 65535, and `None` for every
/// other text: the empty text, a lone sign, a minus sign, spaces, letters, or
/// a value that does not fit.
pub fn parse_u16(text: &str) -> (parsed: Option<u16>)
    ensures
        parsed is Some <==> is_u16_text(text@),
        parsed matches Some(v) ==> v == u16_text_value(text@),
{
    let chars = chars_of(text);
    let start: usize = if chars.len() > 0 && chars[0] == '+' {
        1
    } else {
        0
    };
    let ghost digits = unsigned_part(text@);
    assert(digits =~= chars@.subrange(start as int, chars@.len() as int));
    if start == chars.len() {
        return None;
    }
    let mut value: u32 = 0;
    let mut i: usize = start;
    while i < chars.len()
        invariant
            start <= i <= chars.len(),
            chars@ == text@,
            digits == unsigned_part(text@),
            digits =~= chars@.subrange(start as int, chars@.len() as int),
            all_digits(digits.take(i - start)),
            value == decimal_value(digits.take(i - start)),
            value <= u16::MAX,
        decreases chars.len() - i,
    {
        let ghost k = i - start;
        proof {
            assert(digits.take(k + 1).drop_last() =~= digits.take(k));
            assert(digits.take(k + 1).last() == chars@[i as int]);
        }
        match digit_of(chars[i]) {
            None => {
                assert(!is_digit(digits[k]));
                return None;
            },
            Some(d) => {
                value = value * 10 + d;
                proof {
                    assert forall|j: int| 0 <= j < k + 1 implies is_digit(
                        #[trigger] digits.take(k + 1)[j],
                    ) by {
                        if j < k {
                            assert(digits.take(k + 1)[j] == digits.take(k)[j]);
                        }
                    }
                }
                if value > 65535 {
                    proof {
                        if all_digits(digits) {
                            lemma_decimal_value_prefix(digits, k + 1);
                        }
                    }
                    return None;
                }
            },
        }
        i = i + 1;
    }
    assert(digits.take(i - start) =~= digits);
    Some(value as u16)
}

/// One decimal digit as text.
fn digit_str(d: u16) -> (s: &'static str)
    requires
        d < 10,
    ensures
        s@ == seq![digit_char(d as nat)],
{
    proof {
        reveal_strlit("0");
        reveal_strlit("1");
        reveal_strlit("2");
        reveal_strlit("3");
        reveal_strlit("4");
        reveal_strlit("5");
        reveal_strlit("6");
        reveal_strlit("7");
        reveal_strlit("8");
        reveal_strlit("9");
    }
    let s = match d {
        0 => "0",
        1 => "1",
        2 => "2",
        3 => "3",
        4 => "4",
        5 => "5",
        6 => "6",
        7 => "7",
        8 => "8",
        _ => "9",
    };
    assert(s@ =~= seq![digit_char(d as nat)]);
    s
}

/// The canonical decimal text of `n`, without sign or leading zeros.
pub fn u16_to_text(n: u16) -> (text: String)
    ensures
        text@ == decimal_text(n as nat),
    decreases n,
{
    if n < 10 {
        String::from_str(digit_str(n))
    } else {
        let mut text = u16_to_text(n / 10);
        text.append(digit_str(n % 10));
        assert(text@ =~= decimal_text(n as nat));
        text
    }
}

} // verus!
