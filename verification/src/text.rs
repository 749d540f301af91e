//! Decimal text of port numbers and small helpers on strings.

use vstd::prelude::*;
use vstd::string::StringExecFns;

verus! {

/// The character that writes the decimal digit `d`.
pub open spec fn digit_char(d: nat) -> char {
    if d == 0 {
        '0'
    } else if d == 1 {
        '1'
    } else if d == 2 {
        '2'
    } else if d == 3 {
        '3'
    } else if d == 4 {
        '4'
    } else if d == 5 {
        '5'
    } else if d == 6 {
        '6'
    } else if d == 7 {
        '7'
    } else if d == 8 {
        '8'
    } else {
        '9'
    }
}

/// The decimal digit that `c` writes, if it writes one.
pub open spec fn digit_value(c: char) -> Option<nat> {
    if c == '0' {
        Some(0)
    } else if c == '1' {
        Some(1)
    } else if c == '2' {
        Some(2)
    } else if c == '3' {
        Some(3)
    } else if c == '4' {
        Some(4)
    } else if c == '5' {
        Some(5)
    } else if c == '6' {
        Some(6)
    } else if c == '7' {
        Some(7)
    } else if c == '8' {
        Some(8)
    } else if c == '9' {
        Some(9)
    } else {
        None
    }
}

/// The decimal text of `n`: no sign, no leading zero, `"0"` for zero.
pub open spec fn decimal_text(n: nat) -> Seq<char>
    decreases n,
{
    if n < 10 {
        seq![digit_char(n)]
    } else {
        decimal_text(n / 10).push(digit_char(n % 10))
    }
}

/// The number that a non-empty run of decimal digits writes; leading zeros
/// are allowed. `None` for the empty text and for any other character.
pub open spec fn digits_value(s: Seq<char>) -> Option<nat>
    decreases s.len(),
{
    if s.len() == 0 {
        None
    } else if s.len() == 1 {
        digit_value(s[0])
    } else {
        match (digits_value(s.drop_last()), digit_value(s.last())) {
            (Some(high), Some(low)) => Some(high * 10 + low),
            _ => None,
        }
    }
}

/// The port that a text writes: an optional `+`, then decimal digits whose
/// value fits sixteen bits.
pub open spec fn port_of_text(s: Seq<char>) -> Option<u16> {
    let digits = if s.len() > 0 && s[0] == '+' {
        s.drop_first()
    } else {
        s
    };
    match digits_value(digits) {
        Some(v) => if v <= u16::MAX {
            Some(v as u16)
        } else {
            None
        },
        None => None,
    }
}

/// Every text of digits reads back as the number it was written from.
pub proof fn lemma_decimal_text_reads_back(n: nat)
    ensures
        decimal_text(n).len() > 0,
        digits_value(decimal_text(n)) == Some(n),
        decimal_text(n)[0] != '+',
    decreases n,
{
    if n < 10 {
        assert(digit_value(digit_char(n)) == Some(n));
    } else {
        lemma_decimal_text_reads_back(n / 10);
        let high = decimal_text(n / 10);
        let text = decimal_text(n);
        assert(text.drop_last() == high);
        assert(text.last() == digit_char(n % 10));
        assert(digit_value(digit_char(n % 10)) == Some(n % 10));
        assert(text[0] == high[0]);
    }
}

/// The digits of a decimal text are digits, and only the text of zero begins
/// with `0`.
pub proof fn lemma_decimal_text_digits(n: nat)
    ensures
        forall|i: int| 0 <= i < decimal_text(n).len() ==> digit_value(#[trigger] decimal_text(n)[i]) is Some,
        n >= 1 ==> decimal_text(n)[0] != '0',
        n == 0 ==> decimal_text(n) == seq!['0'],
    decreases n,
{
    let text = decimal_text(n);
    if n < 10 {
        assert(digit_value(digit_char(n)) is Some);
    } else {
        lemma_decimal_text_digits(n / 10);
        let high = decimal_text(n / 10);
        assert(digit_value(digit_char(n % 10)) is Some);
        assert forall|i: int| 0 <= i < text.len() implies digit_value(#[trigger] text[i]) is Some by {
            if i < high.len() {
                assert(text[i] == high[i]);
            }
        }
        assert(text[0] == high[0]);
    }
}

/// A port's decimal text reads back as the same port.
pub proof fn lemma_port_text_round_trip(port: u16)
    ensures
        port_of_text(decimal_text(port as nat)) == Some(port),
{
    lemma_decimal_text_reads_back(port as nat);
}

fn digit_text(d: u16) -> (text: &'static str)
    requires
        d < 10,
    ensures
        text@ == seq![digit_char(d as nat)],
{
    proof {
        reveal_strlit("0");
        reveal_strlit("1");
        reveal_strlit("2");
        reveal_strlit("3");
        reveal_strlit("4");
        reveal_strlit("5");
        reveal_strlit("6");
        reveal_strlit("7");
        reveal_strlit("8");
        reveal_strlit("9");
    }
    let text = if d == 0 {
        "0"
    } else if d == 1 {
        "1"
    } else if d == 2 {
        "2"
    } else if d == 3 {
        "3"
    } else if d == 4 {
        "4"
    } else if d == 5 {
        "5"
    } else if d == 6 {
        "6"
    } else if d == 7 {
        "7"
    } else if d == 8 {
        "8"
    } else {
        "9"
    };
    assert(text@ =~= seq![digit_char(d as nat)]);
    text
}

fn char_to_digit(c: char) -> (d: Option<u32>)
    ensures
        match d {
            Some(v) => digit_value(c) == Some(v as nat) && v < 10,
            None => digit_value(c) is None,
        },
{
    if c == '0' {
        Some(0)
    } else if c == '1' {
        Some(1)
    } else if c == '2' {
        Some(2)
    } else if c == '3' {
        Some(3)
    } else if c == '4' {
        Some(4)
    } else if c == '5' {
        Some(5)
    } else if c == '6' {
        Some(6)
    } else if c == '7' {
        Some(7)
    } else if c == '8' {
        Some(8)
    } else if c == '9' {
        Some(9)
    } else {
        None
    }
}

/// Appends the decimal text of `n` to `out`.
pub fn push_decimal(out: &mut String, n: u16)
    ensures
        final(out)@ == old(out)@ + decimal_text(n as nat),
    decreases n,
{
    if n >= 10 {
        push_decimal(out, n / 10);
    }
    out.append(digit_text(n % 10));
    proof {
        let digit = seq![digit_char((n % 10) as nat)];
        if n < 10 {
            assert(old(out)@ + digit == old(out)@ + decimal_text(n as nat));
        } else {
            assert(decimal_text((n / 10) as nat).push(digit_char((n % 10) as nat))
                == decimal_text((n / 10) as nat) + digit);
            assert((old(out)@ + decimal_text((n / 10) as nat)) + digit == old(out)@
                + decimal_text(n as nat));
        }
    }
}

/// The characters of a string, in order.
pub fn chars_of(s: &str) -> (v: Vec<char>)
    ensures
        v@ == s@,
{
    let mut v: Vec<char> = Vec::new();
    for c in it: s.chars()
        invariant
            v@ == it.seq().take(it.index() as int),
            it.seq() == s@,
    {
        v.push(c);
    }
    v
}

/// The string made of the characters `s[from..to]`, counted in characters.
pub fn text_between(s: &str, from: usize, to: usize) -> (text: String)
    requires
        from <= to <= s@.len(),
    ensures
        text@ == s@.subrange(from as int, to as int),
{
    s.substring_char(from, to).to_owned()
}

/// Reads a port from `v[from..to]`.
pub fn read_port(v: &Vec<char>, from: usize, to: usize) -> (port: Option<u16>)
    requires
        from <= to <= v.len(),
    ensures
        port == port_of_text(v@.subrange(from as int, to as int)),
{
    let ghost text = v@.subrange(from as int, to as int);
    let start: usize = if from < to && v[from] == '+' {
        from + 1
    } else {
        from
    };
    let ghost digits = v@.subrange(start as int, to as int);
    proof {
        if from < to && v[from as int] == '+' {
            assert(text[0] == '+');
            assert(digits == text.drop_first());
        } else {
            if text.len() > 0 {
                assert(text[0] == v[from as int]);
            }
            assert(digits == text);
        }
    }
    if start == to {
        return None;
    }
    let mut value: u32 = 0;
    let mut fits: bool = true;
    let mut i: usize = start;
    while i < to
        invariant
            start <= i <= to <= v.len(),
            start < to,
            digits == v@.subrange(start as int, to as int),
            port_of_text(v@.subrange(from as int, to as int)) == match digits_value(digits) {
                Some(n) => if n <= u16::MAX {
                    Some(n as u16)
                } else {
                    None
                },
                None => None,
            },
            i > start ==> match digits_value(digits.take(i - start)) {
                Some(n) => if fits {
                    n == value && value <= u16::MAX
                } else {
                    n > u16::MAX
                },
                None => false,
            },
            i == start ==> value == 0 && fits,
            value <= u16::MAX,
        decreases to - i,
    {
        let ghost before = digits.take(i - start);
        let ghost after = digits.take(i + 1 - start);
        proof {
            assert(after.drop_last() == before);
            assert(after.last() == v[i as int]);
        }
        match char_to_digit(v[i]) {
            None => {
                proof {
                    assert(digits_value(after) is None);
                    lemma_digits_value_prefix(digits, i + 1 - start);
                }
                return None;
            },
            Some(d) => {
                if fits {
                    let next: u32 = value * 10 + d;
                    if next > 65535 {
                        fits = false;
                    } else {
                        value = next;
                    }
                }
            },
        }
        i += 1;
    }
    proof {
        assert(digits.take(to - start) == digits);
    }
    if fits {
        Some(value as u16)
    } else {
        None
    }
}

/// A text with a prefix that is no number is no number.
pub proof fn lemma_digits_value_prefix(s: Seq<char>, k: int)
    requires
        0 < k <= s.len(),
        digits_value(s.take(k)) is None,
    ensures
        digits_value(s) is None,
    decreases s.len() - k,
{
    if k < s.len() {
        assert(s.take(k + 1).drop_last() == s.take(k));
        lemma_digits_value_prefix(s, k + 1);
    } else {
        assert(s.take(k) == s);
    }
}

} // verus!
