//! Digits and numbers as text.

use vstd::prelude::*;

verus! {

/// The lowercase hexadecimal digit for `d`; for `d < 10` this is also its
/// decimal digit.
pub open spec fn digit_char(d: int) -> char {
    if d == 0 {
        '0'
    } else if d == 1 {
        '1'
    } else if d == 2 {
        '2'
    } else if d == 3 {
        '3'
    } else if d == 4 {
        '4'
    } else if d == 5 {
        '5'
    } else if d == 6 {
        '6'
    } else if d == 7 {
        '7'
    } else if d == 8 {
        '8'
    } else if d == 9 {
        '9'
    } else if d == 10 {
        'a'
    } else if d == 11 {
        'b'
    } else if d == 12 {
        'c'
    } else if d == 13 {
        'd'
    } else if d == 14 {
        'e'
    } else {
        'f'
    }
}

/// The one-character text of a digit below sixteen.
pub fn digit_str(d: u8) -> (s: &'static str)
    requires
        d < 16,
    ensures
        s@ == seq![digit_char(d as int)],
{
    proof {
        reveal_strlit("0");
        reveal_strlit("1");
        reveal_strlit("2");
        reveal_strlit("3");
        reveal_strlit("4");
        reveal_strlit("5");
        reveal_strlit("6");
        reveal_strlit("7");
        reveal_strlit("8");
        reveal_strlit("9");
        reveal_strlit("a");
        reveal_strlit("b");
        reveal_strlit("c");
        reveal_strlit("d");
        reveal_strlit("e");
        reveal_strlit("f");
    }
    let s = match d {
        0 => "0",
        1 => "1",
        2 => "2",
        3 => "3",
        4 => "4",
        5 => "5",
        6 => "6",
        7 => "7",
        8 => "8",
        9 => "9",
        10 => "a",
        11 => "b",
        12 => "c",
        13 => "d",
        14 => "e",
        _ => "f",
    };
    assert(s@ =~= seq![digit_char(d as int)]);
    s
}

/// The view of an optional text.
pub open spec fn text_view(text: Option<String>) -> Option<Seq<char>> {
    match text {
        Some(t) => Some(t@),
        None => None,
    }
}

/// Whether `c` is one of the ten decimal digits.
pub open spec fn is_decimal_digit(c: char) -> bool {
    '0' <= c <= '9'
}

/// The number that a decimal digit stands for.
pub open spec fn digit_value(c: char) -> nat {
    (c as int - '0' as int) as nat
}

/// The decimal text of `n`, without sign or leading zeros.
pub open spec fn decimal(n: nat) -> Seq<char>
    decreases n,
{
    if n < 10 {
        seq![digit_char(n as int)]
    } else {
        decimal(n / 10).push(digit_char((n % 10) as int))
    }
}

/// The decimal text of `n`, with a leading minus sign when it is negative.
pub open spec fn signed_decimal(n: int) -> Seq<char> {
    if n < 0 {
        seq!['-'] + decimal((-n) as nat)
    } else {
        decimal(n as nat)
    }
}

/// The decimal text of `n`, padded with a zero to at least two digits.
pub open spec fn decimal_two(n: nat) -> Seq<char> {
    if n < 10 {
        seq!['0', digit_char(n as int)]
    } else {
        decimal(n)
    }
}

/// The number that a text of decimal digits stands for.
pub open spec fn decimal_value(s: Seq<char>) -> nat
    decreases s.len(),
{
    if s.len() == 0 {
        0
    } else {
        decimal_value(s.drop_last()) * 10 + digit_value(s.last())
    }
}

/// Whether every character of `s` is a decimal digit.
pub open spec fn all_decimal_digits(s: Seq<char>) -> bool {
    forall|i: int| 0 <= i < s.len() ==> is_decimal_digit(#[trigger] s[i])
}

/// A decimal text is never empty and holds digits only.
pub proof fn lemma_decimal_shape(n: nat)
    ensures
        decimal(n).len() >= 1,
        all_decimal_digits(decimal(n)),
    decreases n,
{
    if n >= 10 {
        lemma_decimal_shape(n / 10);
    }
}

/// Reading a decimal text back gives the number it was written from.
pub proof fn lemma_decimal_value(n: nat)
    ensures
        decimal_value(decimal(n)) == n,
    decreases n,
{
    if n < 10 {
        let s = decimal(n);
        assert(s.drop_last() =~= Seq::<char>::empty());
        assert(decimal_value(s.drop_last()) == 0);
    } else {
        lemma_decimal_value(n / 10);
        let s = decimal(n);
        assert(s.drop_last() =~= decimal(n / 10));
    }
}

/// Two numbers with the same decimal text are the same number.
pub proof fn lemma_decimal_injective(a: nat, b: nat)
    requires
        decimal(a) == decimal(b),
    ensures
        a == b,
{
    lemma_decimal_value(a);
    lemma_decimal_value(b);
}

/// Two numbers with the same signed decimal text are the same number.
pub proof fn lemma_signed_decimal_injective(a: int, b: int)
    requires
        signed_decimal(a) == signed_decimal(b),
    ensures
        a == b,
{
    let ta = signed_decimal(a);
    let tb = signed_decimal(b);
    let ma = (if a < 0 { -a } else { a }) as nat;
    let mb = (if b < 0 { -b } else { b }) as nat;
    lemma_decimal_shape(ma);
    lemma_decimal_shape(mb);
    assert(is_decimal_digit(decimal(ma)[0]));
    assert(is_decimal_digit(decimal(mb)[0]));
    assert(a < 0 <==> ta[0] == '-');
    assert(b < 0 <==> tb[0] == '-');
    if a < 0 {
        assert(ta.subrange(1, ta.len() as int) =~= decimal(ma));
        assert(tb.subrange(1, tb.len() as int) =~= decimal(mb));
    }
    lemma_decimal_injective(ma, mb);
}

/// A two-digit decimal text has at least two characters, all of them
/// digits, and reads back as the number it was written from.
pub proof fn lemma_decimal_two_shape(n: nat)
    ensures
        decimal_two(n).len() >= 2,
        all_decimal_digits(decimal_two(n)),
        decimal_value(decimal_two(n)) == n,
{
    lemma_decimal_shape(n);
    lemma_decimal_value(n);
    if n < 10 {
        let s = decimal_two(n);
        assert(s.drop_last() =~= seq!['0']);
        assert(s.drop_last().drop_last() =~= Seq::<char>::empty());
        assert(decimal_value(s.drop_last().drop_last()) == 0);
        assert(decimal_value(s.drop_last()) == 0);
    } else {
        assert(n / 10 >= 1);
        lemma_decimal_shape(n / 10);
    }
}

/// A text that ends in a dash and a run of digits splits there in one way
/// only.
pub proof fn lemma_split_at_last_dash(
    head_a: Seq<char>,
    digits_a: Seq<char>,
    head_b: Seq<char>,
    digits_b: Seq<char>,
)
    requires
        all_decimal_digits(digits_a),
        all_decimal_digits(digits_b),
        head_a + seq!['-'] + digits_a == head_b + seq!['-'] + digits_b,
    ensures
        head_a == head_b,
        digits_a == digits_b,
{
    let whole_a = head_a + seq!['-'] + digits_a;
    let whole_b = head_b + seq!['-'] + digits_b;
    assert(whole_a.len() == head_a.len() + 1 + digits_a.len());
    assert(whole_b.len() == head_b.len() + 1 + digits_b.len());
    assert(whole_a[head_a.len() as int] == '-');
    assert(whole_b[head_b.len() as int] == '-');
    if head_a.len() < head_b.len() {
        let i = head_b.len() as int;
        assert(whole_a[i] == digits_a[i - head_a.len() - 1]);
        assert(is_decimal_digit(digits_a[i - head_a.len() - 1]));
    } else if head_b.len() < head_a.len() {
        let i = head_a.len() as int;
        assert(whole_b[i] == digits_b[i - head_b.len() - 1]);
        assert(is_decimal_digit(digits_b[i - head_b.len() - 1]));
    } else {
        let n = head_a.len() as int;
        assert(head_a =~= whole_a.subrange(0, n));
        assert(head_b =~= whole_b.subrange(0, n));
        assert(digits_a =~= whole_a.subrange(n + 1, whole_a.len() as int));
        assert(digits_b =~= whole_b.subrange(n + 1, whole_b.len() as int));
    }
}

/// Appends the decimal text of `n` to `out`.
pub fn push_decimal(out: &mut String, n: u64)
    ensures
        final(out)@ == old(out)@ + decimal(n as nat),
    decreases n,
{
    if n >= 10 {
        push_decimal(out, n / 10);
    }
    let d: u8 = (n % 10) as u8;
    out.append(digit_str(d));
    assert(out@ =~= old(out)@ + decimal(n as nat));
}

/// Appends the decimal text of `n` to `out`, with a minus sign when `n` is
/// negative.
pub fn push_signed_decimal(out: &mut String, n: i64)
    ensures
        final(out)@ == old(out)@ + signed_decimal(n as int),
{
    if n < 0 {
        out.append("-");
        let magnitude: u64 = (-(n + 1)) as u64 + 1;
        push_decimal(out, magnitude);
        proof {
            reveal_strlit("-");
            assert(out@ =~= old(out)@ + signed_decimal(n as int));
        }
    } else {
        push_decimal(out, n as u64);
    }
}

/// Appends the decimal text of `n` to `out`, padded with a zero to at least
/// two digits.
pub fn push_decimal_two(out: &mut String, n: u64)
    ensures
        final(out)@ == old(out)@ + decimal_two(n as nat),
{
    if n < 10 {
        out.append("0");
        out.append(digit_str(n as u8));
        proof {
            reveal_strlit("0");
            assert(out@ =~= old(out)@ + decimal_two(n as nat));
        }
    } else {
        push_decimal(out, n);
    }
}

} // verus!
