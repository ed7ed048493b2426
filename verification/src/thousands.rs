//! Decimal rendering of counters with a comma between groups of three digits.

use vstd::prelude::*;
use vstd::arithmetic::div_mod::lemma_div_denominator;

verus! {

/// The ASCII character of a decimal digit.
pub open spec fn digit_char(d: nat) -> char
    recommends
        d < 10,
{
    (d + 48) as char
}

/// Plain decimal digits of `n`, most significant first, with no leading zero
/// (so `0` is `"0"`).
pub open spec fn decimal_digits(n: nat) -> Seq<char>
    decreases n,
{
    if n < 10 {
        seq![digit_char(n)]
    } else {
        decimal_digits(n / 10).push(digit_char(n % 10))
    }
}

/// Decimal digits of `n` with a `,` before every group of three digits
/// counted from the right, e.g. `1234567` is `"1,234,567"`.
pub open spec fn thousands_separated(n: nat) -> Seq<char>
    decreases n,
{
    if n < 1000 {
        decimal_digits(n)
    } else {
        thousands_separated(n / 1000) + seq![
            ',',
            digit_char(n % 1000 / 100),
            digit_char(n % 100 / 10),
            digit_char(n % 10),
        ]
    }
}

/// Keeps every character but the group separator `,`.
pub open spec fn not_separator() -> spec_fn(char) -> bool {
    |c: char| c != ','
}

proof fn lemma_digit_char_not_separator(d: nat)
    requires
        d < 10,
    ensures
        digit_char(d) != ',',
        not_separator()(digit_char(d)),
{
    assert(digit_char(d) as int == d + 48);
}

proof fn lemma_filter_push_digit(s: Seq<char>, d: nat)
    requires
        d < 10,
    ensures
        s.push(digit_char(d)).filter(not_separator()) == s.filter(not_separator()).push(
            digit_char(d),
        ),
{
    lemma_digit_char_not_separator(d);
    reveal_with_fuel(Seq::filter, 1);
    assert(s.push(digit_char(d)).drop_last() =~= s);
}

proof fn lemma_decimal_digits_have_no_separator(n: nat)
    ensures
        decimal_digits(n).filter(not_separator()) == decimal_digits(n),
    decreases n,
{
    if n < 10 {
        lemma_filter_push_digit(Seq::empty(), n);
        reveal_with_fuel(Seq::filter, 1);
        assert(Seq::<char>::empty().push(digit_char(n)) =~= seq![digit_char(n)]);
    } else {
        lemma_decimal_digits_have_no_separator(n / 10);
        lemma_filter_push_digit(decimal_digits(n / 10), n % 10);
    }
}

proof fn lemma_decimal_digits_split(n: nat)
    requires
        n >= 1000,
    ensures
        decimal_digits(n) == decimal_digits(n / 1000) + seq![
            digit_char(n % 1000 / 100),
            digit_char(n % 100 / 10),
            digit_char(n % 10),
        ],
{
    lemma_div_denominator(n as int, 10, 10);
    lemma_div_denominator(n as int, 100, 10);
    assert(n / 10 % 10 == n % 100 / 10) by (nonlinear_arith)
        requires
            n >= 0,
    ;
    assert(n / 100 % 10 == n % 1000 / 100) by (nonlinear_arith)
        requires
            n >= 0,
    ;
    assert(decimal_digits(n) == decimal_digits(n / 10).push(digit_char(n % 10)));
    assert(decimal_digits(n / 10) == decimal_digits(n / 100).push(digit_char(n / 10 % 10)));
    assert(decimal_digits(n / 100) == decimal_digits(n / 1000).push(digit_char(n / 100 % 10)));
    assert(decimal_digits(n) =~= decimal_digits(n / 1000) + seq![
        digit_char(n % 1000 / 100),
        digit_char(n % 100 / 10),
        digit_char(n % 10),
    ]);
}

/// Separating groups of digits does not change the number that is read:
/// dropping every `,` from the separated text leaves the plain decimal
/// digits of `n`.
pub proof fn lemma_separators_only_group_digits(n: nat)
    ensures
        thousands_separated(n).filter(not_separator()) == decimal_digits(n),
    decreases n,
{
    if n < 1000 {
        lemma_decimal_digits_have_no_separator(n);
    } else {
        let high = thousands_separated(n / 1000);
        let low = seq![',', digit_char(n % 1000 / 100), digit_char(n % 100 / 10), digit_char(n % 10)];
        lemma_separators_only_group_digits(n / 1000);
        Seq::filter_distributes_over_add(high, low, not_separator());
        lemma_digit_char_not_separator(n % 1000 / 100);
        lemma_digit_char_not_separator(n % 100 / 10);
        lemma_digit_char_not_separator(n % 10);
        reveal_with_fuel(Seq::filter, 5);
        assert(low.filter(not_separator()) =~= seq![
            digit_char(n % 1000 / 100),
            digit_char(n % 100 / 10),
            digit_char(n % 10),
        ]);
        lemma_decimal_digits_split(n);
    }
}

proof fn lemma_decimal_digits_shape(n: nat)
    ensures
        1 <= decimal_digits(n).len(),
        n < 10 ==> decimal_digits(n).len() == 1,
        n < 100 ==> decimal_digits(n).len() <= 2,
        n < 1000 ==> decimal_digits(n).len() <= 3,
        forall|i: int| 0 <= i < decimal_digits(n).len() ==> decimal_digits(n)[i] != ',',
    decreases n,
{
    if n < 10 {
        lemma_digit_char_not_separator(n);
    } else {
        lemma_decimal_digits_shape(n / 10);
        lemma_digit_char_not_separator(n % 10);
        let prev = decimal_digits(n / 10);
        assert forall|i: int| 0 <= i < decimal_digits(n).len() implies decimal_digits(n)[i] != ',' by {
            if i < prev.len() {
                assert(decimal_digits(n)[i] == prev[i]);
            }
        }
    }
}

/// The separators stand exactly at every fourth place counted from the
/// right end (and never first): every group after the first has exactly
/// three digits, and the first has one to three.
pub proof fn lemma_groups_of_three(n: nat)
    ensures
        thousands_separated(n).len() % 4 != 0,
        forall|i: int|
            0 <= i < thousands_separated(n).len() ==> (thousands_separated(n)[i] == ','
                <==> (thousands_separated(n).len() - i) % 4 == 0),
    decreases n,
{
    let s = thousands_separated(n);
    if n < 1000 {
        lemma_decimal_digits_shape(n);
    } else {
        let high = thousands_separated(n / 1000);
        lemma_groups_of_three(n / 1000);
        lemma_digit_char_not_separator(n % 1000 / 100);
        lemma_digit_char_not_separator(n % 100 / 10);
        lemma_digit_char_not_separator(n % 10);
        assert(s.len() == high.len() + 4);
        assert forall|i: int| 0 <= i < s.len() implies (s[i] == ',' <==> (s.len() - i) % 4 == 0) by {
            if i < high.len() {
                assert(s[i] == high[i]);
                assert((s.len() - i) % 4 == (high.len() - i) % 4);
            }
        }
    }
}

/// The one-character text of a decimal digit.
fn digit_str(d: u32) -> (text: &'static str)
    requires
        d < 10,
    ensures
        text@ == seq![digit_char(d as nat)],
{
    proof {
        reveal_strlit("0");
        reveal_strlit("1");
        reveal_strlit("2");
        reveal_strlit("3");
        reveal_strlit("4");
        reveal_strlit("5");
        reveal_strlit("6");
        reveal_strlit("7");
        reveal_strlit("8");
        reveal_strlit("9");
    }
    match d {
        0 => "0",
        1 => "1",
        2 => "2",
        3 => "3",
        4 => "4",
        5 => "5",
        6 => "6",
        7 => "7",
        8 => "8",
        _ => "9",
    }
}

/// Appends the plain decimal digits of `n`.
fn push_decimal(text: &mut String, n: u32)
    ensures
        final(text)@ == old(text)@ + decimal_digits(n as nat),
    decreases n,
{
    if n >= 10 {
        push_decimal(text, n / 10);
    }
    text.append(digit_str(n % 10));
    proof {
        if n < 10 {
            assert(n % 10 == n);
        }
    }
}

/// Appends the digits of `n` grouped by three with `,`.
fn push_separated(text: &mut String, n: u32)
    ensures
        final(text)@ == old(text)@ + thousands_separated(n as nat),
    decreases n,
{
    if n < 1000 {
        push_decimal(text, n);
    } else {
        push_separated(text, n / 1000);
        text.append(",");
        text.append(digit_str(n % 1000 / 100));
        text.append(digit_str(n % 100 / 10));
        text.append(digit_str(n % 10));
        proof {
            reveal_strlit(",");
        }
    }
}

/// A counter written with thousands separators: its decimal digits with a
/// `,` before every group of three counted from the right.
pub(crate) fn separated_u32(value: u32) -> (text: String)
    ensures
        text@ == thousands_separated(value as nat),
{
    let mut text = String::new();
    push_separated(&mut text, value);
    text
}

} // verus!
