//! The names that the library makes up: decimal numerals, the generic
//! parameters that stand for `impl Trait`, and the parameters of the
//! generated method.

use vstd::prelude::*;

verus! {

/// The character that writes the digit `d`, for `d` below ten.
pub open spec fn digit(d: nat) -> char {
    if d == 0 {
        '0'
    } else if d == 1 {
        '1'
    } else if d == 2 {
        '2'
    } else if d == 3 {
        '3'
    } else if d == 4 {
        '4'
    } else if d == 5 {
        '5'
    } else if d == 6 {
        '6'
    } else if d == 7 {
        '7'
    } else if d == 8 {
        '8'
    } else {
        '9'
    }
}

/// The decimal numeral of `n`, without leading zeros.
pub open spec fn decimal(n: nat) -> Seq<char>
    decreases n,
{
    if n < 10 {
        seq![digit(n)]
    } else {
        decimal(n / 10).push(digit(n % 10))
    }
}

/// The one-character text of the digit `d`.
fn digit_text(d: usize) -> (text: &'static str)
    requires
        d < 10,
    ensures
        text@ == seq![digit(d as nat)],
{
    proof {
        reveal_strlit("0");
        reveal_strlit("1");
        reveal_strlit("2");
        reveal_strlit("3");
        reveal_strlit("4");
        reveal_strlit("5");
        reveal_strlit("6");
        reveal_strlit("7");
        reveal_strlit("8");
        reveal_strlit("9");
    }
    let text = if d == 0 {
        "0"
    } else if d == 1 {
        "1"
    } else if d == 2 {
        "2"
    } else if d == 3 {
        "3"
    } else if d == 4 {
        "4"
    } else if d == 5 {
        "5"
    } else if d == 6 {
        "6"
    } else if d == 7 {
        "7"
    } else if d == 8 {
        "8"
    } else {
        "9"
    };
    assert(text@ =~= seq![digit(d as nat)]);
    text
}

/// Writes `n` in decimal.
pub fn write_decimal(n: usize) -> (text: String)
    ensures
        text@ == decimal(n as nat),
    decreases n,
{
    if n < 10 {
        String::from_str(digit_text(n))
    } else {
        let mut text = write_decimal(n / 10);
        text.append(digit_text(n % 10));
        assert(text@ =~= decimal(n as nat));
        text
    }
}

/// The name of the generic parameter that stands for the `index`-th `impl
/// Trait` of a declaration, counted from zero: a prefix in capitals that no
/// ordinary identifier begins with, and the index in decimal.
pub open spec fn generated_name(index: nat) -> Seq<char> {
    "AS_METHOD_SELF_T"@ + decimal(index)
}

/// Writes the name of the generic parameter with the given index.
pub fn write_generated_name(index: usize) -> (name: String)
    ensures
        name@ == generated_name(index as nat),
{
    let mut name = String::from_str("AS_METHOD_SELF_T");
    let number = write_decimal(index);
    name.append(number.as_str());
    name
}

/// The name of the `position`-th parameter of the generated method after
/// `self`, counted from one: `x1`, `x2`, and so on.
pub open spec fn synthetic_name(position: nat) -> Seq<char> {
    "x"@ + decimal(position)
}

/// Writes the name of the generated method's parameter at the given position.
pub fn write_synthetic_name(position: usize) -> (name: String)
    ensures
        name@ == synthetic_name(position as nat),
{
    let mut name = String::from_str("x");
    let number = write_decimal(position);
    name.append(number.as_str());
    name
}

/// Different digits are written with different characters.
pub proof fn lemma_digit_injective(a: nat, b: nat)
    requires
        a < 10,
        b < 10,
        digit(a) == digit(b),
    ensures
        a == b,
{
}

/// A numeral has one digit for a number below ten and more otherwise.
pub proof fn lemma_decimal_len(n: nat)
    ensures
        decimal(n).len() >= 1,
        n < 10 <==> decimal(n).len() == 1,
    decreases n,
{
    if n >= 10 {
        lemma_decimal_len(n / 10);
    }
}

/// Different numbers have different numerals.
pub proof fn lemma_decimal_injective(a: nat, b: nat)
    requires
        decimal(a) == decimal(b),
    ensures
        a == b,
    decreases a,
{
    lemma_decimal_len(a);
    lemma_decimal_len(b);
    if a < 10 {
        assert(decimal(a)[0] == digit(a));
        assert(decimal(b)[0] == digit(b));
        lemma_digit_injective(a, b);
    } else {
        let init_a = decimal(a / 10);
        let init_b = decimal(b / 10);
        assert(init_a.push(digit(a % 10)).drop_last() =~= init_a);
        assert(init_b.push(digit(b % 10)).drop_last() =~= init_b);
        assert(init_a.push(digit(a % 10)).last() == digit(a % 10));
        assert(init_b.push(digit(b % 10)).last() == digit(b % 10));
        lemma_decimal_injective(a / 10, b / 10);
        lemma_digit_injective(a % 10, b % 10);
        assert(a == 10 * (a / 10) + a % 10);
        assert(b == 10 * (b / 10) + b % 10);
    }
}

/// Whether `c` is an ASCII letter.
pub open spec fn is_letter(c: char) -> bool {
    ('a' <= c && c <= 'z') || ('A' <= c && c <= 'Z')
}

/// Whether `c` is an ASCII digit.
pub open spec fn is_digit(c: char) -> bool {
    '0' <= c && c <= '9'
}

/// Whether `text` is an identifier of the plainest kind: a letter, then
/// letters, digits and underscores.
pub open spec fn is_identifier(text: Seq<char>) -> bool {
    &&& text.len() > 0
    &&& is_letter(text[0])
    &&& forall|i: int|
        0 <= i < text.len() ==> is_letter(#[trigger] text[i]) || is_digit(text[i]) || text[i] == '_'
}

/// A digit is written with one of the ten digit characters.
pub proof fn lemma_digit_is_digit(d: nat)
    ensures
        is_digit(digit(d)),
{
}

/// A numeral is made of digits.
pub proof fn lemma_decimal_digits(n: nat)
    ensures
        forall|i: int| 0 <= i < decimal(n).len() ==> is_digit(#[trigger] decimal(n)[i]),
    decreases n,
{
    lemma_digit_is_digit(n % 10);
    if n >= 10 {
        lemma_decimal_digits(n / 10);
        assert forall|i: int| 0 <= i < decimal(n).len() implies is_digit(
            #[trigger] decimal(n)[i],
        ) by {
            if i < decimal(n / 10).len() {
                assert(decimal(n)[i] == decimal(n / 10)[i]);
            }
        }
    }
}

/// The names that the library makes up are identifiers.
pub proof fn lemma_names_are_identifiers(n: nat)
    ensures
        is_identifier(generated_name(n)),
        is_identifier(synthetic_name(n)),
{
    reveal_strlit("AS_METHOD_SELF_T");
    reveal_strlit("x");
    lemma_decimal_digits(n);
    let prefix = "AS_METHOD_SELF_T"@;
    assert forall|i: int| 0 <= i < generated_name(n).len() implies is_letter(
        #[trigger] generated_name(n)[i],
    ) || is_digit(generated_name(n)[i]) || generated_name(n)[i] == '_' by {
        if i >= prefix.len() {
            assert(generated_name(n)[i] == decimal(n)[i - prefix.len()]);
        }
    }
    assert forall|i: int| 0 <= i < synthetic_name(n).len() implies is_letter(
        #[trigger] synthetic_name(n)[i],
    ) || is_digit(synthetic_name(n)[i]) || synthetic_name(n)[i] == '_' by {
        if i >= 1 {
            assert(synthetic_name(n)[i] == decimal(n)[i - 1]);
        }
    }
}

/// Text that follows the same prefix is the same if the whole is.
proof fn lemma_same_prefix(prefix: Seq<char>, a: Seq<char>, b: Seq<char>)
    requires
        prefix + a == prefix + b,
    ensures
        a == b,
{
    assert((prefix + a).subrange(prefix.len() as int, (prefix + a).len() as int) =~= a);
    assert((prefix + b).subrange(prefix.len() as int, (prefix + b).len() as int) =~= b);
}

/// Generic parameters with different indices have different names.
pub proof fn lemma_generated_name_injective(a: nat, b: nat)
    requires
        generated_name(a) == generated_name(b),
    ensures
        a == b,
{
    lemma_same_prefix("AS_METHOD_SELF_T"@, decimal(a), decimal(b));
    lemma_decimal_injective(a, b);
}

/// Parameters at different positions have different names.
pub proof fn lemma_synthetic_name_injective(a: nat, b: nat)
    requires
        synthetic_name(a) == synthetic_name(b),
    ensures
        a == b,
{
    lemma_same_prefix("x"@, decimal(a), decimal(b));
    lemma_decimal_injective(a, b);
}

} // verus!
