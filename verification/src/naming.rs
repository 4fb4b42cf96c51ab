//! Names of placed props: a fixed prefix followed by the decimal digits of
//! a counter.

use vstd::prelude::*;
use vstd::string::StringExecFns;

verus! {

/// The character of a decimal digit.
pub open spec fn digit(d: nat) -> char
    recommends
        d < 10,
{
    if d == 0 {
        '0'
    } else if d == 1 {
        '1'
    } else if d == 2 {
        '2'
    } else if d == 3 {
        '3'
    } else if d == 4 {
        '4'
    } else if d == 5 {
        '5'
    } else if d == 6 {
        '6'
    } else if d == 7 {
        '7'
    } else if d == 8 {
        '8'
    } else {
        '9'
    }
}

/// The decimal digits of `n`, most significant first, without leading
/// zeros.
pub open spec fn decimal(n: nat) -> Seq<char>
    decreases n,
{
    if n < 10 {
        seq![digit(n)]
    } else {
        decimal(n / 10).push(digit(n % 10))
    }
}

/// What every prop name starts with.
pub open spec fn prop_prefix() -> Seq<char> {
    seq!['p', 'r', 'o', 'p']
}

/// The name of the prop that the counter value `n` stands for.
pub open spec fn prop_name(n: nat) -> Seq<char> {
    prop_prefix() + decimal(n)
}

/// A number has at least one digit.
pub proof fn lemma_decimal_nonempty(n: nat)
    ensures
        decimal(n).len() >= 1,
    decreases n,
{
    if n >= 10 {
        lemma_decimal_nonempty(n / 10);
    }
}

/// A digit's character follows the character of zero at the digit's
/// distance.
pub proof fn lemma_digit_code(d: nat)
    requires
        d < 10,
    ensures
        digit(d) as u32 == 48 + d,
{
}

/// Different numbers have different digits.
pub proof fn lemma_decimal_injective(a: nat, b: nat)
    requires
        decimal(a) == decimal(b),
    ensures
        a == b,
    decreases a,
{
    if a < 10 && b < 10 {
        assert(decimal(a)[0] == digit(a));
        assert(decimal(b)[0] == digit(b));
        lemma_digit_code(a);
        lemma_digit_code(b);
    } else if a >= 10 && b >= 10 {
        let front_a = decimal(a / 10);
        let front_b = decimal(b / 10);
        let last_a = digit(a % 10);
        let last_b = digit(b % 10);
        assert(decimal(a) == front_a.push(last_a));
        assert(decimal(b) == front_b.push(last_b));
        assert(front_a.push(last_a).drop_last() == front_a);
        assert(front_b.push(last_b).drop_last() == front_b);
        assert(front_a.push(last_a).last() == last_a);
        assert(front_b.push(last_b).last() == last_b);
        assert(front_a == front_b);
        assert(last_a == last_b);
        lemma_decimal_injective(a / 10, b / 10);
        lemma_digit_code(a % 10);
        lemma_digit_code(b % 10);
        assert(a % 10 == b % 10);
        assert(a == 10 * (a / 10) + a % 10);
        assert(b == 10 * (b / 10) + b % 10);
    } else if a < 10 {
        lemma_decimal_nonempty(b / 10);
        assert(decimal(a).len() == 1);
        assert(decimal(b).len() == decimal(b / 10).len() + 1);
    } else {
        lemma_decimal_nonempty(a / 10);
        assert(decimal(b).len() == 1);
        assert(decimal(a).len() == decimal(a / 10).len() + 1);
    }
}

/// Different counter values stand for different prop names.
pub proof fn lemma_prop_name_injective(a: nat, b: nat)
    requires
        prop_name(a) == prop_name(b),
    ensures
        a == b,
{
    assert(prop_name(a).subrange(4, prop_name(a).len() as int) == decimal(a));
    assert(prop_name(b).subrange(4, prop_name(b).len() as int) == decimal(b));
    lemma_decimal_injective(a, b);
}

/// The text of one decimal digit.
fn digit_text(d: usize) -> (text: &'static str)
    requires
        d < 10,
    ensures
        text@ == seq![digit(d as nat)],
{
    proof {
        reveal_strlit("0");
        reveal_strlit("1");
        reveal_strlit("2");
        reveal_strlit("3");
        reveal_strlit("4");
        reveal_strlit("5");
        reveal_strlit("6");
        reveal_strlit("7");
        reveal_strlit("8");
        reveal_strlit("9");
    }
    let text = if d == 0 {
        "0"
    } else if d == 1 {
        "1"
    } else if d == 2 {
        "2"
    } else if d == 3 {
        "3"
    } else if d == 4 {
        "4"
    } else if d == 5 {
        "5"
    } else if d == 6 {
        "6"
    } else if d == 7 {
        "7"
    } else if d == 8 {
        "8"
    } else {
        "9"
    };
    assert(text@ =~= seq![digit(d as nat)]);
    text
}

/// Appends the decimal digits of `n` to `out`.
fn push_decimal(out: &mut String, n: usize)
    ensures
        final(out)@ == old(out)@ + decimal(n as nat),
    decreases n,
{
    if n >= 10 {
        push_decimal(out, n / 10);
    }
    out.append(digit_text(n % 10));
    assert(out@ =~= old(out)@ + decimal(n as nat));
}

/// The name of the prop that the counter value `n` stands for.
pub fn prop_name_of(n: usize) -> (name: String)
    ensures
        name@ == prop_name(n as nat),
{
    proof {
        reveal_strlit("prop");
    }
    let mut name = String::from_str("prop");
    assert(name@ =~= prop_prefix());
    push_decimal(&mut name, n);
    name
}

} // verus!
