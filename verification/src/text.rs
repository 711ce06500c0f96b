//! Small operations on text and lists of text.

use vstd::prelude::*;
use vstd::string::StringExecFns;

verus! {

/// Text made of three parts.
pub fn joined(head: &str, middle: &str, tail: &str) -> (text: String)
    ensures
        text@ == head@ + middle@ + tail@,
{
    String::from_str(head).concat(middle).concat(tail)
}

/// One query parameter.
pub fn param(key: &str, value: &str) -> (pair: (String, String))
    ensures
        pair.deep_view() == (key@, value@),
{
    (String::from_str(key), String::from_str(value))
}

/// Whether two texts are the same.
pub fn same_text(left: &str, right: &str) -> (same: bool)
    ensures
        same == (left@ == right@),
{
    String::from_str(left) == String::from_str(right)
}

/// A copy of a list of query parameters.
pub fn copy_params(params: &Vec<(String, String)>) -> (copy: Vec<(String, String)>)
    ensures
        copy.deep_view() == params.deep_view(),
{
    let mut copy: Vec<(String, String)> = Vec::new();
    let mut i: usize = 0;
    while i < params.len()
        invariant
            i <= params.len(),
            copy.len() == i,
            forall|j: int| 0 <= j < i ==> copy@[j].deep_view() == params@[j].deep_view(),
        decreases params.len() - i,
    {
        copy.push((params[i].0.clone(), params[i].1.clone()));
        i += 1;
    }
    assert(copy.deep_view() =~= params.deep_view());
    copy
}

/// Whether a text occurs in a list.
pub fn contains_text(texts: &Vec<String>, text: &String) -> (found: bool)
    ensures
        found == texts.deep_view().contains(text@),
{
    let mut i: usize = 0;
    while i < texts.len()
        invariant
            i <= texts.len(),
            forall|j: int| 0 <= j < i ==> texts@[j]@ != text@,
        decreases texts.len() - i,
    {
        if texts[i] == *text {
            assert(texts.deep_view()[i as int] == text@);
            return true;
        }
        i += 1;
    }
    false
}

/// The digit of a number below ten.
pub open spec fn digit(n: nat) -> Seq<char> {
    if n == 0 {
        "0"@
    } else if n == 1 {
        "1"@
    } else if n == 2 {
        "2"@
    } else if n == 3 {
        "3"@
    } else if n == 4 {
        "4"@
    } else if n == 5 {
        "5"@
    } else if n == 6 {
        "6"@
    } else if n == 7 {
        "7"@
    } else if n == 8 {
        "8"@
    } else {
        "9"@
    }
}

/// A number written in decimal, without leading zeros.
pub open spec fn decimal(n: nat) -> Seq<char>
    decreases n,
{
    if n < 10 {
        digit(n)
    } else {
        decimal(n / 10) + digit(n % 10)
    }
}

fn digit_text(n: usize) -> (text: &'static str)
    requires
        n < 10,
    ensures
        text@ == digit(n as nat),
{
    if n == 0 {
        "0"
    } else if n == 1 {
        "1"
    } else if n == 2 {
        "2"
    } else if n == 3 {
        "3"
    } else if n == 4 {
        "4"
    } else if n == 5 {
        "5"
    } else if n == 6 {
        "6"
    } else if n == 7 {
        "7"
    } else if n == 8 {
        "8"
    } else {
        "9"
    }
}

/// Writes a number in decimal.
pub fn decimal_text(n: usize) -> (text: String)
    ensures
        text@ == decimal(n as nat),
    decreases n,
{
    if n < 10 {
        String::from_str(digit_text(n))
    } else {
        decimal_text(n / 10).concat(digit_text(n % 10))
    }
}

/// A digit is one character, and different digits differ.
pub proof fn lemma_digits_differ(a: nat, b: nat)
    requires
        a < 10,
        b < 10,
    ensures
        digit(a).len() == 1,
        digit(a) == digit(b) ==> a == b,
{
    reveal_strlit("0");
    reveal_strlit("1");
    reveal_strlit("2");
    reveal_strlit("3");
    reveal_strlit("4");
    reveal_strlit("5");
    reveal_strlit("6");
    reveal_strlit("7");
    reveal_strlit("8");
    reveal_strlit("9");
    if digit(a) == digit(b) {
        assert(digit(a)[0] == digit(b)[0]);
    }
}

/// A number has as many digits as its tenth and one more.
proof fn lemma_decimal_length(n: nat)
    ensures
        decimal(n).len() >= 1,
        n >= 10 ==> decimal(n).len() == decimal(n / 10).len() + 1,
    decreases n,
{
    lemma_digits_differ(n % 10, 0);
    if n >= 10 {
        lemma_decimal_length(n / 10);
    } else {
        lemma_digits_differ(n, 0);
    }
}

/// Different numbers are written differently.
pub proof fn lemma_decimal_is_injective(a: nat, b: nat)
    requires
        decimal(a) == decimal(b),
    ensures
        a == b,
    decreases a,
{
    lemma_decimal_length(a);
    lemma_decimal_length(b);
    if a < 10 && b < 10 {
        lemma_digits_differ(a, b);
    } else if a >= 10 && b >= 10 {
        lemma_digits_differ(a % 10, b % 10);
        let front_a = decimal(a / 10);
        let front_b = decimal(b / 10);
        let whole_a = front_a + digit(a % 10);
        let whole_b = front_b + digit(b % 10);
        assert(whole_a == whole_b);
        assert(front_a.len() == front_b.len());
        assert(whole_a.subrange(0, front_a.len() as int) =~= front_a);
        assert(whole_b.subrange(0, front_b.len() as int) =~= front_b);
        assert(front_a == front_b);
        assert(whole_a.subrange(front_a.len() as int, whole_a.len() as int) =~= digit(a % 10));
        assert(whole_b.subrange(front_b.len() as int, whole_b.len() as int) =~= digit(b % 10));
        lemma_decimal_is_injective(a / 10, b / 10);
    } else if a >= 10 {
        lemma_decimal_length(a / 10);
        lemma_digits_differ(b, 0);
    } else {
        lemma_decimal_length(b / 10);
        lemma_digits_differ(a, 0);
    }
}

} // verus!
