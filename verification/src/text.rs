//! Decimal rendering of lengths and the wording of length errors.
use vstd::prelude::*;
use vstd::string::StringExecFns;

verus! {

/// The ASCII character of a decimal digit `d` (`d < 10`).
pub open spec fn digit_char(d: nat) -> char {
    if d == 0 { '0' }
    else if d == 1 { '1' }
    else if d == 2 { '2' }
    else if d == 3 { '3' }
    else if d == 4 { '4' }
    else if d == 5 { '5' }
    else if d == 6 { '6' }
    else if d == 7 { '7' }
    else if d == 8 { '8' }
    else { '9' }
}

/// The decimal representation of `n`, most significant digit first, without
/// leading zeros (`0` is rendered as a single `'0'`).
pub open spec fn decimal(n: nat) -> Seq<char>
    decreases n,
{
    if n < 10 {
        seq![digit_char(n)]
    } else {
        decimal(n / 10) + seq![digit_char(n % 10)]
    }
}

fn digit_str(d: usize) -> (s: &'static str)
    requires
        d < 10,
    ensures
        s@ == seq![digit_char(d as nat)],
{
    if d == 0 {
        proof { reveal_strlit("0"); }
        "0"
    } else if d == 1 {
        proof { reveal_strlit("1"); }
        "1"
    } else if d == 2 {
        proof { reveal_strlit("2"); }
        "2"
    } else if d == 3 {
        proof { reveal_strlit("3"); }
        "3"
    } else if d == 4 {
        proof { reveal_strlit("4"); }
        "4"
    } else if d == 5 {
        proof { reveal_strlit("5"); }
        "5"
    } else if d == 6 {
        proof { reveal_strlit("6"); }
        "6"
    } else if d == 7 {
        proof { reveal_strlit("7"); }
        "7"
    } else if d == 8 {
        proof { reveal_strlit("8"); }
        "8"
    } else {
        proof { reveal_strlit("9"); }
        "9"
    }
}

/// Appends the decimal representation of `n` to `s`.
pub(crate) fn push_decimal(s: &mut String, n: usize)
    ensures
        final(s)@ == old(s)@ + decimal(n as nat),
    decreases n,
{
    if n >= 10 {
        push_decimal(s, n / 10);
    }
    s.append(digit_str(n % 10));
    proof {
        if n >= 10 {
            assert(final(s)@ == old(s)@ + decimal(n as nat));
        }
    }
}

/// The message of a length check: `prefix`, the expected length, `middle`,
/// and the length that was found.
pub open spec fn length_text(
    prefix: Seq<char>,
    expected: nat,
    middle: Seq<char>,
    got: nat,
) -> Seq<char> {
    prefix + decimal(expected) + middle + decimal(got)
}

/// Renders `prefix`, `expected` in decimal, `middle` and `got` in decimal, in
/// that order.
pub(crate) fn length_message(prefix: &str, expected: usize, middle: &str, got: usize) -> (msg: String)
    ensures
        msg@ == length_text(prefix@, expected as nat, middle@, got as nat),
{
    let mut msg = String::from_str(prefix);
    push_decimal(&mut msg, expected);
    msg.append(middle);
    push_decimal(&mut msg, got);
    msg
}

/// The debug rendering of a secret value of type `kind` for the
/// algorithm named `algorithm_name`: the algorithm is shown, the bytes never.
pub open spec fn redacted_text(kind: Seq<char>, algorithm_name: Seq<char>) -> Seq<char> {
    kind + " { algorithm: "@ + algorithm_name + ", bytes: \"<redacted>\" }"@
}

/// Renders `redacted_text(kind, algorithm_name)`.
pub(crate) fn redacted_debug(kind: &str, algorithm_name: &str) -> (text: String)
    ensures
        text@ == redacted_text(kind@, algorithm_name@),
{
    let mut text = String::from_str(kind);
    text.append(" { algorithm: ");
    text.append(algorithm_name);
    text.append(", bytes: \"<redacted>\" }");
    text
}

} // verus!
