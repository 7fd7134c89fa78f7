//! The line of text that shows the score between two rounds.

use vstd::prelude::*;
use arrayvec::ArrayString;
use std::fmt::Write;

verus! {

/// The longest score line that can be shown, in characters.
pub const SCORE_CAPACITY: usize = 20;

/// The character of the decimal digit `d`.
pub open spec fn digit(d: int) -> char {
    seq!['0', '1', '2', '3', '4', '5', '6', '7', '8', '9'][d]
}

/// `n` written in decimal, without leading zeros.
pub open spec fn decimal(n: nat) -> Seq<char>
    decreases n,
{
    if n < 10 {
        seq![digit(n as int)]
    } else {
        decimal(n / 10).push(digit((n % 10) as int))
    }
}

/// The score line: both scores in decimal, a hyphen between two spaces
/// separating them.
pub open spec fn score_line(p1_score: u32, p2_score: u32) -> Seq<char> {
    decimal(p1_score as nat) + seq![' ', '-', ' '] + decimal(p2_score as nat)
}

/// The number of decimal digits of `n`.
pub open spec fn digits(n: nat) -> nat
    decreases n,
{
    if n < 10 {
        1
    } else {
        digits(n / 10) + 1
    }
}

/// A number's decimal form has as many characters as the number has digits,
/// and a number below ten million has at most seven.
pub proof fn lemma_decimal_len(n: nat)
    ensures
        decimal(n).len() == digits(n),
        n < 10_000_000 ==> digits(n) <= 7,
    decreases n,
{
    reveal_with_fuel(digits, 8);
    if n >= 10 {
        lemma_decimal_len(n / 10);
    }
}

/// Formats the score line with `write!` into an `arrayvec::ArrayString` of
/// [`SCORE_CAPACITY`] bytes, through the string's `core::fmt::Write::write_str`,
/// and copies the text out. Not proved, but taken from the two libraries:
/// `write_str` appends a piece where it fits in what is left of the capacity
/// and fails otherwise, and std writes an unsigned integer as its decimal
/// digits. So the result is the score line where that has at most
/// [`SCORE_CAPACITY`] characters, and `None` where it is longer.
#[verifier::external_body]
fn write_score(p1_score: u32, p2_score: u32) -> (text: Option<String>)
    ensures
        text is Some <==> score_line(p1_score, p2_score).len() <= SCORE_CAPACITY,
        text is Some ==> text.unwrap()@ == score_line(p1_score, p2_score),
{
    let mut score_str = ArrayString::<[u8; SCORE_CAPACITY]>::new();
    match write!(&mut score_str, "{} - {}", p1_score, p2_score) {
        Ok(()) => Some(String::from(score_str.as_str())),
        Err(_) => None,
    }
}

/// The score line for the two scores, or `None` where it would be longer
/// than [`SCORE_CAPACITY`] characters. Scores below ten million always fit.
pub fn score_text(p1_score: u32, p2_score: u32) -> (text: Option<String>)
    ensures
        text is Some <==> digits(p1_score as nat) + 3 + digits(p2_score as nat) <= SCORE_CAPACITY,
        text is Some ==> text.unwrap()@ == score_line(p1_score, p2_score),
        p1_score < 10_000_000 && p2_score < 10_000_000 ==> text is Some,
{
    proof {
        lemma_decimal_len(p1_score as nat);
        lemma_decimal_len(p2_score as nat);
    }
    write_score(p1_score, p2_score)
}

} // verus!
