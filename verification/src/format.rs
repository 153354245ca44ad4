//! Rendering a computed result as decimal text.

use vstd::prelude::*;
use crate::arith::Signed;
use crate::chars::string_of;

verus! {

/// The digit character for a value between 0 and 9.
pub open spec fn char_of_digit(d: int) -> char {
    if d == 0 { '0' }
    else if d == 1 { '1' }
    else if d == 2 { '2' }
    else if d == 3 { '3' }
    else if d == 4 { '4' }
    else if d == 5 { '5' }
    else if d == 6 { '6' }
    else if d == 7 { '7' }
    else if d == 8 { '8' }
    else { '9' }
}

/// Decimal digits of a natural number, most significant first; the empty
/// sequence for zero.
pub open spec fn dec_digits(n: nat) -> Seq<char>
    decreases n,
{
    if n == 0 {
        Seq::empty()
    } else {
        dec_digits(n / 10).push(char_of_digit((n % 10) as int))
    }
}

/// Decimal text of an integer: a possible minus sign followed by the
/// digits, with zero written as a single digit.
pub open spec fn spec_format(v: int) -> Seq<char> {
    if v == 0 {
        seq!['0']
    } else if v < 0 {
        seq!['-'] + dec_digits((-v) as nat)
    } else {
        dec_digits(v as nat)
    }
}

/// The digit character for a value between 0 and 9, executable form.
fn digit_to_char(d: u128) -> (c: char)
    requires
        d < 10,
    ensures
        c == char_of_digit(d as int),
{
    if d == 0 { '0' }
    else if d == 1 { '1' }
    else if d == 2 { '2' }
    else if d == 3 { '3' }
    else if d == 4 { '4' }
    else if d == 5 { '5' }
    else if d == 6 { '6' }
    else if d == 7 { '7' }
    else if d == 8 { '8' }
    else { '9' }
}

/// Renders a result as decimal text.
pub fn format_signed(s: &Signed) -> (out: String)
    ensures
        out@ == spec_format(s.val()),
{
    if s.mag == 0 {
        let digits: Vec<char> = vec!['0'];
        proof {
            assert(digits@ =~= spec_format(s.val()));
        }
        return string_of(&digits);
    }
    let mut digits: Vec<char> = Vec::new();
    let mut cur: u128 = s.mag;
    while cur > 0
        invariant
            dec_digits(s.mag as nat) == dec_digits(cur as nat) + digits@,
        decreases cur,
    {
        let d: u128 = cur % 10;
        let c: char = digit_to_char(d);
        let ghost prev: Seq<char> = digits@;
        digits.insert(0, c);
        proof {
            assert(digits@ =~= seq![c] + prev);
            assert(dec_digits(cur as nat) == dec_digits((cur as nat) / 10).push(char_of_digit(
                ((cur as nat) % 10) as int,
            )));
            assert((cur / 10) as nat == (cur as nat) / 10);
            assert(dec_digits((cur / 10) as nat) + (seq![c] + prev) =~= (dec_digits(
                (cur as nat) / 10,
            ).push(c)) + prev);
        }
        cur = cur / 10;
    }
    proof {
        assert(dec_digits(0) + digits@ =~= digits@);
    }
    if s.neg {
        let mut out: Vec<char> = vec!['-'];
        let ghost head: Seq<char> = out@;
        let mut tail: Vec<char> = digits;
        out.append(&mut tail);
        proof {
            assert(out@ =~= seq!['-'] + dec_digits(s.mag as nat));
            assert(s.val() == -(s.mag as int));
            assert((-s.val()) as nat == s.mag as nat);
        }
        string_of(&out)
    } else {
        proof {
            assert(s.val() == s.mag as int);
        }
        string_of(&digits)
    }
}

} // verus!
