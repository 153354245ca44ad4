//! Signed decimal integer tokens: their grammar, their value, and a
//! verified parser into sign-and-magnitude form.

use vstd::prelude::*;
use crate::chars::{is_digit, digit_val, digit_char};

verus! {

/// The digits of a number token, after any leading sign.
pub open spec fn num_body(t: Seq<char>) -> Seq<char> {
    if t.len() > 0 && (t[0] == '+' || t[0] == '-') {
        t.drop_first()
    } else {
        t
    }
}

/// A number token is an optional sign followed by one or more decimal
/// digits.
pub open spec fn is_num_token(t: Seq<char>) -> bool {
    &&& num_body(t).len() > 0
    &&& forall|i: int| 0 <= i < num_body(t).len() ==> is_digit(num_body(t)[i])
}

/// Value of a digit string, read most-significant first.
pub open spec fn digits_val(s: Seq<char>) -> int
    decreases s.len(),
{
    if s.len() == 0 {
        0
    } else {
        digits_val(s.drop_last()) * 10 + digit_val(s.last())
    }
}

/// Magnitude of a number token: the value of its digits.
pub open spec fn num_mag(t: Seq<char>) -> int {
    digits_val(num_body(t))
}

/// Signed value of a number token.
pub open spec fn num_val(t: Seq<char>) -> int {
    if t.len() > 0 && t[0] == '-' {
        -num_mag(t)
    } else {
        num_mag(t)
    }
}

/// A number token the evaluator accepts: well-formed and with a magnitude
/// that fits the operand type.
pub open spec fn valid_number(t: Seq<char>) -> bool {
    is_num_token(t) && num_mag(t) <= u64::MAX
}

/// An operand: a signed 64-bit magnitude with an explicit sign.
pub struct Num {
    pub neg: bool,
    pub mag: u64,
}

impl Num {
    /// The integer this operand denotes.
    pub open spec fn val(self) -> int {
        if self.neg {
            -(self.mag as int)
        } else {
            self.mag as int
        }
    }
}

/// A digit string's value is never negative.
proof fn lemma_digits_val_nonneg(s: Seq<char>)
    requires
        forall|i: int| 0 <= i < s.len() ==> is_digit(s[i]),
    ensures
        digits_val(s) >= 0,
    decreases s.len(),
{
    if s.len() > 0 {
        assert(forall|i: int| 0 <= i < s.drop_last().len() ==> is_digit(s.drop_last()[i]));
        lemma_digits_val_nonneg(s.drop_last());
    }
}

/// Value of a prefix of a digit string is at most the value of the whole.
proof fn lemma_digits_val_prefix(s: Seq<char>, i: int)
    requires
        0 <= i <= s.len(),
        forall|j: int| 0 <= j < s.len() ==> is_digit(s[j]),
    ensures
        digits_val(s.take(i)) <= digits_val(s),
    decreases s.len() - i,
{
    if i < s.len() {
        lemma_digits_val_prefix(s, i + 1);
        let p: Seq<char> = s.take(i + 1);
        assert(p.drop_last() =~= s.take(i));
        assert(forall|j: int| 0 <= j < s.take(i).len() ==> is_digit(s.take(i)[j]));
        lemma_digits_val_nonneg(s.take(i));
        assert(digits_val(s.take(i)) <= digits_val(s.take(i)) * 10 + digit_val(p.last()));
    } else {
        assert(s.take(i) =~= s);
    }
}

/// Numeric value of a digit character.
fn digit_value(c: char) -> (d: u64)
    requires
        is_digit(c),
    ensures
        d == digit_val(c),
{
    if c == '0' { 0 }
    else if c == '1' { 1 }
    else if c == '2' { 2 }
    else if c == '3' { 3 }
    else if c == '4' { 4 }
    else if c == '5' { 5 }
    else if c == '6' { 6 }
    else if c == '7' { 7 }
    else if c == '8' { 8 }
    else { 9 }
}

/// Parses a token as a signed decimal integer.  Returns `None` exactly
/// when the token is not a well-formed number or its magnitude does not
/// fit in the operand type.
pub fn parse_number(t: &Vec<char>) -> (r: Option<Num>)
    ensures
        match r {
            Some(n) => valid_number(t@) && n.val() == num_val(t@) && n.mag == num_mag(t@) && n.neg
                == (t@[0] == '-'),
            None => !valid_number(t@),
        },
{
    let len: usize = t.len();
    if len == 0 {
        return None;
    }
    let first: char = t[0];
    let neg: bool = first == '-';
    let start: usize = if first == '-' || first == '+' {
        1
    } else {
        0
    };
    proof {
        assert(num_body(t@) =~= t@.skip(start as int));
    }
    if start == len {
        return None;
    }
    let mut mag: u64 = 0;
    let mut i: usize = start;
    while i < len
        invariant
            start <= i <= len,
            len == t@.len(),
            start < len,
            num_body(t@) == t@.skip(start as int),
            forall|j: int| start <= j < i ==> is_digit(t@[j]),
            mag == digits_val(num_body(t@).take(i - start)),
        decreases len - i,
    {
        let c: char = t[i];
        if !digit_char(c) {
            proof {
                assert(num_body(t@)[i - start] == t@[i as int]);
                assert(!is_digit(num_body(t@)[i - start]));
            }
            return None;
        }
        let d: u64 = digit_value(c);
        let ghost prefix: Seq<char> = num_body(t@).take(i - start);
        proof {
            assert(num_body(t@).take(i + 1 - start).drop_last() =~= prefix);
            assert(num_body(t@).take(i + 1 - start).last() == t@[i as int]);
        }
        let scaled: u64 = match mag.checked_mul(10) {
            Some(x) => x,
            None => {
                proof {
                    assert(digits_val(num_body(t@).take(i + 1 - start)) > u64::MAX);
                    if is_num_token(t@) {
                        lemma_digits_val_prefix(num_body(t@), i + 1 - start);
                    }
                }
                return None;
            },
        };
        let total: u64 = match scaled.checked_add(d) {
            Some(x) => x,
            None => {
                proof {
                    assert(digits_val(num_body(t@).take(i + 1 - start)) > u64::MAX);
                    if is_num_token(t@) {
                        lemma_digits_val_prefix(num_body(t@), i + 1 - start);
                    }
                }
                return None;
            },
        };
        mag = total;
        i = i + 1;
    }
    proof {
        assert(num_body(t@).take(len - start) =~= num_body(t@));
        assert(forall|j: int| 0 <= j < num_body(t@).len() ==> is_digit(num_body(t@)[j]));
    }
    Some(Num { neg, mag })
}

} // verus!
