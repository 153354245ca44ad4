//! Laws of the evaluator, each stated over the ghost model and proved
//! once and for all.

use vstd::prelude::*;
use vstd::arithmetic::power::pow;
use vstd::math::abs;
use crate::chars::is_space;
use crate::tokens::{spec_tokens, lemma_tokens_all_space};
use crate::number::{valid_number, num_val};
use crate::eval::{
    Op, SpecError, spec_op_of, spec_apply, spec_eval_tokens, spec_eval,
};
use crate::format::spec_format;

verus! {

/// Every alias of the table names the operation it stands for: `+` and
/// `add`, `-` and `sub`, `*`, `mul` and `x`, `/` and `div`, `^` and
/// `pow`.
pub proof fn lemma_alias_table()
    ensures
        spec_op_of("+"@) == Some(Op::Add) && spec_op_of("add"@) == Some(Op::Add),
        spec_op_of("-"@) == Some(Op::Sub) && spec_op_of("sub"@) == Some(Op::Sub),
        spec_op_of("*"@) == Some(Op::Mul) && spec_op_of("mul"@) == Some(Op::Mul) && spec_op_of(
            "x"@,
        ) == Some(Op::Mul),
        spec_op_of("/"@) == Some(Op::Div) && spec_op_of("div"@) == Some(Op::Div),
        spec_op_of("^"@) == Some(Op::Pow) && spec_op_of("pow"@) == Some(Op::Pow),
{
    reveal_strlit("+");
    reveal_strlit("add");
    reveal_strlit("-");
    reveal_strlit("sub");
    reveal_strlit("*");
    reveal_strlit("mul");
    reveal_strlit("x");
    reveal_strlit("/");
    reveal_strlit("div");
    reveal_strlit("^");
    reveal_strlit("pow");
    assert("add"@ != "+"@) by { assert("add"@.len() != "+"@.len()); }
    assert("-"@ != "+"@) by { assert("-"@[0] != "+"@[0]); }
    assert("-"@ != "add"@) by { assert("-"@.len() != "add"@.len()); }
    assert("sub"@ != "+"@) by { assert("sub"@.len() != "+"@.len()); }
    assert("sub"@ != "add"@) by { assert("sub"@[0] != "add"@[0]); }
    assert("sub"@ != "-"@) by { assert("sub"@.len() != "-"@.len()); }
    assert("*"@ != "+"@) by { assert("*"@[0] != "+"@[0]); }
    assert("*"@ != "add"@) by { assert("*"@.len() != "add"@.len()); }
    assert("*"@ != "-"@) by { assert("*"@[0] != "-"@[0]); }
    assert("*"@ != "sub"@) by { assert("*"@.len() != "sub"@.len()); }
    assert("mul"@ != "+"@) by { assert("mul"@.len() != "+"@.len()); }
    assert("mul"@ != "add"@) by { assert("mul"@[0] != "add"@[0]); }
    assert("mul"@ != "-"@) by { assert("mul"@.len() != "-"@.len()); }
    assert("mul"@ != "sub"@) by { assert("mul"@[0] != "sub"@[0]); }
    assert("mul"@ != "*"@) by { assert("mul"@.len() != "*"@.len()); }
    assert("x"@ != "+"@) by { assert("x"@[0] != "+"@[0]); }
    assert("x"@ != "add"@) by { assert("x"@.len() != "add"@.len()); }
    assert("x"@ != "-"@) by { assert("x"@[0] != "-"@[0]); }
    assert("x"@ != "sub"@) by { assert("x"@.len() != "sub"@.len()); }
    assert("x"@ != "*"@) by { assert("x"@[0] != "*"@[0]); }
    assert("x"@ != "mul"@) by { assert("x"@.len() != "mul"@.len()); }
    assert("/"@ != "+"@) by { assert("/"@[0] != "+"@[0]); }
    assert("/"@ != "add"@) by { assert("/"@.len() != "add"@.len()); }
    assert("/"@ != "-"@) by { assert("/"@[0] != "-"@[0]); }
    assert("/"@ != "sub"@) by { assert("/"@.len() != "sub"@.len()); }
    assert("/"@ != "*"@) by { assert("/"@[0] != "*"@[0]); }
    assert("/"@ != "mul"@) by { assert("/"@.len() != "mul"@.len()); }
    assert("/"@ != "x"@) by { assert("/"@[0] != "x"@[0]); }
    assert("div"@ != "+"@) by { assert("div"@.len() != "+"@.len()); }
    assert("div"@ != "add"@) by { assert("div"@[0] != "add"@[0]); }
    assert("div"@ != "-"@) by { assert("div"@.len() != "-"@.len()); }
    assert("div"@ != "sub"@) by { assert("div"@[0] != "sub"@[0]); }
    assert("div"@ != "*"@) by { assert("div"@.len() != "*"@.len()); }
    assert("div"@ != "mul"@) by { assert("div"@[0] != "mul"@[0]); }
    assert("div"@ != "x"@) by { assert("div"@.len() != "x"@.len()); }
    assert("div"@ != "/"@) by { assert("div"@.len() != "/"@.len()); }
    assert("^"@ != "+"@) by { assert("^"@[0] != "+"@[0]); }
    assert("^"@ != "add"@) by { assert("^"@.len() != "add"@.len()); }
    assert("^"@ != "-"@) by { assert("^"@[0] != "-"@[0]); }
    assert("^"@ != "sub"@) by { assert("^"@.len() != "sub"@.len()); }
    assert("^"@ != "*"@) by { assert("^"@[0] != "*"@[0]); }
    assert("^"@ != "mul"@) by { assert("^"@.len() != "mul"@.len()); }
    assert("^"@ != "x"@) by { assert("^"@[0] != "x"@[0]); }
    assert("^"@ != "/"@) by { assert("^"@[0] != "/"@[0]); }
    assert("^"@ != "div"@) by { assert("^"@.len() != "div"@.len()); }
    assert("pow"@ != "+"@) by { assert("pow"@.len() != "+"@.len()); }
    assert("pow"@ != "add"@) by { assert("pow"@[0] != "add"@[0]); }
    assert("pow"@ != "-"@) by { assert("pow"@.len() != "-"@.len()); }
    assert("pow"@ != "sub"@) by { assert("pow"@[0] != "sub"@[0]); }
    assert("pow"@ != "*"@) by { assert("pow"@.len() != "*"@.len()); }
    assert("pow"@ != "mul"@) by { assert("pow"@[0] != "mul"@[0]); }
    assert("pow"@ != "x"@) by { assert("pow"@.len() != "x"@.len()); }
    assert("pow"@ != "/"@) by { assert("pow"@.len() != "/"@.len()); }
    assert("pow"@ != "div"@) by { assert("pow"@[0] != "div"@[0]); }
    assert("pow"@ != "^"@) by { assert("pow"@.len() != "^"@.len()); }
}

/// Two spellings of the same operation evaluate a command identically,
/// whatever the operands.
pub proof fn lemma_alias_equivalence(t1: Seq<char>, t2: Seq<char>, a: Seq<char>, b: Seq<char>)
    requires
        spec_op_of(t1) == spec_op_of(t2),
        spec_op_of(t1) is Some,
    ensures
        spec_eval_tokens(seq![t1, a, b]) == spec_eval_tokens(seq![t2, a, b]),
{
    let op: Op = spec_op_of(t1)->Some_0;
    match op {
        Op::Add => {},
        Op::Sub => {},
        Op::Mul => {},
        Op::Div => {},
        Op::Pow => {},
    }
    assert(seq![t1, a, b].len() == 3);
    assert(seq![t1, a, b][0] == t1);
    assert(seq![t1, a, b][1] == a);
    assert(seq![t1, a, b][2] == b);
    assert(seq![t2, a, b][0] == t2);
    assert(seq![t2, a, b][1] == a);
    assert(seq![t2, a, b][2] == b);
}

/// A command whose operation is in the table and whose operands are
/// accepted numbers succeeds with exactly the operation's value — as
/// long as the operation itself has one: division asks for a nonzero
/// divisor, and a power for a nonnegative exponent and a result that
/// fits.
pub proof fn lemma_valid_triple(t: Seq<char>, a: Seq<char>, b: Seq<char>, op: Op)
    requires
        spec_op_of(t) == Some(op),
        valid_number(a),
        valid_number(b),
        op == Op::Div ==> num_val(b) != 0,
        op == Op::Pow ==> num_val(b) >= 0 && pow(abs(num_val(a)) as int, num_val(b) as nat)
            <= u128::MAX,
    ensures
        spec_apply(op, num_val(a), num_val(b)) matches Ok(v) && spec_eval_tokens(seq![t, a, b])
            == Ok::<Seq<char>, SpecError>(spec_format(v)),
{
    match op {
        Op::Add => {},
        Op::Sub => {},
        Op::Mul => {},
        Op::Div => {},
        Op::Pow => {},
    }
    assert(seq![t, a, b][0] == t);
    assert(seq![t, a, b][1] == a);
    assert(seq![t, a, b][2] == b);
}

/// A division whose divisor is exactly zero fails with the
/// division-by-zero error.
pub proof fn lemma_division_by_zero(t: Seq<char>, a: Seq<char>, b: Seq<char>)
    requires
        spec_op_of(t) == Some(Op::Div),
        valid_number(a),
        valid_number(b),
        num_val(b) == 0,
    ensures
        spec_eval_tokens(seq![t, a, b]) == Err::<Seq<char>, SpecError>(SpecError::DivisionByZero),
{
    assert(seq![t, a, b][0] == t);
    assert(seq![t, a, b][1] == a);
    assert(seq![t, a, b][2] == b);
}

/// A line with some tokens, but not three, is rejected for its arity.
pub proof fn lemma_wrong_arity(s: Seq<char>)
    requires
        spec_tokens(s).len() != 0,
        spec_tokens(s).len() != 3,
    ensures
        spec_eval(s) == Err::<Seq<char>, SpecError>(SpecError::WrongArity),
{
}

/// A line of nothing but whitespace — the empty line included — is
/// rejected as empty input.
pub proof fn lemma_empty_input(s: Seq<char>)
    requires
        forall|i: int| 0 <= i < s.len() ==> is_space(s[i]),
    ensures
        spec_eval(s) == Err::<Seq<char>, SpecError>(SpecError::EmptyInput),
{
    lemma_tokens_all_space(s);
}

/// A three-token line whose first token is no alias fails with the
/// unknown-operation error, and that error names the offending token.
pub proof fn lemma_unknown_operation(s: Seq<char>)
    requires
        spec_tokens(s).len() == 3,
        spec_op_of(spec_tokens(s)[0]) is None,
    ensures
        spec_eval(s) == Err::<Seq<char>, SpecError>(
            SpecError::UnknownOperation(spec_tokens(s)[0]),
        ),
{
}

} // verus!

