//! The evaluator: one line of text in, a rendered result or a descriptive
//! error out.
//!
//! `spec_eval` is the mathematical meaning of a line; `evaluate` is the
//! verified implementation.

use vstd::prelude::*;
use vstd::arithmetic::power::pow;
use vstd::math::abs;
use vstd::string::StringExecFns;
use crate::chars::{chars_of, chars_eq_str, string_of};
use crate::tokens::{spec_tokens, tokenize};
use crate::number::{valid_number, num_val, parse_number, Num};
use crate::arith::{trunc_div, add_nums, sub_nums, mul_nums, div_nums, pow_nums, lemma_pow_abs};
use crate::format::{spec_format, format_signed};

verus! {

/// The five operations of the calculator.
#[derive(Clone, Copy, PartialEq, Eq, Structural, Debug)]
pub enum Op {
    Add,
    Sub,
    Mul,
    Div,
    Pow,
}

/// Why a line was rejected.
#[derive(Debug)]
pub enum EvalError {
    /// The line held no token at all.
    EmptyInput,
    /// The line held some tokens, but not exactly three.
    WrongArity,
    /// The first token names no operation; carries that token.
    UnknownOperation(String),
    /// An operand token is not a number the evaluator accepts; carries
    /// that token.
    InvalidNumber(String),
    /// A division whose divisor is zero.
    DivisionByZero,
    /// A power whose exponent is negative.
    NegativeExponent,
    /// A power whose result does not fit the result type.
    Overflow,
}

/// Ghost counterpart of `EvalError`, carrying token text as a sequence.
pub enum SpecError {
    EmptyInput,
    WrongArity,
    UnknownOperation(Seq<char>),
    InvalidNumber(Seq<char>),
    DivisionByZero,
    NegativeExponent,
    Overflow,
}

/// The operation a token names, if any.  Each operation has a symbolic
/// and a keyword alias; multiplication also accepts `x`.
pub open spec fn spec_op_of(t: Seq<char>) -> Option<Op> {
    if t == "+"@ || t == "add"@ {
        Some(Op::Add)
    } else if t == "-"@ || t == "sub"@ {
        Some(Op::Sub)
    } else if t == "*"@ || t == "mul"@ || t == "x"@ {
        Some(Op::Mul)
    } else if t == "/"@ || t == "div"@ {
        Some(Op::Div)
    } else if t == "^"@ || t == "pow"@ {
        Some(Op::Pow)
    } else {
        None
    }
}

/// The exact value an operation denotes, or the error it must report,
/// for operand values `a` and `b`.
pub open spec fn spec_apply(op: Op, a: int, b: int) -> Result<int, SpecError> {
    match op {
        Op::Add => Ok(a + b),
        Op::Sub => Ok(a - b),
        Op::Mul => Ok(a * b),
        Op::Div => if b == 0 {
            Err(SpecError::DivisionByZero)
        } else {
            Ok(trunc_div(a, b))
        },
        Op::Pow => if b < 0 {
            Err(SpecError::NegativeExponent)
        } else if pow(abs(a) as int, b as nat) > u128::MAX {
            Err(SpecError::Overflow)
        } else {
            Ok(pow(a, b as nat))
        },
    }
}

/// Meaning of a token list: the rendered result, or the first error the
/// evaluator reports.
pub open spec fn spec_eval_tokens(toks: Seq<Seq<char>>) -> Result<Seq<char>, SpecError> {
    if toks.len() == 0 {
        Err(SpecError::EmptyInput)
    } else if toks.len() != 3 {
        Err(SpecError::WrongArity)
    } else {
        match spec_op_of(toks[0]) {
            None => Err(SpecError::UnknownOperation(toks[0])),
            Some(op) => {
                if !valid_number(toks[1]) {
                    Err(SpecError::InvalidNumber(toks[1]))
                } else if !valid_number(toks[2]) {
                    Err(SpecError::InvalidNumber(toks[2]))
                } else {
                    match spec_apply(op, num_val(toks[1]), num_val(toks[2])) {
                        Ok(v) => Ok(spec_format(v)),
                        Err(e) => Err(e),
                    }
                }
            },
        }
    }
}

/// Meaning of a raw input line.
pub open spec fn spec_eval(s: Seq<char>) -> Result<Seq<char>, SpecError> {
    spec_eval_tokens(spec_tokens(s))
}

/// A well-formed command: an operation and its two operand tokens, still
/// as text.  Programs that bring their own number type — a float, a
/// rational — apply `op` to `a` and `b` themselves.
pub struct Command {
    pub op: Op,
    pub a: String,
    pub b: String,
}

/// Meaning of the parsing front end alone: the operation and the two
/// operand tokens of a line, or the first of the errors that no number
/// type can change — empty input, wrong arity, unknown operation.
pub open spec fn spec_parse(s: Seq<char>) -> Result<(Op, Seq<char>, Seq<char>), SpecError> {
    let toks = spec_tokens(s);
    if toks.len() == 0 {
        Err(SpecError::EmptyInput)
    } else if toks.len() != 3 {
        Err(SpecError::WrongArity)
    } else {
        match spec_op_of(toks[0]) {
            None => Err(SpecError::UnknownOperation(toks[0])),
            Some(op) => Ok((op, toks[1], toks[2])),
        }
    }
}

/// An executable command carries exactly the ghost one.
pub open spec fn command_corresponds(c: Command, g: (Op, Seq<char>, Seq<char>)) -> bool {
    c.op == g.0 && c.a@ == g.1 && c.b@ == g.2
}

/// An executable error reports exactly the ghost error, token text
/// included.
pub open spec fn error_corresponds(e: EvalError, f: SpecError) -> bool {
    match (e, f) {
        (EvalError::EmptyInput, SpecError::EmptyInput) => true,
        (EvalError::WrongArity, SpecError::WrongArity) => true,
        (EvalError::UnknownOperation(t), SpecError::UnknownOperation(u)) => t@ == u,
        (EvalError::InvalidNumber(t), SpecError::InvalidNumber(u)) => t@ == u,
        (EvalError::DivisionByZero, SpecError::DivisionByZero) => true,
        (EvalError::NegativeExponent, SpecError::NegativeExponent) => true,
        (EvalError::Overflow, SpecError::Overflow) => true,
        _ => false,
    }
}

/// An executable outcome reports exactly the ghost outcome.
pub open spec fn outcome_corresponds(
    r: Result<String, EvalError>,
    o: Result<Seq<char>, SpecError>,
) -> bool {
    match (r, o) {
        (Ok(s), Ok(t)) => s@ == t,
        (Err(e), Err(f)) => error_corresponds(e, f),
        _ => false,
    }
}

/// The operation named by a token.
pub fn op_of_token(t: &Vec<char>) -> (r: Option<Op>)
    ensures
        r == spec_op_of(t@),
{
    if chars_eq_str(t, "+") || chars_eq_str(t, "add") {
        Some(Op::Add)
    } else if chars_eq_str(t, "-") || chars_eq_str(t, "sub") {
        Some(Op::Sub)
    } else if chars_eq_str(t, "*") || chars_eq_str(t, "mul") || chars_eq_str(t, "x") {
        Some(Op::Mul)
    } else if chars_eq_str(t, "/") || chars_eq_str(t, "div") {
        Some(Op::Div)
    } else if chars_eq_str(t, "^") || chars_eq_str(t, "pow") {
        Some(Op::Pow)
    } else {
        None
    }
}

/// Parses one input line into a command: trims and splits it, checks the
/// arity and looks the operation up, and hands the two operand tokens
/// back untouched.  The outcome is exactly what `spec_parse` assigns to
/// the line.
pub fn parse_command(line: &str) -> (r: Result<Command, EvalError>)
    ensures
        match (r, spec_parse(line@)) {
            (Ok(c), Ok(g)) => command_corresponds(c, g),
            (Err(e), Err(f)) => error_corresponds(e, f),
            _ => false,
        },
{
    let cs: Vec<char> = chars_of(line);
    let toks: Vec<Vec<char>> = tokenize(&cs);
    let ghost gt: Seq<Seq<char>> = spec_tokens(line@);
    proof {
        assert(toks.deep_view() == gt);
        assert(toks@.len() == gt.len());
    }
    if toks.len() == 0 {
        return Err(EvalError::EmptyInput);
    }
    if toks.len() != 3 {
        return Err(EvalError::WrongArity);
    }
    proof {
        assert(toks@[0]@ == gt[0]);
        assert(toks@[1]@ == gt[1]);
        assert(toks@[2]@ == gt[2]);
    }
    let op: Op = match op_of_token(&toks[0]) {
        Some(op) => op,
        None => {
            return Err(EvalError::UnknownOperation(string_of(&toks[0])));
        },
    };
    let a: String = string_of(&toks[1]);
    let b: String = string_of(&toks[2]);
    Ok(Command { op, a, b })
}

/// Evaluates one input line with the library's own number type: parses
/// the command, reads both operands as signed decimal integers, applies
/// the operation exactly, and renders the result as decimal text.  The
/// result — value or error — is exactly what `spec_eval` assigns to the
/// line.
pub fn evaluate(line: &str) -> (r: Result<String, EvalError>)
    ensures
        outcome_corresponds(r, spec_eval(line@)),
{
    let cmd: Command = match parse_command(line) {
        Ok(c) => c,
        Err(e) => {
            return Err(e);
        },
    };
    let op: Op = cmd.op;
    let ta: Vec<char> = chars_of(cmd.a.as_str());
    let tb: Vec<char> = chars_of(cmd.b.as_str());
    proof {
        assert(ta@ == spec_tokens(line@)[1]);
        assert(tb@ == spec_tokens(line@)[2]);
    }
    let a: Num = match parse_number(&ta) {
        Some(n) => n,
        None => {
            return Err(EvalError::InvalidNumber(cmd.a));
        },
    };
    let b: Num = match parse_number(&tb) {
        Some(n) => n,
        None => {
            return Err(EvalError::InvalidNumber(cmd.b));
        },
    };
    match op {
        Op::Add => Ok(format_signed(&add_nums(a, b))),
        Op::Sub => Ok(format_signed(&sub_nums(a, b))),
        Op::Mul => Ok(format_signed(&mul_nums(a, b))),
        Op::Div => {
            if b.mag == 0 {
                Err(EvalError::DivisionByZero)
            } else {
                Ok(format_signed(&div_nums(a, b)))
            }
        },
        Op::Pow => {
            if b.neg && b.mag > 0 {
                Err(EvalError::NegativeExponent)
            } else {
                match pow_nums(a, b.mag) {
                    Some(s) => {
                        proof {
                            lemma_pow_abs(a.val(), b.mag as nat);
                            assert(abs(s.val()) == s.mag);
                        }
                        Ok(format_signed(&s))
                    },
                    None => Err(EvalError::Overflow),
                }
            }
        },
    }
}

/// The descriptive text of an error, exactly as `message` renders it.
pub open spec fn spec_message(e: EvalError) -> Seq<char> {
    match e {
        EvalError::EmptyInput => "Please enter an operation, e.g. '+ 2 3'"@,
        EvalError::WrongArity => "Expected 3 tokens: <op> <a> <b>"@,
        EvalError::UnknownOperation(t) => "Unknown operation '"@ + t@
            + "'. Try one of: +, -, *, /, ^ (or add, sub, mul, div, pow)"@,
        EvalError::InvalidNumber(t) => "'"@ + t@ + "' is not a number"@,
        EvalError::DivisionByZero => "Division by zero is not allowed"@,
        EvalError::NegativeExponent => "Exponent must not be negative"@,
        EvalError::Overflow => "Result is too large to represent"@,
    }
}

impl EvalError {
    /// One descriptive line for the user, naming the offending token
    /// where there is one.
    pub fn message(&self) -> (r: String)
        ensures
            r@ == spec_message(*self),
    {
        match self {
            EvalError::EmptyInput => String::from_str("Please enter an operation, e.g. '+ 2 3'"),
            EvalError::WrongArity => String::from_str("Expected 3 tokens: <op> <a> <b>"),
            EvalError::UnknownOperation(t) => {
                let mut s: String = String::from_str("Unknown operation '");
                s.append(t.as_str());
                s.append("'. Try one of: +, -, *, /, ^ (or add, sub, mul, div, pow)");
                s
            },
            EvalError::InvalidNumber(t) => {
                let mut s: String = String::from_str("'");
                s.append(t.as_str());
                s.append("' is not a number");
                s
            },
            EvalError::DivisionByZero => String::from_str("Division by zero is not allowed"),
            EvalError::NegativeExponent => String::from_str("Exponent must not be negative"),
            EvalError::Overflow => String::from_str("Result is too large to represent"),
        }
    }
}

} // verus!
