//! A verified command-line calculator library.
//!
//! The library handles single-line commands of the form `<op> <a> <b>`,
//! where `<op>` is one of a fixed set of arithmetic operations (each with
//! a symbolic and a keyword alias).  Tokenization, the empty-input and
//! arity checks, the alias lookup and the read-eval-print loop's
//! decisions are all specified and verified here; `parse_command` hands a
//! caller the operation and the two operand tokens, so that a program can
//! apply any number type of its own — a 64-bit float, say — to them.
//!
//! The library also carries a complete evaluator of its own, `evaluate`,
//! over the one number type a verifier can reason about exactly: signed
//! decimal integers.  Its parsing, arithmetic, overflow handling and
//! decimal formatting are verified end to end.

pub mod chars;
pub mod tokens;
pub mod number;
pub mod arith;
pub mod format;
pub mod eval;
pub mod repl;
pub mod laws;
