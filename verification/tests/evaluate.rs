use minicalc::eval::{evaluate, parse_command, EvalError, Op};

#[test]
fn test_add() {
    assert_eq!(evaluate("+ 2 3").unwrap(), "5");
    assert_eq!(evaluate("add 2 3").unwrap(), "5");
}

#[test]
fn test_div_by_zero() {
    assert!(evaluate("/ 4 0").is_err());
}

#[test]
fn test_pow() {
    assert_eq!(evaluate("pow 2 3").unwrap(), "8");
}

#[test]
fn test_bad_tokens() {
    assert!(evaluate("+ 2").is_err());
    assert!(evaluate("hello").is_err());
}

#[test]
fn test_alias_pairs_agree() {
    assert_eq!(evaluate("- 10 4").unwrap(), "6");
    assert_eq!(evaluate("sub 10 4").unwrap(), "6");
    assert_eq!(evaluate("* 6 7").unwrap(), "42");
    assert_eq!(evaluate("mul 6 7").unwrap(), "42");
    assert_eq!(evaluate("x 6 7").unwrap(), "42");
    assert_eq!(evaluate("/ 9 3").unwrap(), "3");
    assert_eq!(evaluate("div 9 3").unwrap(), "3");
    assert_eq!(evaluate("^ 2 10").unwrap(), "1024");
    assert_eq!(evaluate("pow 2 10").unwrap(), "1024");
}

#[test]
fn test_negative_operands() {
    assert_eq!(evaluate("+ -2 -3").unwrap(), "-5");
    assert_eq!(evaluate("- 2 5").unwrap(), "-3");
    assert_eq!(evaluate("* -2 3").unwrap(), "-6");
    assert_eq!(evaluate("* -2 -3").unwrap(), "6");
    assert_eq!(evaluate("+ +4 1").unwrap(), "5");
}

#[test]
fn test_division_truncates_toward_zero() {
    assert_eq!(evaluate("/ 9 2").unwrap(), "4");
    assert_eq!(evaluate("/ -9 2").unwrap(), "-4");
    assert_eq!(evaluate("/ 9 -2").unwrap(), "-4");
    assert_eq!(evaluate("/ -9 -2").unwrap(), "4");
}

#[test]
fn test_pow_edge_cases() {
    assert_eq!(evaluate("pow 5 0").unwrap(), "1");
    assert_eq!(evaluate("pow 0 0").unwrap(), "1");
    assert_eq!(evaluate("pow 0 5").unwrap(), "0");
    assert_eq!(evaluate("pow 1 100000").unwrap(), "1");
    assert_eq!(evaluate("pow -1 100001").unwrap(), "-1");
    assert_eq!(evaluate("pow -2 3").unwrap(), "-8");
    assert_eq!(evaluate("pow -2 2").unwrap(), "4");
}

#[test]
fn test_large_exact_values() {
    assert_eq!(
        evaluate("* 18446744073709551615 18446744073709551615").unwrap(),
        "340282366920938463426481119284349108225"
    );
    assert_eq!(
        evaluate("+ 18446744073709551615 1").unwrap(),
        "18446744073709551616"
    );
    assert_eq!(evaluate("pow 2 127").unwrap(), "170141183460469231731687303715884105728");
}

#[test]
fn test_whitespace_is_ignored_around_tokens() {
    assert_eq!(evaluate("   +   2\t3  ").unwrap(), "5");
    assert_eq!(evaluate("\t add \t 2 \t 3 \t").unwrap(), "5");
}

#[test]
fn test_empty_input_error() {
    assert!(matches!(evaluate(""), Err(EvalError::EmptyInput)));
    assert!(matches!(evaluate("   \t  "), Err(EvalError::EmptyInput)));
}

#[test]
fn test_wrong_arity_error() {
    assert!(matches!(evaluate("+ 2"), Err(EvalError::WrongArity)));
    assert!(matches!(evaluate("hello"), Err(EvalError::WrongArity)));
    assert!(matches!(evaluate("+ 1 2 3"), Err(EvalError::WrongArity)));
}

#[test]
fn test_unknown_operation_error_names_token() {
    match evaluate("% 1 2") {
        Err(EvalError::UnknownOperation(t)) => assert_eq!(t, "%"),
        other => panic!("expected an unknown-operation error, got {:?}", other),
    }
}

#[test]
fn test_invalid_number_error_names_token() {
    match evaluate("+ two 3") {
        Err(EvalError::InvalidNumber(t)) => assert_eq!(t, "two"),
        other => panic!("expected an invalid-number error, got {:?}", other),
    }
    match evaluate("+ 2 3.5") {
        Err(EvalError::InvalidNumber(t)) => assert_eq!(t, "3.5"),
        other => panic!("expected an invalid-number error, got {:?}", other),
    }
    assert!(matches!(
        evaluate("+ 99999999999999999999 1"),
        Err(EvalError::InvalidNumber(_))
    ));
}

#[test]
fn test_division_by_zero_error() {
    assert!(matches!(evaluate("/ 4 0"), Err(EvalError::DivisionByZero)));
    assert!(matches!(evaluate("div 1 -0"), Err(EvalError::DivisionByZero)));
}

#[test]
fn test_pow_errors() {
    assert!(matches!(evaluate("pow 2 -1"), Err(EvalError::NegativeExponent)));
    assert!(matches!(evaluate("pow 2 200"), Err(EvalError::Overflow)));
}

#[test]
fn test_error_messages() {
    assert_eq!(
        evaluate("/ 4 0").unwrap_err().message(),
        "Division by zero is not allowed"
    );
    assert_eq!(
        evaluate("% 1 2").unwrap_err().message(),
        "Unknown operation '%'. Try one of: +, -, *, /, ^ (or add, sub, mul, div, pow)"
    );
    assert_eq!(evaluate("+ two 3").unwrap_err().message(), "'two' is not a number");
    assert_eq!(
        evaluate("").unwrap_err().message(),
        "Please enter an operation, e.g. '+ 2 3'"
    );
    assert_eq!(
        evaluate("+ 2").unwrap_err().message(),
        "Expected 3 tokens: <op> <a> <b>"
    );
}

#[test]
fn test_parse_command_hands_tokens_back_untouched() {
    let cmd = parse_command("pow 2.5 -3").unwrap();
    assert_eq!(cmd.op, Op::Pow);
    assert_eq!(cmd.a, "2.5");
    assert_eq!(cmd.b, "-3");
}

#[test]
fn test_parse_command_errors() {
    assert!(matches!(parse_command("  "), Err(EvalError::EmptyInput)));
    assert!(matches!(parse_command("+ 1"), Err(EvalError::WrongArity)));
    match parse_command("% 1 2") {
        Err(EvalError::UnknownOperation(t)) => assert_eq!(t, "%"),
        _ => panic!("expected an unknown-operation error"),
    }
}

#[test]
fn test_unicode_whitespace_is_whitespace() {
    assert!(matches!(evaluate("\u{000B}"), Err(EvalError::EmptyInput)));
    assert!(matches!(evaluate(" \u{000C}\u{0085}\u{00A0} "), Err(EvalError::EmptyInput)));
    assert_eq!(evaluate("+\u{00A0}2\u{2003}3").unwrap(), "5");
    assert_eq!(evaluate("\u{3000}add 2 3\u{2028}").unwrap(), "5");
}
