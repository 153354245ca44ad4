use minicalc::eval::{EvalError, Op};
use minicalc::repl::{repl_step, ReplAction, ReplEvent};

#[test]
fn test_end_of_stream_says_farewell() {
    assert!(matches!(repl_step(ReplEvent::EndOfStream), ReplAction::Farewell));
}

#[test]
fn test_exit_words_say_farewell_in_any_case() {
    for word in ["exit", "quit", "EXIT", "Quit", "eXiT", "QUIT"] {
        let ev = ReplEvent::Line(word.to_string());
        assert!(matches!(repl_step(ev), ReplAction::Farewell));
    }
}

#[test]
fn test_exit_word_is_recognized_with_whitespace() {
    let ev = ReplEvent::Line("  exit  ".to_string());
    assert!(matches!(repl_step(ev), ReplAction::Farewell));
}

#[test]
fn test_ordinary_line_becomes_a_command() {
    match repl_step(ReplEvent::Line("+ 1 2".to_string())) {
        ReplAction::Compute(cmd) => {
            assert_eq!(cmd.op, Op::Add);
            assert_eq!(cmd.a, "1");
            assert_eq!(cmd.b, "2");
        }
        _ => panic!("expected a command"),
    }
}

#[test]
fn test_operand_tokens_are_handed_on_untouched() {
    match repl_step(ReplEvent::Line("/ 2.5 0.0".to_string())) {
        ReplAction::Compute(cmd) => {
            assert_eq!(cmd.op, Op::Div);
            assert_eq!(cmd.a, "2.5");
            assert_eq!(cmd.b, "0.0");
        }
        _ => panic!("expected a command"),
    }
}

#[test]
fn test_malformed_line_keeps_the_loop_running() {
    match repl_step(ReplEvent::Line("% 1 2".to_string())) {
        ReplAction::Reject(e) => match e {
            EvalError::UnknownOperation(t) => assert_eq!(t, "%"),
            _ => panic!("expected an unknown-operation error"),
        },
        _ => panic!("expected a rejection"),
    }
}

#[test]
fn test_exit_with_extra_tokens_is_not_an_exit() {
    match repl_step(ReplEvent::Line("exit now".to_string())) {
        ReplAction::Reject(e) => assert!(matches!(e, EvalError::WrongArity)),
        _ => panic!("expected a rejection"),
    }
}
