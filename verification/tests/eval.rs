use artichoke_bridge::convert::{ConvertMut, TryConvertMut};
use artichoke_bridge::eval::{Outcome, Protect};
use artichoke_bridge::exception::{Error, Exception};
use artichoke_bridge::interp::Artichoke;
use artichoke_bridge::parser::Context;
use artichoke_bridge::types::Ruby;
use artichoke_bridge::value::Value;

fn interpreter() -> Artichoke {
    Artichoke::new()
}

/// Stands in for the engine on the few sources that the tests evaluate.
fn run(interp: &mut Artichoke, code: &[u8]) -> Result<Value, Error> {
    let filename = {
        let protect = Protect::new(interp, code);
        assert_eq!(protect.code(), code);
        protect.filename().to_vec()
    };
    let outcome = match code {
        b"__FILE__" => Outcome::Returned(interp.convert_mut(filename)),
        b"15" => Outcome::Returned(Value::Fixnum(15)),
        b"'a' * 10 " => Outcome::Returned(interp.convert_mut(b"aaaaaaaaaa".to_vec())),
        b"'a" => Outcome::Raised(Exception {
            class: String::from("SyntaxError"),
            message: b"syntax error".to_vec(),
        }),
        other => panic!("no stand-in for {:?}", other),
    };
    interp.eval(outcome)
}

fn bytes(interp: &mut Artichoke, value: Value) -> Vec<u8> {
    let converted: Result<Vec<u8>, Error> = interp.try_convert_mut(value);
    converted.expect("convert")
}

#[test]
fn root_eval_context() {
    let mut interp = interpreter();
    let result = run(&mut interp, b"__FILE__").expect("eval");
    let result = bytes(&mut interp, result);
    assert_eq!(result, b"(eval)");
}

#[test]
fn context_is_restored_after_eval() {
    let mut interp = interpreter();
    let context = Context::new(&b"context.rb"[..]).unwrap();
    interp.push_context(context);
    let _ = run(&mut interp, b"15").expect("eval");
    assert_eq!(interp.peek_context().unwrap().filename(), &b"context.rb"[..]);
}

#[test]
fn root_context_is_not_pushed_after_eval() {
    let mut interp = interpreter();
    let _ = run(&mut interp, b"15").expect("eval");
    assert!(interp.peek_context().is_none());
}

#[test]
fn eval_with_context() {
    let mut interp = interpreter();

    interp.push_context(Context::new(b"source.rb".as_ref()).unwrap());
    let result = run(&mut interp, b"__FILE__").expect("eval");
    let result = bytes(&mut interp, result);
    assert_eq!(result, b"source.rb");
    interp.pop_context();

    interp.push_context(Context::new(b"source.rb".as_ref()).unwrap());
    let result = run(&mut interp, b"__FILE__").expect("eval");
    let result = bytes(&mut interp, result);
    assert_eq!(result, b"source.rb");
    interp.pop_context();

    interp.push_context(Context::new(b"main.rb".as_ref()).unwrap());
    let result = run(&mut interp, b"__FILE__").expect("eval");
    let result = bytes(&mut interp, result);
    assert_eq!(result, b"main.rb");
    interp.pop_context();
}

#[test]
fn unparseable_code_returns_err_syntax_error() {
    let mut interp = interpreter();
    let err = run(&mut interp, b"'a").unwrap_err();
    assert_eq!("SyntaxError", err.name());
}

#[test]
fn interpreter_is_usable_after_syntax_error() {
    let mut interp = interpreter();
    let err = run(&mut interp, b"'a").unwrap_err();
    assert_eq!("SyntaxError", err.name());
    // Ensure interpreter is usable after evaling unparseable code
    let result = run(&mut interp, b"'a' * 10 ").expect("eval");
    let result = bytes(&mut interp, result);
    assert_eq!(result, "a".repeat(10).into_bytes());
}

#[test]
fn envelope_holds_code_name_and_line() {
    let mut interp = interpreter();
    assert_eq!(interp.add_fetch_lineno(41), Ok(42));
    interp.push_context(Context::new(b"outer.rb").unwrap());
    interp.push_context(Context::new(b"inner.rb").unwrap());
    let protect = Protect::new(&interp, b"1 + 1");
    assert_eq!(protect.code(), b"1 + 1");
    assert_eq!(protect.filename(), b"inner.rb");
    assert_eq!(protect.lineno(), 42);
    let copy = protect;
    assert_eq!(copy.code(), protect.code());
}

#[test]
fn current_source_name_follows_the_stack() {
    let mut interp = interpreter();
    assert_eq!(Protect::new(&interp, b"").filename(), b"(eval)");
    interp.push_context(Context::new(b"a.rb").unwrap());
    assert_eq!(Protect::new(&interp, b"").filename(), b"a.rb");
    interp.push_context(Context::new(b"b.rb").unwrap());
    assert_eq!(Protect::new(&interp, b"").filename(), b"b.rb");
    interp.pop_context();
    assert_eq!(Protect::new(&interp, b"").filename(), b"a.rb");
    interp.pop_context();
    assert_eq!(Protect::new(&interp, b"").filename(), b"(eval)");
}

#[test]
fn unreachable_value_is_a_fatal_error() {
    let mut interp = interpreter();
    let error = interp.eval(Outcome::Returned(Value::Unreachable)).unwrap_err();
    assert!(matches!(error, Error::Fatal(_)));
    assert_eq!(error.name(), "fatal");
    assert_eq!(error.message(), b"Unreachable Ruby value".as_slice());

    let forged = Value::Heap { tag: Ruby::Fixnum, slot: 0 };
    let error = interp.eval(Outcome::Returned(forged)).unwrap_err();
    assert!(matches!(error, Error::Fatal(_)));

    assert_eq!(interp.eval(Outcome::Returned(Value::Fixnum(3))).unwrap(), Value::Fixnum(3));
}

#[test]
fn pending_exception_is_picked_up_and_cleared() {
    let mut interp = interpreter();
    interp.exception =
        Some(Exception { class: String::from("RuntimeError"), message: b"earlier".to_vec() });
    let error = interp.eval(Outcome::Returned(Value::Fixnum(1))).unwrap_err();
    assert_eq!(error.name(), "RuntimeError");
    assert_eq!(error.message(), b"earlier".as_slice());
    assert!(interp.exception.is_none());
    assert_eq!(interp.eval(Outcome::Returned(Value::Fixnum(1))).unwrap(), Value::Fixnum(1));
}

#[test]
fn raised_exception_wins_over_pending_one() {
    let mut interp = interpreter();
    interp.exception =
        Some(Exception { class: String::from("RuntimeError"), message: b"earlier".to_vec() });
    let raised = Exception { class: String::from("NameError"), message: b"later".to_vec() };
    let error = interp.eval(Outcome::Raised(raised)).unwrap_err();
    assert_eq!(error.name(), "NameError");
    assert_eq!(error.message(), b"later".as_slice());
    assert!(interp.exception.is_none());
    assert!(interp.last_error().is_none());
}

#[test]
fn failed_eval_leaves_frames_alone() {
    let mut interp = interpreter();
    interp.push_context(Context::new(b"a.rb").unwrap());
    let _ = run(&mut interp, b"'a").unwrap_err();
    assert_eq!(interp.parser.depth(), 1);
    assert_eq!(interp.peek_context().unwrap().filename(), b"a.rb");
    assert_eq!(interp.fetch_lineno(), 1);
}
