use artichoke_bridge::interp::Artichoke;
use artichoke_bridge::parser::{Context, IncrementLinenoError, State, LINENO_MAX};

#[test]
fn new_parser_is_at_line_one_without_frames() {
    let interp = Artichoke::new();
    assert_eq!(interp.fetch_lineno(), 1);
    assert!(interp.peek_context().is_none());
    assert_eq!(interp.parser.depth(), 0);
    assert_eq!(interp.parser.filename(), b"(eval)");
}

#[test]
fn push_a_then_b_and_pop_twice() {
    let mut interp = Artichoke::new();
    interp.push_context(Context::new(b"a.rb").unwrap());
    assert_eq!(interp.peek_context().unwrap().filename(), b"a.rb");
    interp.push_context(Context::new(b"b.rb").unwrap());
    assert_eq!(interp.peek_context().unwrap().filename(), b"b.rb");
    assert_eq!(interp.parser.depth(), 2);

    assert_eq!(interp.pop_context().unwrap().filename(), b"b.rb");
    assert_eq!(interp.peek_context().unwrap().filename(), b"a.rb");
    assert_eq!(interp.pop_context().unwrap().filename(), b"a.rb");
    assert!(interp.peek_context().is_none());
    assert_eq!(interp.fetch_lineno(), 1);
    assert!(interp.pop_context().is_none());
    assert!(interp.peek_context().is_none());
}

#[test]
fn frames_keep_name_and_line() {
    let context = Context::new(b"main.rb").unwrap();
    assert_eq!(context.filename(), b"main.rb");
    assert_eq!(context.lineno(), 1);
    let context = Context::starting_at(b"lib.rb", 40).unwrap();
    assert_eq!(context.filename(), b"lib.rb");
    assert_eq!(context.lineno(), 40);
    let root = Context::root();
    assert_eq!(root.filename(), b"(eval)");
    assert_eq!(root.lineno(), 1);
    assert!(Context::new(b"").is_some());
}

#[test]
fn name_with_nul_makes_no_frame() {
    assert!(Context::new(b"a\0b.rb").is_none());
    assert!(Context::new(b"\0").is_none());
    assert!(Context::starting_at(b"ab.rb\0", 3).is_none());
}

#[test]
fn line_advances_up_to_the_maximum() {
    let mut interp = Artichoke::new();
    assert_eq!(interp.add_fetch_lineno(0), Ok(1));
    assert_eq!(interp.add_fetch_lineno(9), Ok(10));
    assert_eq!(interp.fetch_lineno(), 10);
    assert_eq!(interp.add_fetch_lineno(LINENO_MAX - 10), Ok(65535));
    assert_eq!(interp.fetch_lineno(), 65535);
    assert_eq!(interp.add_fetch_lineno(1), Err(IncrementLinenoError::Overflow(65535)));
    assert_eq!(interp.fetch_lineno(), 65535);
    assert_eq!(interp.add_fetch_lineno(usize::MAX), Err(IncrementLinenoError::Overflow(65535)));
    assert_eq!(interp.fetch_lineno(), 65535);
    assert_eq!(interp.add_fetch_lineno(0), Ok(65535));
}

#[test]
fn reset_drops_frames_and_line() {
    let mut interp = Artichoke::new();
    interp.push_context(Context::new(b"a.rb").unwrap());
    interp.add_fetch_lineno(99).unwrap();
    interp.reset_parser();
    assert_eq!(interp.fetch_lineno(), 1);
    assert!(interp.peek_context().is_none());
    assert!(interp.pop_context().is_none());
}

#[test]
fn closed_interpreter_keeps_no_frames() {
    let mut interp = Artichoke::new();
    interp.push_context(Context::new(b"a.rb").unwrap());
    interp.close();
    interp.push_context(Context::new(b"b.rb").unwrap());
    assert_eq!(interp.parser.depth(), 1);
    assert!(interp.pop_context().is_none());
    assert_eq!(interp.peek_context().unwrap().filename(), b"a.rb");
}

#[test]
fn parser_state_by_itself() {
    let mut state = State::new();
    assert_eq!(state.fetch_lineno(), 1);
    state.push_context(Context::new(b"x.rb").unwrap());
    assert_eq!(state.filename(), b"x.rb");
    assert_eq!(state.add_fetch_lineno(2), Ok(3));
    assert_eq!(state.pop_context().unwrap().filename(), b"x.rb");
    assert_eq!(state.filename(), b"(eval)");
    assert_eq!(state.fetch_lineno(), 3);
    state.reset();
    assert_eq!(state.fetch_lineno(), 1);
    assert_eq!(state.depth(), 0);
}

#[test]
fn lineno_error_names_the_maximum() {
    let error = IncrementLinenoError::Overflow(LINENO_MAX);
    assert_eq!(error.to_string(), "Parser exceeded maximum line count: 65535");
}
