use vm_translator::command::{Arithmetic, Command, MemorySegment};
use vm_translator::parser::{ParseError, Parser};

fn chars(s: &str) -> Vec<char> {
    s.chars().collect()
}

#[test]
fn parses_every_arithmetic_keyword() {
    let text = chars("add sub neg eq gt lt and or not");
    let mut p = Parser::new(&text);
    let expected = [
        Arithmetic::ADD,
        Arithmetic::SUB,
        Arithmetic::NEG,
        Arithmetic::EQ,
        Arithmetic::GT,
        Arithmetic::LT,
        Arithmetic::AND,
        Arithmetic::OR,
        Arithmetic::NOT,
    ];
    for op in expected {
        assert_eq!(p.next_command().unwrap().unwrap(), Command::Arithmetic(op));
    }
    assert_eq!(p.next_command().unwrap(), None);
}

#[test]
fn parses_push_and_pop_with_segments() {
    let text = chars("push local 3\npop argument 1\npush constant 65535\npop temp 7");
    let mut p = Parser::new(&text);
    assert_eq!(p.next_command().unwrap().unwrap(), Command::Push(MemorySegment::Local, 3));
    assert_eq!(p.next_command().unwrap().unwrap(), Command::Pop(MemorySegment::Argument, 1));
    assert_eq!(
        p.next_command().unwrap().unwrap(),
        Command::Push(MemorySegment::Constant, 65535)
    );
    assert_eq!(p.next_command().unwrap().unwrap(), Command::Pop(MemorySegment::Temp, 7));
}

#[test]
fn comments_and_blank_lines_are_skipped() {
    let text = chars("// a comment line\n\n   push constant 5 // trailing\n// end");
    let mut p = Parser::new(&text);
    assert_eq!(
        p.next_command().unwrap().unwrap(),
        Command::Push(MemorySegment::Constant, 5)
    );
    assert_eq!(p.next_command().unwrap(), None);
}

#[test]
fn empty_input_yields_nothing() {
    let text = chars("");
    let mut p = Parser::new(&text);
    assert_eq!(p.next_command().unwrap(), None);
}

#[test]
fn labels_are_scoped_to_the_enclosing_function() {
    let text = chars("function Foo 0\nlabel LOOP\ngoto LOOP\nif-goto LOOP");
    let mut p = Parser::new(&text);
    assert_eq!(
        p.next_command().unwrap().unwrap(),
        Command::Function(String::from("Foo"), 0)
    );
    assert_eq!(p.next_command().unwrap().unwrap(), Command::Label(String::from("Foo$LOOP")));
    assert_eq!(p.next_command().unwrap().unwrap(), Command::Goto(String::from("Foo$LOOP")));
    assert_eq!(p.next_command().unwrap().unwrap(), Command::IfGoto(String::from("Foo$LOOP")));
}

#[test]
fn call_outside_function_is_rejected() {
    let text = chars("call Foo.bar 2");
    let mut p = Parser::new(&text);
    assert_eq!(p.next_command(), Err(ParseError::CallOutsideFunction));
}

#[test]
fn return_outside_function_is_rejected() {
    let text = chars("return");
    let mut p = Parser::new(&text);
    assert_eq!(p.next_command(), Err(ParseError::ReturnOutsideFunction));
}

#[test]
fn label_outside_function_is_rejected() {
    let text = chars("label L");
    let mut p = Parser::new(&text);
    assert_eq!(p.next_command(), Err(ParseError::LabelOutsideFunction));
    let text = chars("goto L");
    let mut p = Parser::new(&text);
    assert_eq!(p.next_command(), Err(ParseError::LabelOutsideFunction));
    let text = chars("if-goto L");
    let mut p = Parser::new(&text);
    assert_eq!(p.next_command(), Err(ParseError::LabelOutsideFunction));
}

#[test]
fn sequential_calls_get_distinct_return_addresses() {
    let text = chars("function Foo 0\ncall Foo.bar 2\ncall Foo.bar 2");
    let mut p = Parser::new(&text);
    p.next_command().unwrap();
    let first = p.next_command().unwrap().unwrap();
    let second = p.next_command().unwrap().unwrap();
    assert_eq!(
        first,
        Command::Call(String::from("Foo.bar"), 2, String::from("Foo$ret.0"))
    );
    assert_eq!(
        second,
        Command::Call(String::from("Foo.bar"), 2, String::from("Foo$ret.1"))
    );
    let (Command::Call(_, _, r0), Command::Call(_, _, r1)) = (first, second) else {
        panic!("expected two calls");
    };
    assert_ne!(r0, r1);
}

#[test]
fn call_counter_resets_per_function() {
    let text = chars("function A 0\ncall X 0\nfunction B 0\ncall X 0");
    let mut p = Parser::new(&text);
    p.next_command().unwrap();
    assert_eq!(
        p.next_command().unwrap().unwrap(),
        Command::Call(String::from("X"), 0, String::from("A$ret.0"))
    );
    p.next_command().unwrap();
    assert_eq!(
        p.next_command().unwrap().unwrap(),
        Command::Call(String::from("X"), 0, String::from("B$ret.0"))
    );
}

#[test]
fn unknown_command_and_segment_are_rejected() {
    let text = chars("frobnicate");
    let mut p = Parser::new(&text);
    assert_eq!(p.next_command(), Err(ParseError::UnknownCommand));
    let text = chars("push blah 3");
    let mut p = Parser::new(&text);
    assert_eq!(p.next_command(), Err(ParseError::UnknownSegment));
}

#[test]
fn missing_operands_are_rejected() {
    let text = chars("push local");
    let mut p = Parser::new(&text);
    assert_eq!(p.next_command(), Err(ParseError::EndOfInput));
    let text = chars("push");
    let mut p = Parser::new(&text);
    assert_eq!(p.next_command(), Err(ParseError::EndOfInput));
    let text = chars("function Foo");
    let mut p = Parser::new(&text);
    assert_eq!(p.next_command(), Err(ParseError::EndOfInput));
    let text = chars("label");
    let mut p = Parser::new(&text);
    assert_eq!(p.next_command(), Err(ParseError::EndOfInput));
}

#[test]
fn malformed_numbers_are_rejected_not_truncated() {
    let text = chars("push local x");
    let mut p = Parser::new(&text);
    assert_eq!(p.next_command(), Err(ParseError::MalformedNumber));
    let text = chars("push local 65536");
    let mut p = Parser::new(&text);
    assert_eq!(p.next_command(), Err(ParseError::MalformedNumber));
    let text = chars("push local 99999999999999999999");
    let mut p = Parser::new(&text);
    assert_eq!(p.next_command(), Err(ParseError::MalformedNumber));
}

#[test]
fn if_must_be_followed_by_goto() {
    let text = chars("function F 0\nif stop L");
    let mut p = Parser::new(&text);
    p.next_command().unwrap();
    assert_eq!(p.next_command(), Err(ParseError::MalformedIfGoto));
}

#[test]
fn parse_error_messages() {
    assert_eq!(ParseError::UnknownCommand.message(), "invalid command");
    assert_eq!(ParseError::UnknownSegment.message(), "invalid memory segment");
    assert_eq!(ParseError::MalformedNumber.message(), "segment index expected");
    assert_eq!(ParseError::LabelOutsideFunction.message(), "label outside function");
    assert_eq!(ParseError::CallOutsideFunction.message(), "call outside function");
    assert_eq!(ParseError::ReturnOutsideFunction.message(), "return outside function");
    assert_eq!(
        ParseError::EndOfInput.message(),
        "unexpected end of input: operand expected"
    );
    assert_eq!(ParseError::MalformedIfGoto.message(), "expected goto after if");
}
