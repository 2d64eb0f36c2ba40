use vm_translator::lexer::Lexer;

fn chars(s: &str) -> Vec<char> {
    s.chars().collect()
}

fn tokens(s: &str) -> Vec<String> {
    let text = chars(s);
    let mut lx = Lexer::new(&text);
    let mut out = Vec::new();
    while let Some(t) = lx.next_token() {
        out.push(t.iter().collect::<String>());
    }
    out
}

#[test]
fn splits_keywords_numbers_and_punctuation() {
    assert_eq!(tokens("push local 12"), vec!["push", "local", "12"]);
    assert_eq!(tokens("if-goto END"), vec!["if", "-", "goto", "END"]);
    assert_eq!(tokens("call Foo.bar$x_1 2"), vec!["call", "Foo.bar$x_1", "2"]);
}

#[test]
fn numbers_and_names_are_maximal_runs() {
    assert_eq!(tokens("123abc"), vec!["123", "abc"]);
    assert_eq!(tokens("a1.b$c_2"), vec!["a1.b$c_2"]);
}

#[test]
fn comments_run_to_end_of_line() {
    assert_eq!(tokens("add // this is ignored\nsub"), vec!["add", "sub"]);
    assert_eq!(tokens("// only a comment"), Vec::<String>::new());
    assert_eq!(tokens("//x\n//y\nneg"), vec!["neg"]);
}

#[test]
fn whitespace_is_discarded() {
    assert_eq!(tokens("   \t\n  "), Vec::<String>::new());
    assert_eq!(tokens("  add\t sub \n"), vec!["add", "sub"]);
}

#[test]
fn trim_left_and_is_empty() {
    let text = chars("   add");
    let mut lx = Lexer::new(&text);
    assert!(!lx.is_empty());
    lx.trim_left();
    assert_eq!(lx.content.iter().collect::<String>(), "add");
    let empty = chars("");
    let lx = Lexer::new(&empty);
    assert!(lx.is_empty());
}

#[test]
fn a_lone_slash_is_a_single_token() {
    assert_eq!(tokens("/ add"), vec!["/", "add"]);
}
