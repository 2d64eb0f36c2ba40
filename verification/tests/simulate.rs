use vm_translator::command::Command;
use vm_translator::instr::Instr;
use vm_translator::machine::{resolve, LinkError, Machine, RInstr};
use vm_translator::parser::Parser;
use vm_translator::translator::Translator;

fn chars(s: &str) -> Vec<char> {
    s.chars().collect()
}

fn ready_machine() -> Machine {
    let mut m = Machine::new();
    m.ram[0] = 256;
    m
}

fn translate_program(unit: &str, source: &str, entry: Option<&str>) -> Vec<Instr> {
    let text = chars(source);
    let mut parser = Parser::new(&text);
    let mut translator = Translator::new(String::from(unit));
    let mut prog: Vec<Instr> = Vec::new();
    if let Some(e) = entry {
        prog.extend(translator.init_instrs(e));
    }
    while let Some(cmd) = parser.next_command().unwrap() {
        prog.extend(translator.translate_command_instrs(cmd).unwrap());
    }
    prog
}

fn run_resolved(prog: &Vec<Instr>, m: &mut Machine, steps: usize) -> Vec<RInstr> {
    let r = resolve(prog).unwrap();
    m.run(&r, steps);
    r
}

#[test]
fn push_pop_round_trips_on_every_segment() {
    // push constant 42 / pop seg i deposits 42 at the segment's cell
    // and restores the stack pointer.
    let cases: [(&str, u16, u16); 7] = [
        ("local", 3, 1003),
        ("argument", 2, 2002),
        ("this", 1, 3001),
        ("that", 4, 4004),
        ("pointer", 0, 3),
        ("temp", 5, 10),
        ("static", 2, 18),
    ];
    for (seg, i, cell) in cases {
        let source = format!("function F 0\npush constant 42\npop {seg} {i}");
        let prog = translate_program("Main", &source, None);
        let mut m = ready_machine();
        m.ram[1] = 1000;
        m.ram[2] = 2000;
        m.ram[3] = 3000;
        m.ram[4] = 4000;
        run_resolved(&prog, &mut m, 200);
        assert_eq!(m.ram[cell as usize], 42, "segment {seg}");
        assert_eq!(m.ram[0], 256, "segment {seg} stack pointer");
    }
}

#[test]
fn pointer_round_trip_routes_to_this_and_that_bases() {
    let source = "function F 0\npush constant 7\npop pointer 0\npush constant 9\npop pointer 1";
    let prog = translate_program("Main", source, None);
    let mut m = ready_machine();
    run_resolved(&prog, &mut m, 400);
    assert_eq!(m.ram[3], 7);
    assert_eq!(m.ram[4], 9);
}

#[test]
fn arithmetic_on_the_stack() {
    let source = "function F 0\npush constant 7\npush constant 8\nadd";
    let prog = translate_program("Main", source, None);
    let mut m = ready_machine();
    run_resolved(&prog, &mut m, 400);
    assert_eq!(m.ram[0], 257);
    assert_eq!(m.ram[256], 15);
}

#[test]
fn comparison_pushes_true_or_false() {
    let source = "function F 0\npush constant 8\npush constant 7\ngt\npush constant 3\npush constant 5\nlt\npush constant 4\npush constant 4\neq";
    let prog = translate_program("Main", source, None);
    let mut m = ready_machine();
    run_resolved(&prog, &mut m, 2000);
    assert_eq!(m.ram[0], 259);
    assert_eq!(m.ram[256], 0xffff); // 8 > 7: true
    assert_eq!(m.ram[257], 0xffff); // 3 < 5: true
    assert_eq!(m.ram[258], 0xffff); // 4 == 4: true
}

#[test]
fn function_prologue_zero_initializes_exactly_three_locals() {
    // Given a function with 3 locals, the generated code allocates
    // exactly 3 zero-initialized slots above the stack pointer.
    let prog = translate_program("Main", "function Foo 3", None);
    let mut m = ready_machine();
    m.ram[256] = 111;
    m.ram[257] = 222;
    m.ram[258] = 333;
    m.ram[259] = 444;
    let len = prog.len();
    run_resolved(&prog, &mut m, 200);
    assert_eq!(m.pc, len);
    assert_eq!(m.ram[256], 0);
    assert_eq!(m.ram[257], 0);
    assert_eq!(m.ram[258], 0);
    assert_eq!(m.ram[259], 444);
    assert_eq!(m.ram[0], 259);
}

#[test]
fn bootstrapped_main_leaves_return_value_on_caller_stack() {
    // End-to-end: a unit named Main whose Main.main computes 7 + 8 and
    // returns, executed from a bootstrap whose entry point is
    // Main.main with zero arguments.
    let source = "function Main.main 0\npush constant 7\npush constant 8\nadd\nreturn";
    let boot_len = Translator::new(String::from("Main")).init_instrs("Main.main").len();
    let prog = translate_program("Main", source, Some("Main.main"));
    let resolved = resolve(&prog).unwrap();
    let mut m = Machine::new();
    // run until execution lands on the bootstrap's return label:
    // Main.main has returned to its pseudo caller there.
    let landing = boot_len - 1;
    let mut steps = 0;
    while m.pc != landing && steps < 2000 {
        m.step(&resolved);
        steps += 1;
    }
    assert_eq!(m.pc, landing, "Main.main never returned");
    // the bootstrap called with zero arguments from stack base 256:
    // the single return value replaces the (empty) argument area at
    // the caller's stack top, and the stack pointer is one past it.
    assert_eq!(m.ram[256], 15);
    assert_eq!(m.ram[0], 257);
}

#[test]
fn goto_without_matching_label_fails_to_resolve() {
    let mut t = Translator::new(String::from("Main"));
    let prog = t
        .translate_command_instrs(Command::Goto(String::from("F$NOWHERE")))
        .unwrap();
    assert_eq!(resolve(&prog), Err(LinkError::UnknownLabel));
}

#[test]
fn labels_resolve_to_their_positions() {
    let mut t = Translator::new(String::from("Main"));
    let mut prog = t
        .translate_command_instrs(Command::Label(String::from("F$L")))
        .unwrap();
    prog.extend(t.translate_command_instrs(Command::Goto(String::from("F$L"))).unwrap());
    let r = resolve(&prog).unwrap();
    assert_eq!(r[0], RInstr::Mark);
    assert_eq!(r[1], RInstr::At(0));
}

#[test]
fn neg_and_not_rewrite_the_stack_top() {
    let source = "function F 0\npush constant 5\nneg";
    let prog = translate_program("Main", source, None);
    let mut m = ready_machine();
    run_resolved(&prog, &mut m, 200);
    assert_eq!(m.ram[256], 0xffff - 5 + 1); // two's complement of 5
    let source = "function F 0\npush constant 0\nnot";
    let prog = translate_program("Main", source, None);
    let mut m = ready_machine();
    run_resolved(&prog, &mut m, 200);
    assert_eq!(m.ram[256], 0xffff);
}

#[test]
fn arithmetic_test_used_by_translator_is_faithful_for_eq_false_case() {
    let source = "function F 0\npush constant 4\npush constant 9\neq";
    let prog = translate_program("Main", source, None);
    let mut m = ready_machine();
    run_resolved(&prog, &mut m, 2000);
    assert_eq!(m.ram[256], 0);
}
