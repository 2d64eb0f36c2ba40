use vm_translator::command::{Arithmetic, Command, MemorySegment};
use vm_translator::translator::{TranslateError, Translator};

#[test]
fn add_skeleton() {
    let mut t = Translator::new(String::from("Unit"));
    let out = t.translate_command(Command::Arithmetic(Arithmetic::ADD)).unwrap();
    assert_eq!(out, vec!["@SP", "AM=M-1", "D=M", "A=A-1", "M=M+D"]);
}

#[test]
fn sub_and_logic_skeletons() {
    let mut t = Translator::new(String::from("Unit"));
    let out = t.translate_command(Command::Arithmetic(Arithmetic::SUB)).unwrap();
    assert_eq!(out, vec!["@SP", "AM=M-1", "D=M", "A=A-1", "M=M-D"]);
    let out = t.translate_command(Command::Arithmetic(Arithmetic::AND)).unwrap();
    assert_eq!(out, vec!["@SP", "AM=M-1", "D=M", "A=A-1", "M=M&D"]);
    let out = t.translate_command(Command::Arithmetic(Arithmetic::OR)).unwrap();
    assert_eq!(out, vec!["@SP", "AM=M-1", "D=M", "A=A-1", "M=M|D"]);
    let out = t.translate_command(Command::Arithmetic(Arithmetic::NEG)).unwrap();
    assert_eq!(out, vec!["@SP", "A=M-1", "M=-M"]);
    let out = t.translate_command(Command::Arithmetic(Arithmetic::NOT)).unwrap();
    assert_eq!(out, vec!["@SP", "A=M-1", "M=!M"]);
}

#[test]
fn comparison_labels_are_distinct_within_a_unit() {
    let mut t = Translator::new(String::from("Unit"));
    let first = t.translate_command(Command::Arithmetic(Arithmetic::EQ)).unwrap();
    let second = t.translate_command(Command::Arithmetic(Arithmetic::EQ)).unwrap();
    assert_eq!(
        first,
        vec![
            "@SP",
            "AM=M-1",
            "D=M",
            "A=A-1",
            "D=M-D",
            "M=-1",
            "@Unit$Arith_True.0",
            "D;JEQ",
            "@SP",
            "A=M-1",
            "M=0",
            "(Unit$Arith_True.0)",
        ]
    );
    assert_eq!(
        second,
        vec![
            "@SP",
            "AM=M-1",
            "D=M",
            "A=A-1",
            "D=M-D",
            "M=-1",
            "@Unit$Arith_True.1",
            "D;JEQ",
            "@SP",
            "A=M-1",
            "M=0",
            "(Unit$Arith_True.1)",
        ]
    );
    assert_ne!(first[6], second[6]);
}

#[test]
fn gt_and_lt_use_their_own_jumps() {
    let mut t = Translator::new(String::from("U"));
    let gt = t.translate_command(Command::Arithmetic(Arithmetic::GT)).unwrap();
    assert_eq!(gt[7], "D;JGT");
    let lt = t.translate_command(Command::Arithmetic(Arithmetic::LT)).unwrap();
    assert_eq!(lt[7], "D;JLT");
}

#[test]
fn push_constant_renders_decimal() {
    let mut t = Translator::new(String::from("Unit"));
    let out = t.translate_command(Command::Push(MemorySegment::Constant, 12345)).unwrap();
    assert_eq!(out, vec!["@12345", "D=A", "@SP", "A=M", "M=D", "@SP", "M=M+1"]);
}

#[test]
fn push_local_uses_base_pointer() {
    let mut t = Translator::new(String::from("Unit"));
    let out = t.translate_command(Command::Push(MemorySegment::Local, 3)).unwrap();
    assert_eq!(
        out,
        vec!["@LCL", "D=M", "@3", "A=A+D", "D=M", "@SP", "A=M", "M=D", "@SP", "M=M+1"]
    );
}

#[test]
fn push_static_is_unit_qualified() {
    let mut t = Translator::new(String::from("Main"));
    let out = t.translate_command(Command::Push(MemorySegment::Static, 2)).unwrap();
    assert_eq!(out, vec!["@Main.2", "D=M", "@SP", "A=M", "M=D", "@SP", "M=M+1"]);
}

#[test]
fn pop_argument_parks_target_in_scratch() {
    let mut t = Translator::new(String::from("Unit"));
    let out = t.translate_command(Command::Pop(MemorySegment::Argument, 1)).unwrap();
    assert_eq!(
        out,
        vec![
            "@ARG", "D=M", "@1", "D=A+D", "@R13", "M=D", "@SP", "M=M-1", "A=M", "D=M", "@R13",
            "A=M", "M=D",
        ]
    );
}

#[test]
fn pointer_indices_route_to_this_and_that() {
    let mut t = Translator::new(String::from("Unit"));
    let p0 = t.translate_command(Command::Push(MemorySegment::Pointer, 0)).unwrap();
    assert_eq!(p0[0], "@THIS");
    let p1 = t.translate_command(Command::Push(MemorySegment::Pointer, 1)).unwrap();
    assert_eq!(p1[0], "@THAT");
    let q0 = t.translate_command(Command::Pop(MemorySegment::Pointer, 0)).unwrap();
    assert_eq!(q0, vec!["@SP", "M=M-1", "A=M", "D=M", "@THIS", "M=D"]);
    let q1 = t.translate_command(Command::Pop(MemorySegment::Pointer, 1)).unwrap();
    assert_eq!(q1, vec!["@SP", "M=M-1", "A=M", "D=M", "@THAT", "M=D"]);
}

#[test]
fn pointer_index_out_of_range_is_rejected() {
    let mut t = Translator::new(String::from("Unit"));
    assert_eq!(
        t.translate_command(Command::Push(MemorySegment::Pointer, 2)),
        Err(TranslateError::PointerIndexOutOfRange)
    );
    assert_eq!(
        t.translate_command(Command::Pop(MemorySegment::Pointer, 7)),
        Err(TranslateError::PointerIndexOutOfRange)
    );
}

#[test]
fn temp_index_eight_and_up_is_rejected() {
    let mut t = Translator::new(String::from("Unit"));
    assert_eq!(
        t.translate_command(Command::Push(MemorySegment::Temp, 8)),
        Err(TranslateError::TempIndexOutOfRange)
    );
    assert_eq!(
        t.translate_command(Command::Pop(MemorySegment::Temp, 8)),
        Err(TranslateError::TempIndexOutOfRange)
    );
    let ok = t.translate_command(Command::Push(MemorySegment::Temp, 7)).unwrap();
    assert_eq!(ok[0], "@R12");
}

#[test]
fn pop_constant_is_rejected() {
    let mut t = Translator::new(String::from("Unit"));
    assert_eq!(
        t.translate_command(Command::Pop(MemorySegment::Constant, 0)),
        Err(TranslateError::PopFromConstant)
    );
}

#[test]
fn label_goto_if_use_scoped_names() {
    let mut t = Translator::new(String::from("Unit"));
    let l = t.translate_command(Command::Label(String::from("F$LOOP"))).unwrap();
    assert_eq!(l, vec!["(F$LOOP)"]);
    let g = t.translate_command(Command::Goto(String::from("F$LOOP"))).unwrap();
    assert_eq!(g, vec!["@F$LOOP", "0;JMP"]);
    let i = t.translate_command(Command::IfGoto(String::from("F$LOOP"))).unwrap();
    assert_eq!(i, vec!["@SP", "AM=M-1", "D=M", "@F$LOOP", "D;JNE"]);
}

#[test]
fn function_prologue_loops_over_locals() {
    let mut t = Translator::new(String::from("Unit"));
    let out = t.translate_command(Command::Function(String::from("Foo"), 3)).unwrap();
    assert_eq!(
        out,
        vec![
            "(Foo)",
            "@3",
            "D=A",
            "(Foo$arg.3)",
            "@Foo$arg.3.end",
            "D;JEQ",
            "D=D-1",
            "@SP",
            "A=M",
            "M=0",
            "@SP",
            "M=M+1",
            "@Foo$arg.3",
            "0;JMP",
            "(Foo$arg.3.end)",
        ]
    );
}

#[test]
fn call_pushes_frame_and_lands_on_return_label() {
    let mut t = Translator::new(String::from("Unit"));
    let out = t
        .translate_command(Command::Call(String::from("Foo.bar"), 2, String::from("F$ret.0")))
        .unwrap();
    assert_eq!(out[0], "@F$ret.0");
    assert_eq!(out.last().unwrap(), "(F$ret.0)");
    assert_eq!(out[out.len() - 3], "@Foo.bar");
    assert_eq!(out[out.len() - 2], "0;JMP");
    // the ARG displacement: 5 saved words plus the 2 arguments
    assert!(out.contains(&String::from("@5")));
    assert!(out.contains(&String::from("@2")));
    assert_eq!(out.len(), 50);
}

#[test]
fn return_restores_context_in_reverse_order() {
    let mut t = Translator::new(String::from("Unit"));
    let out = t.translate_command(Command::Return).unwrap();
    // the four context restores read backward from the parked frame
    // top, in the exact reverse of the push order in call
    assert_eq!(&out[19..24], &["@R13", "AM=M-1", "D=M", "@THAT", "M=D"]);
    assert_eq!(&out[24..29], &["@R13", "AM=M-1", "D=M", "@THIS", "M=D"]);
    assert_eq!(&out[29..34], &["@R13", "AM=M-1", "D=M", "@ARG", "M=D"]);
    assert_eq!(&out[34..39], &["@R13", "AM=M-1", "D=M", "@LCL", "M=D"]);
    assert_eq!(out[0], "@LCL");
    assert_eq!(out.last().unwrap(), "0;JMP");
    assert_eq!(out.len(), 42);
}

#[test]
fn init_sets_stack_base_and_calls_entry() {
    let t = Translator::new(String::from("Main"));
    let out = t.init("Sys.init");
    assert_eq!(&out[0..4], &["@256", "D=A", "@SP", "M=D"]);
    assert!(out.contains(&String::from("@Sys.init")));
    assert!(out.contains(&String::from("(Sys.System$ret.0)")));
}

#[test]
fn translate_error_messages() {
    assert_eq!(
        TranslateError::PointerIndexOutOfRange.message(),
        "pointer index must be 0 or 1"
    );
    assert_eq!(TranslateError::TempIndexOutOfRange.message(), "temp index must be below 8");
    assert_eq!(TranslateError::PopFromConstant.message(), "cannot pop into constant");
}

#[test]
fn segment_label_names_base_cells() {
    assert_eq!(MemorySegment::Local.label(), "@LCL");
    assert_eq!(MemorySegment::Argument.label(), "@ARG");
    assert_eq!(MemorySegment::This.label(), "@THIS");
    assert_eq!(MemorySegment::That.label(), "@THAT");
}
