//! The command parser: consumes tokens and produces one structured
//! [`Command`] per VM instruction, resolving label scoping and
//! return-address naming as it goes.
//!
//! The parser owns the scoping state: the name of the current enclosing
//! function (none until a `function` is seen) and the call-site counter
//! that is reset on entering a function and incremented on each `call`
//! within it. `label`, `goto`, `if-goto`, `call` and `return` are
//! rejected when no function encloses them.

use vstd::prelude::*;

use crate::command::{Arithmetic, Command, CommandS, MemorySegment};
use crate::labels::{ret_label, scoped_label, spec_ret_label, spec_scoped_label};
use crate::lexer::{lemma_tokens_step, spec_tokens, token_eq, Lexer};
use crate::text::{chars_to_string, parse_u16, spec_parse_u16};

verus! {

/// Everything the parser can reject.
#[derive(Clone, Copy, PartialEq, Eq, Structural, Debug)]
pub enum ParseError {
    /// The input ended where an operand was required.
    EndOfInput,
    /// The first token of an instruction is no known keyword.
    UnknownCommand,
    /// The segment operand of `push`/`pop` is no known segment name.
    UnknownSegment,
    /// A numeric operand is not a decimal number fitting 16 bits.
    MalformedNumber,
    /// `if` was not followed by `-goto`.
    MalformedIfGoto,
    /// `label`, `goto` or `if-goto` outside any function.
    LabelOutsideFunction,
    /// `call` outside any function.
    CallOutsideFunction,
    /// `return` outside any function.
    ReturnOutsideFunction,
}

impl ParseError {
    /// A diagnostic description of the rejection.
    pub fn message(&self) -> (r: String)
        ensures
            *self == ParseError::EndOfInput ==> r@ == "unexpected end of input: operand expected"@,
            *self == ParseError::UnknownCommand ==> r@ == "invalid command"@,
            *self == ParseError::UnknownSegment ==> r@ == "invalid memory segment"@,
            *self == ParseError::MalformedNumber ==> r@ == "segment index expected"@,
            *self == ParseError::MalformedIfGoto ==> r@ == "expected goto after if"@,
            *self == ParseError::LabelOutsideFunction ==> r@ == "label outside function"@,
            *self == ParseError::CallOutsideFunction ==> r@ == "call outside function"@,
            *self == ParseError::ReturnOutsideFunction ==> r@ == "return outside function"@,
    {
        match self {
            ParseError::EndOfInput => String::from_str("unexpected end of input: operand expected"),
            ParseError::UnknownCommand => String::from_str("invalid command"),
            ParseError::UnknownSegment => String::from_str("invalid memory segment"),
            ParseError::MalformedNumber => String::from_str("segment index expected"),
            ParseError::MalformedIfGoto => String::from_str("expected goto after if"),
            ParseError::LabelOutsideFunction => String::from_str("label outside function"),
            ParseError::CallOutsideFunction => String::from_str("call outside function"),
            ParseError::ReturnOutsideFunction => String::from_str("return outside function"),
        }
    }
}

/// Which segment a `push`/`pop` operand token names.
pub open spec fn spec_segment_of(t: Seq<char>) -> Option<MemorySegment> {
    if t == "local"@ {
        Some(MemorySegment::Local)
    } else if t == "argument"@ {
        Some(MemorySegment::Argument)
    } else if t == "this"@ {
        Some(MemorySegment::This)
    } else if t == "that"@ {
        Some(MemorySegment::That)
    } else if t == "constant"@ {
        Some(MemorySegment::Constant)
    } else if t == "static"@ {
        Some(MemorySegment::Static)
    } else if t == "pointer"@ {
        Some(MemorySegment::Pointer)
    } else if t == "temp"@ {
        Some(MemorySegment::Temp)
    } else {
        None
    }
}

/// The image of the parser's scoping state.
pub open spec fn opt_name(o: Option<String>) -> Option<Seq<char>> {
    match o {
        Some(s) => Some(s@),
        None => None,
    }
}

/// What one parsing step yields: end of input, a rejection, or a
/// command together with the new scoping state and the number of
/// tokens consumed.
pub enum ParseStep {
    Nothing,
    Fail(ParseError),
    Parsed(CommandS, Option<Seq<char>>, nat, nat),
}

/// The parse of the next instruction from the token sequence `toks`,
/// inside enclosing function `fname` with call-site counter `rank`.
pub open spec fn spec_next_command(
    toks: Seq<Seq<char>>,
    fname: Option<Seq<char>>,
    rank: nat,
) -> ParseStep {
    if toks.len() == 0 {
        ParseStep::Nothing
    } else {
        let f = toks[0];
        if f == "add"@ {
            ParseStep::Parsed(CommandS::Arithmetic(Arithmetic::ADD), fname, rank, 1)
        } else if f == "sub"@ {
            ParseStep::Parsed(CommandS::Arithmetic(Arithmetic::SUB), fname, rank, 1)
        } else if f == "neg"@ {
            ParseStep::Parsed(CommandS::Arithmetic(Arithmetic::NEG), fname, rank, 1)
        } else if f == "eq"@ {
            ParseStep::Parsed(CommandS::Arithmetic(Arithmetic::EQ), fname, rank, 1)
        } else if f == "gt"@ {
            ParseStep::Parsed(CommandS::Arithmetic(Arithmetic::GT), fname, rank, 1)
        } else if f == "lt"@ {
            ParseStep::Parsed(CommandS::Arithmetic(Arithmetic::LT), fname, rank, 1)
        } else if f == "and"@ {
            ParseStep::Parsed(CommandS::Arithmetic(Arithmetic::AND), fname, rank, 1)
        } else if f == "or"@ {
            ParseStep::Parsed(CommandS::Arithmetic(Arithmetic::OR), fname, rank, 1)
        } else if f == "not"@ {
            ParseStep::Parsed(CommandS::Arithmetic(Arithmetic::NOT), fname, rank, 1)
        } else if f == "push"@ || f == "pop"@ {
            if toks.len() < 2 {
                ParseStep::Fail(ParseError::EndOfInput)
            } else {
                match spec_segment_of(toks[1]) {
                    None => ParseStep::Fail(ParseError::UnknownSegment),
                    Some(seg) => if toks.len() < 3 {
                        ParseStep::Fail(ParseError::EndOfInput)
                    } else {
                        match spec_parse_u16(toks[2]) {
                            None => ParseStep::Fail(ParseError::MalformedNumber),
                            Some(i) => ParseStep::Parsed(
                                if f == "push"@ {
                                    CommandS::Push(seg, i)
                                } else {
                                    CommandS::Pop(seg, i)
                                },
                                fname,
                                rank,
                                3,
                            ),
                        }
                    },
                }
            }
        } else if f == "label"@ || f == "goto"@ {
            if toks.len() < 2 {
                ParseStep::Fail(ParseError::EndOfInput)
            } else {
                match fname {
                    None => ParseStep::Fail(ParseError::LabelOutsideFunction),
                    Some(g) => ParseStep::Parsed(
                        if f == "label"@ {
                            CommandS::Label(spec_scoped_label(g, toks[1]))
                        } else {
                            CommandS::Goto(spec_scoped_label(g, toks[1]))
                        },
                        fname,
                        rank,
                        2,
                    ),
                }
            }
        } else if f == "if"@ {
            if toks.len() < 2 {
                ParseStep::Fail(ParseError::EndOfInput)
            } else if toks[1] != "-"@ {
                ParseStep::Fail(ParseError::MalformedIfGoto)
            } else if toks.len() < 3 {
                ParseStep::Fail(ParseError::EndOfInput)
            } else if toks[2] != "goto"@ {
                ParseStep::Fail(ParseError::MalformedIfGoto)
            } else if toks.len() < 4 {
                ParseStep::Fail(ParseError::EndOfInput)
            } else {
                match fname {
                    None => ParseStep::Fail(ParseError::LabelOutsideFunction),
                    Some(g) => ParseStep::Parsed(
                        CommandS::IfGoto(spec_scoped_label(g, toks[3])),
                        fname,
                        rank,
                        4,
                    ),
                }
            }
        } else if f == "function"@ {
            if toks.len() < 2 {
                ParseStep::Fail(ParseError::EndOfInput)
            } else if toks.len() < 3 {
                ParseStep::Fail(ParseError::EndOfInput)
            } else {
                match spec_parse_u16(toks[2]) {
                    None => ParseStep::Fail(ParseError::MalformedNumber),
                    Some(n) => ParseStep::Parsed(
                        CommandS::Function(toks[1], n),
                        Some(toks[1]),
                        0,
                        3,
                    ),
                }
            }
        } else if f == "call"@ {
            if toks.len() < 2 {
                ParseStep::Fail(ParseError::EndOfInput)
            } else if toks.len() < 3 {
                ParseStep::Fail(ParseError::EndOfInput)
            } else {
                match spec_parse_u16(toks[2]) {
                    None => ParseStep::Fail(ParseError::MalformedNumber),
                    Some(n) => match fname {
                        None => ParseStep::Fail(ParseError::CallOutsideFunction),
                        Some(g) => ParseStep::Parsed(
                            CommandS::Call(toks[1], n, spec_ret_label(g, rank)),
                            fname,
                            rank + 1,
                            3,
                        ),
                    },
                }
            }
        } else if f == "return"@ {
            match fname {
                None => ParseStep::Fail(ParseError::ReturnOutsideFunction),
                Some(g) => ParseStep::Parsed(CommandS::Return, fname, rank, 1),
            }
        } else {
            ParseStep::Fail(ParseError::UnknownCommand)
        }
    }
}

/// The parser over one piece of instruction text.
pub struct Parser<'a> {
    pub lexer: Lexer<'a>,
    pub function_name: Option<String>,
    pub call_rank: u64,
}

impl<'a> Parser<'a> {
    /// A parser at the start of `content`, outside any function.
    pub fn new(content: &'a [char]) -> (r: Self)
        ensures
            r.lexer.content@ == content@,
            r.function_name is None,
            r.call_rank == 0u64,
    {
        Self { lexer: Lexer::new(content), function_name: None, call_rank: 0 }
    }

    /// Yields the next token; scoping state untouched.
    fn next_token(&mut self) -> (r: Option<&'a [char]>)
        ensures
            final(self).function_name == old(self).function_name,
            final(self).call_rank == old(self).call_rank,
            ({
                let ts = spec_tokens(old(self).lexer.content@);
                if ts.len() == 0 {
                    r is None
                } else {
                    r matches Some(t) && t@ == ts[0] && spec_tokens(final(self).lexer.content@)
                        == ts.skip(1)
                }
            }),
    {
        proof {
            lemma_tokens_step(self.lexer.content@);
        }
        let ghost c0 = self.lexer.content@;
        let r = self.lexer.next_token();
        proof {
            let t = crate::lexer::spec_blank_skip(c0);
            if t.len() > 0 {
                let n = crate::lexer::spec_token_len(t) as int;
                assert(spec_tokens(c0) == seq![t.take(n)] + spec_tokens(t.skip(n)));
                assert((seq![t.take(n)] + spec_tokens(t.skip(n)))[0] == t.take(n));
                assert((seq![t.take(n)] + spec_tokens(t.skip(n))).skip(1) =~= spec_tokens(
                    t.skip(n),
                ));
            }
        }
        r
    }

    /// Parses the next instruction: `Ok(None)` at end of input, the
    /// parsed command otherwise, or the first rejection. Exactly the
    /// tokens of one instruction are consumed on success.
    pub fn next_command(&mut self) -> (r: Result<Option<Command>, ParseError>)
        requires
            old(self).call_rank < 0xffff_ffff_ffff_ffffu64,
        ensures
            ({
                let step = spec_next_command(
                    spec_tokens(old(self).lexer.content@),
                    opt_name(old(self).function_name),
                    old(self).call_rank as nat,
                );
                match step {
                    ParseStep::Nothing => {
                        &&& r matches Ok(c) && c is None
                        &&& final(self).function_name == old(self).function_name
                        &&& final(self).call_rank == old(self).call_rank
                    },
                    ParseStep::Fail(e) => r matches Err(pe) && pe == e,
                    ParseStep::Parsed(c, nf, nr, used) => {
                        &&& r matches Ok(oc) && oc matches Some(cmd) && cmd@ == c
                        &&& opt_name(final(self).function_name) == nf
                        &&& final(self).call_rank as nat == nr
                        &&& spec_tokens(final(self).lexer.content@) == spec_tokens(
                            old(self).lexer.content@,
                        ).skip(used as int)
                    },
                }
            }),
    {
        let ghost ts = spec_tokens(old(self).lexer.content@);
        let f = match self.next_token() {
            None => {
                return Ok(None);
            },
            Some(t) => t,
        };
        if token_eq(f, "add") {
            return Ok(Some(Command::Arithmetic(Arithmetic::ADD)));
        }
        if token_eq(f, "sub") {
            return Ok(Some(Command::Arithmetic(Arithmetic::SUB)));
        }
        if token_eq(f, "neg") {
            return Ok(Some(Command::Arithmetic(Arithmetic::NEG)));
        }
        if token_eq(f, "eq") {
            return Ok(Some(Command::Arithmetic(Arithmetic::EQ)));
        }
        if token_eq(f, "gt") {
            return Ok(Some(Command::Arithmetic(Arithmetic::GT)));
        }
        if token_eq(f, "lt") {
            return Ok(Some(Command::Arithmetic(Arithmetic::LT)));
        }
        if token_eq(f, "and") {
            return Ok(Some(Command::Arithmetic(Arithmetic::AND)));
        }
        if token_eq(f, "or") {
            return Ok(Some(Command::Arithmetic(Arithmetic::OR)));
        }
        if token_eq(f, "not") {
            return Ok(Some(Command::Arithmetic(Arithmetic::NOT)));
        }
        let is_push = token_eq(f, "push");
        if is_push || token_eq(f, "pop") {
            let seg_tok = match self.next_token() {
                None => {
                    return Err(ParseError::EndOfInput);
                },
                Some(t) => t,
            };
            proof {
                assert(ts.skip(1)[0] == ts[1]);
                assert(ts.skip(1).skip(1) =~= ts.skip(2));
            }
            let segment = if token_eq(seg_tok, "local") {
                MemorySegment::Local
            } else if token_eq(seg_tok, "argument") {
                MemorySegment::Argument
            } else if token_eq(seg_tok, "this") {
                MemorySegment::This
            } else if token_eq(seg_tok, "that") {
                MemorySegment::That
            } else if token_eq(seg_tok, "constant") {
                MemorySegment::Constant
            } else if token_eq(seg_tok, "static") {
                MemorySegment::Static
            } else if token_eq(seg_tok, "pointer") {
                MemorySegment::Pointer
            } else if token_eq(seg_tok, "temp") {
                MemorySegment::Temp
            } else {
                return Err(ParseError::UnknownSegment);
            };
            let idx_tok = match self.next_token() {
                None => {
                    return Err(ParseError::EndOfInput);
                },
                Some(t) => t,
            };
            proof {
                assert(ts.skip(2)[0] == ts[2]);
                assert(ts.skip(2).skip(1) =~= ts.skip(3));
            }
            let index = match parse_u16(idx_tok) {
                None => {
                    return Err(ParseError::MalformedNumber);
                },
                Some(v) => v,
            };
            return Ok(
                Some(
                    if is_push {
                        Command::Push(segment, index)
                    } else {
                        Command::Pop(segment, index)
                    },
                ),
            );
        }
        let is_label = token_eq(f, "label");
        if is_label || token_eq(f, "goto") {
            let l_tok = match self.next_token() {
                None => {
                    return Err(ParseError::EndOfInput);
                },
                Some(t) => t,
            };
            proof {
                assert(ts.skip(1)[0] == ts[1]);
                assert(ts.skip(1).skip(1) =~= ts.skip(2));
            }
            let fun = match &self.function_name {
                None => {
                    return Err(ParseError::LabelOutsideFunction);
                },
                Some(g) => g,
            };
            let scoped = scoped_label(fun, l_tok);
            return Ok(
                Some(
                    if is_label {
                        Command::Label(scoped)
                    } else {
                        Command::Goto(scoped)
                    },
                ),
            );
        }
        if token_eq(f, "if") {
            let dash = match self.next_token() {
                None => {
                    return Err(ParseError::EndOfInput);
                },
                Some(t) => t,
            };
            proof {
                assert(ts.skip(1)[0] == ts[1]);
                assert(ts.skip(1).skip(1) =~= ts.skip(2));
            }
            if !token_eq(dash, "-") {
                return Err(ParseError::MalformedIfGoto);
            }
            let kw = match self.next_token() {
                None => {
                    return Err(ParseError::EndOfInput);
                },
                Some(t) => t,
            };
            proof {
                assert(ts.skip(2)[0] == ts[2]);
                assert(ts.skip(2).skip(1) =~= ts.skip(3));
            }
            if !token_eq(kw, "goto") {
                return Err(ParseError::MalformedIfGoto);
            }
            let l_tok = match self.next_token() {
                None => {
                    return Err(ParseError::EndOfInput);
                },
                Some(t) => t,
            };
            proof {
                assert(ts.skip(3)[0] == ts[3]);
                assert(ts.skip(3).skip(1) =~= ts.skip(4));
            }
            let fun = match &self.function_name {
                None => {
                    return Err(ParseError::LabelOutsideFunction);
                },
                Some(g) => g,
            };
            return Ok(Some(Command::IfGoto(scoped_label(fun, l_tok))));
        }
        if token_eq(f, "function") {
            let name_tok = match self.next_token() {
                None => {
                    return Err(ParseError::EndOfInput);
                },
                Some(t) => t,
            };
            proof {
                assert(ts.skip(1)[0] == ts[1]);
                assert(ts.skip(1).skip(1) =~= ts.skip(2));
            }
            let count_tok = match self.next_token() {
                None => {
                    return Err(ParseError::EndOfInput);
                },
                Some(t) => t,
            };
            proof {
                assert(ts.skip(2)[0] == ts[2]);
                assert(ts.skip(2).skip(1) =~= ts.skip(3));
            }
            let n = match parse_u16(count_tok) {
                None => {
                    return Err(ParseError::MalformedNumber);
                },
                Some(v) => v,
            };
            let name = chars_to_string(name_tok);
            let name2 = name.clone();
            self.function_name = Some(name2);
            self.call_rank = 0;
            return Ok(Some(Command::Function(name, n)));
        }
        if token_eq(f, "call") {
            let name_tok = match self.next_token() {
                None => {
                    return Err(ParseError::EndOfInput);
                },
                Some(t) => t,
            };
            proof {
                assert(ts.skip(1)[0] == ts[1]);
                assert(ts.skip(1).skip(1) =~= ts.skip(2));
            }
            let count_tok = match self.next_token() {
                None => {
                    return Err(ParseError::EndOfInput);
                },
                Some(t) => t,
            };
            proof {
                assert(ts.skip(2)[0] == ts[2]);
                assert(ts.skip(2).skip(1) =~= ts.skip(3));
            }
            let n = match parse_u16(count_tok) {
                None => {
                    return Err(ParseError::MalformedNumber);
                },
                Some(v) => v,
            };
            let fun = match &self.function_name {
                None => {
                    return Err(ParseError::CallOutsideFunction);
                },
                Some(g) => g.clone(),
            };
            let ret = ret_label(&fun, self.call_rank);
            self.call_rank = self.call_rank + 1;
            let name = chars_to_string(name_tok);
            return Ok(Some(Command::Call(name, n, ret)));
        }
        if token_eq(f, "return") {
            match &self.function_name {
                None => {
                    return Err(ParseError::ReturnOutsideFunction);
                },
                Some(_) => {
                    return Ok(Some(Command::Return));
                },
            }
        }
        Err(ParseError::UnknownCommand)
    }
}

} // verus!
