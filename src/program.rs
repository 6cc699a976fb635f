use vstd::prelude::*;
use crate::error::{Error, ErrorModel};
use crate::interpreter::{exec_seq, lines, unit_result, Interpreter, State};
use crate::lexer::{lemma_scan_ends_in_eof, scan, Lexer};
use crate::object::{computes, reads_decimals, renders, ArithOp};
use crate::parser::{parse_program, Parser};

verus! {

/// A program run from its source text: lexed, parsed, then executed with
/// fresh bindings. The result holds the printed lines and how the run ended;
/// a lexing or parsing error prints nothing.
pub open spec fn program_run<
    P: Fn(&str) -> u64,
    A: Fn(ArithOp, u64, u64) -> u64,
    R: Fn(u64) -> String,
>(read: P, arith: A, show: R, src: Seq<char>, loop_limit: nat) -> (
    Seq<Seq<char>>,
    Result<(), ErrorModel>,
) {
    match scan(read, src, 0, 1) {
        Err(e) => (Seq::empty(), Err(e)),
        Ok(toks) => match parse_program(toks, 0, Seq::empty()) {
            Err(e) => (Seq::empty(), Err(e)),
            Ok(stmts) => {
                let (st, r) = exec_seq(
                    arith,
                    show,
                    stmts,
                    State { env: Map::empty(), output: Seq::empty() },
                    loop_limit,
                );
                (st.output, r)
            },
        },
    }
}

/// Lexes, parses and runs `source`, returning the lines it printed and how it
/// ended. Each `while` loop may run at most `loop_limit` iterations each time
/// it is entered.
pub fn run_program<P: Fn(&str) -> u64, A: Fn(ArithOp, u64, u64) -> u64, R: Fn(u64) -> String>(
    source: &str,
    read: &P,
    arith: &A,
    show: &R,
    loop_limit: u64,
) -> (r: (Vec<String>, Result<(), Error>))
    requires
        source@.len() < usize::MAX,
        reads_decimals(*read),
        computes(*arith),
        renders(*show),
    ensures
        (lines(r.0@), unit_result(r.1)) == program_run(
            *read,
            *arith,
            *show,
            source@,
            loop_limit as nat,
        ),
{
    let mut out: Vec<String> = Vec::new();
    assert(lines(out@) =~= Seq::<Seq<char>>::empty());
    let mut lexer = Lexer::new(source);
    let tokens = match lexer.lex(read) {
        Ok(ts) => ts,
        Err(e) => {
            return (out, Err(e));
        },
    };
    proof {
        lemma_scan_ends_in_eof(*read, source@, 0, 1);
    }
    let mut parser = Parser::new(tokens);
    let statements = match parser.parse() {
        Ok(ss) => ss,
        Err(e) => {
            return (out, Err(e));
        },
    };
    let mut interpreter = Interpreter::new();
    let r = interpreter.run(&statements, arith, show, loop_limit, &mut out);
    (out, r)
}

} // verus!
