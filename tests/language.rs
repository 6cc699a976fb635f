use divertido::error::{Error, ErrorType};
use divertido::object::ArithOp;
use divertido::program::run_program;

fn read(s: &str) -> u64 {
    s.parse::<f64>().unwrap().to_bits()
}

fn arith(op: ArithOp, a: u64, b: u64) -> u64 {
    let (x, y) = (f64::from_bits(a), f64::from_bits(b));
    let r = match op {
        ArithOp::Add => x + y,
        ArithOp::Sub => x - y,
        ArithOp::Mul => x * y,
        ArithOp::Div => x / y,
        ArithOp::Rem => x % y,
    };
    r.to_bits()
}

fn show(b: u64) -> String {
    format!("{}", f64::from_bits(b))
}

fn run(src: &str) -> (Vec<String>, Result<(), Error>) {
    run_program(src, &read, &arith, &show, u64::MAX)
}

fn output(src: &str) -> Vec<String> {
    let (out, r) = run(src);
    assert!(r.is_ok(), "unexpected error: {:?}", r);
    out
}

fn failure(src: &str) -> Error {
    run(src).1.unwrap_err()
}

#[test]
fn multiplication_binds_tighter_than_addition() {
    assert_eq!(output("print 1+2*3;"), vec!["7"]);
    assert_eq!(output("print (1+2)*3;"), vec!["9"]);
}

#[test]
fn binary_operators_group_to_the_left() {
    assert_eq!(output("print 10-4-3;"), vec!["3"]);
    assert_eq!(output("print 8/4/2;"), vec!["1"]);
}

#[test]
fn let_then_print_outputs_sum() {
    assert_eq!(output("let x = 5; print x + 1;"), vec!["6"]);
}

#[test]
fn zero_is_truthy() {
    assert_eq!(output("if 0 { print \"a\"; } else { print \"b\"; }"), vec!["a"]);
}

#[test]
fn only_nil_and_false_are_falsy_in_conditions() {
    assert_eq!(output("if nil { print 1; } else { print 2; }"), vec!["2"]);
    assert_eq!(output("if false { print 1; } else { print 2; }"), vec!["2"]);
    assert_eq!(output("if \"\" { print 1; } else { print 2; }"), vec!["1"]);
    assert_eq!(output("if true { print 1; }"), vec!["1"]);
}

#[test]
fn equality_across_kinds_is_false() {
    assert_eq!(output("print 1 == \"1\";"), vec!["false"]);
    assert_eq!(output("print nil != false;"), vec!["true"]);
    assert_eq!(output("print \"a\" == \"a\";"), vec!["true"]);
}

#[test]
fn division_by_zero_is_positive_infinity() {
    assert_eq!(output("print 1/0;"), vec!["inf"]);
    assert_eq!(output("print 1/0 > 100000;"), vec!["true"]);
}

#[test]
fn nan_is_not_equal_to_itself() {
    assert_eq!(output("print 0/0 == 0/0;"), vec!["false"]);
    assert_eq!(output("print 0/0 != 0/0;"), vec!["true"]);
    assert_eq!(output("print 0/0 < 1;"), vec!["false"]);
}

#[test]
fn negative_zero_equals_zero() {
    assert_eq!(output("print 0 == -0;"), vec!["true"]);
    assert_eq!(output("print -0;"), vec!["-0"]);
}

#[test]
fn negation_and_fractions() {
    assert_eq!(output("print -5 + 2;"), vec!["-3"]);
    assert_eq!(output("print 1/4;"), vec!["0.25"]);
}

#[test]
fn comparisons_of_numbers() {
    assert_eq!(
        output("print 1 < 2; print 2 <= 2; print 3 > 4; print 4 >= 5;"),
        vec!["true", "true", "false", "false"]
    );
}

#[test]
fn bang_negates_booleans() {
    assert_eq!(output("print !true;"), vec!["false"]);
}

#[test]
fn strings_concatenate() {
    assert_eq!(output("let a = \"ab\"; print a + \"cd\";"), vec!["abcd"]);
}

#[test]
fn values_print_in_their_textual_form() {
    assert_eq!(output("print nil; print true; print \"s\"; print 2;"), vec!["nil", "true", "s", "2"]);
}

#[test]
fn assignment_to_unbound_name_is_runtime_error() {
    let e = failure("x = 1;");
    assert_eq!(e.etype, ErrorType::RuntimeError);
    assert_eq!(e.message, "Variable with name 'x' not found");
    assert_eq!(e.line, 1);
}

#[test]
fn reading_unbound_name_is_runtime_error() {
    let e = failure("print y;");
    assert_eq!(e.etype, ErrorType::RuntimeError);
    assert!(e.message.contains("not found"));
}

#[test]
fn let_then_assignment_then_read_sees_update() {
    assert_eq!(output("let x = 1; x = 2; print x;"), vec!["2"]);
}

#[test]
fn let_rebinds_an_existing_name() {
    assert_eq!(output("let x = 1; let x = \"two\"; print x;"), vec!["two"]);
}

#[test]
fn while_loop_prints_each_iteration() {
    assert_eq!(
        output("let i = 0; while i < 3 { print i; i = i + 1; }"),
        vec!["0", "1", "2"]
    );
}

#[test]
fn bindings_made_in_a_block_stay_visible() {
    assert_eq!(output("{ let inner = 4; } print inner;"), vec!["4"]);
}

#[test]
fn else_if_chains_pick_the_first_true_branch() {
    let src = "let n = 2; if n == 1 { print \"one\"; } else if n == 2 { print \"two\"; } else { print \"many\"; }";
    assert_eq!(output(src), vec!["two"]);
}

#[test]
fn output_before_an_error_is_kept() {
    let (out, r) = run("print 1; print -\"a\";");
    assert_eq!(out, vec!["1"]);
    let e = r.unwrap_err();
    assert_eq!(e.etype, ErrorType::RuntimeError);
    assert_eq!(e.message, "Expected number after '-', found 'a'");
}

#[test]
fn mismatched_operands_name_operator_and_operands() {
    let e = failure("print 1 - \"a\";");
    assert_eq!(e.message, "Expected 'number - number', found '1 - a'");
    let e = failure("print true + 1;");
    assert_eq!(e.message, "Expected 'number/string + number/string', found 'true + 1'");
    let e = failure("print nil < 1;");
    assert_eq!(e.message, "Expected 'number < number', found 'nil < 1'");
}

#[test]
fn bang_on_a_number_is_runtime_error() {
    let e = failure("print !1;");
    assert_eq!(e.message, "Expected boolean after '!', found '1'");
}

#[test]
fn loop_beyond_its_limit_stops_with_error() {
    let (out, r) = run_program("while true { print 1; }", &read, &arith, &show, 2);
    assert_eq!(out, vec!["1", "1"]);
    let e = r.unwrap_err();
    assert_eq!(e.etype, ErrorType::RuntimeError);
    assert_eq!(e.message, "Loop iteration limit reached");
}

#[test]
fn unterminated_string_fails_the_run() {
    let e = failure("print \"abc");
    assert_eq!(e.etype, ErrorType::LexingError);
    assert_eq!(e.render(), "[line 1] LexingError: Unterminated string.");
}

#[test]
fn missing_semicolon_is_parsing_error() {
    let e = failure("print 1\nprint 2;");
    assert_eq!(e.etype, ErrorType::ParsingError);
    assert_eq!(e.message, "Expected ';' after expression, found 'print'");
    assert_eq!(e.line, 2);
    assert_eq!(e.render(), "[line 2] ParsingError: Expected ';' after expression, found 'print'.");
}

#[test]
fn errors_render_multi_digit_lines() {
    let src = "\n\n\n\n\n\n\n\n\n\n\n\nprint q;";
    assert_eq!(failure(src).render(), "[line 13] RuntimeError: Variable with name 'q' not found.");
}

#[test]
fn percent_sign_is_not_a_token() {
    let e = failure("print 7 % 3;");
    assert_eq!(e.etype, ErrorType::LexingError);
    assert_eq!(e.message, "Invalid character '%'");
}

#[test]
fn long_loop_sums_numbers() {
    let src = "let i = 0; let sum = 0; while i < 1000 { i = i + 1; sum = sum + i; } print sum;";
    assert_eq!(output(src), vec!["500500"]);
}

#[test]
fn empty_program_prints_nothing() {
    assert_eq!(output(""), Vec::<String>::new());
    assert_eq!(output("  // only a comment"), Vec::<String>::new());
}
