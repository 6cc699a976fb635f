use vstd::prelude::*;
use crate::environment::unbound;
use crate::expression::Expr;
use crate::interpreter::{binary_value, eval, exec, exec_seq, State};
use crate::lexer::scan;
use crate::object::{arith_value, truthy, ArithOp, Value};
use crate::statement::Stmt;
use crate::token::{TokenModel, TokenType};

verus! {

/// Only `nil` and `false` are falsy; every other value, `0` and the empty
/// string included, is truthy.
pub proof fn only_nil_and_false_are_falsy(v: Value)
    ensures
        !truthy(v) <==> (v == Value::Nil || v == Value::Boolean(false)),
{
}

pub open spec fn same_kind(a: Value, b: Value) -> bool {
    match (a, b) {
        (Value::Number(_), Value::Number(_)) => true,
        (Value::Boolean(_), Value::Boolean(_)) => true,
        (Value::Str(_), Value::Str(_)) => true,
        (Value::Nil, Value::Nil) => true,
        _ => false,
    }
}

/// Comparing values of different kinds with `==` or `!=` is never an error:
/// `==` gives `false` and `!=` gives `true`.
pub proof fn cross_kind_equality_is_false<A: Fn(ArithOp, u64, u64) -> u64, R: Fn(u64) -> String>(
    arith: A,
    show: R,
    op: TokenModel,
    l: Value,
    r: Value,
)
    requires
        !same_kind(l, r),
    ensures
        op.ttype == TokenType::EqualEqual ==> binary_value(arith, show, op, l, r) == Ok::<
            Value,
            crate::error::ErrorModel,
        >(Value::Boolean(false)),
        op.ttype == TokenType::BangEqual ==> binary_value(arith, show, op, l, r) == Ok::<
            Value,
            crate::error::ErrorModel,
        >(Value::Boolean(true)),
{
}

/// Dividing two numbers is never an error, whatever the divisor: the result
/// is the number that the host's division gives.
pub proof fn division_of_numbers_never_fails<A: Fn(ArithOp, u64, u64) -> u64, R: Fn(u64) -> String>(
    arith: A,
    show: R,
    op: TokenModel,
    x: u64,
    y: u64,
)
    requires
        op.ttype == TokenType::Division,
    ensures
        binary_value(arith, show, op, Value::Number(x), Value::Number(y)) == Ok::<
            Value,
            crate::error::ErrorModel,
        >(Value::Number(arith_value(arith, ArithOp::Div, x, y))),
{
}

/// Assigning to a name that was never bound is the "not found" runtime
/// error, and leaves the state as it was.
pub proof fn assignment_needs_a_binding<A: Fn(ArithOp, u64, u64) -> u64, R: Fn(u64) -> String>(
    arith: A,
    show: R,
    name: TokenModel,
    value: Expr,
    st: State,
    fuel: nat,
)
    requires
        !st.env.contains_key(name.lexeme),
        eval(arith, show, value, st.env) is Ok,
    ensures
        exec(arith, show, Stmt::Assign(name, value), st, fuel) == (
            st,
            Err::<(), crate::error::ErrorModel>(unbound(name)),
        ),
{
}

/// After `let x = a; x = b;` reading `x` gives the value of `b`.
pub proof fn assignment_after_let_is_observed<
    A: Fn(ArithOp, u64, u64) -> u64,
    R: Fn(u64) -> String,
>(arith: A, show: R, name: TokenModel, first: Expr, second: Expr, st: State, fuel: nat)
    requires
        eval(arith, show, first, st.env) is Ok,
        eval(arith, show, second, st.env.insert(name.lexeme, eval(arith, show, first, st.env)->Ok_0)) is Ok,
    ensures
        ({
            let (after, r) = exec_seq(
                arith,
                show,
                seq![Stmt::Let(name, first), Stmt::Assign(name, second)],
                st,
                fuel,
            );
            let bound = st.env.insert(name.lexeme, eval(arith, show, first, st.env)->Ok_0);
            r is Ok && eval(arith, show, Expr::Variable(name), after.env) == eval(
                arith,
                show,
                second,
                bound,
            )
        }),
{
    let ss = seq![Stmt::Let(name, first), Stmt::Assign(name, second)];
    assert(ss.subrange(0, 1) =~= seq![Stmt::Let(name, first)]);
    assert(ss.subrange(0, 1).subrange(0, 0) =~= Seq::<Stmt>::empty());
    let v1 = eval(arith, show, first, st.env)->Ok_0;
    let bound = st.env.insert(name.lexeme, v1);
    let v2 = eval(arith, show, second, bound)->Ok_0;
    let mid = State { env: bound, ..st };
    assert(exec_seq(arith, show, Seq::<Stmt>::empty(), st, fuel) == (st, Ok::<(), crate::error::ErrorModel>(())));
    let s1 = ss.subrange(0, 1);
    assert(s1.len() == 1 && s1[0] == Stmt::Let(name, first));
    assert(exec(arith, show, Stmt::Let(name, first), st, fuel) == (mid, Ok::<(), crate::error::ErrorModel>(())));
    assert(exec_seq(arith, show, ss.subrange(0, 1), st, fuel) == (mid, Ok::<(), crate::error::ErrorModel>(())));
    let last = State { env: bound.insert(name.lexeme, v2), ..mid };
    assert(exec(arith, show, Stmt::Assign(name, second), mid, fuel) == (last, Ok::<(), crate::error::ErrorModel>(())));
    assert(exec_seq(arith, show, ss, st, fuel) == (last, Ok::<(), crate::error::ErrorModel>(())));
}

/// Lexing does not depend on anything but the text: the same source always
/// gives the same tokens, or the same error.
pub proof fn lexing_is_deterministic<P: Fn(&str) -> u64>(read: P, a: Seq<char>, b: Seq<char>)
    requires
        a == b,
    ensures
        scan(read, a, 0, 1) == scan(read, b, 0, 1),
{
}

} // verus!
