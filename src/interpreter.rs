use vstd::prelude::*;
use crate::environment::{unbound, Environment};
use crate::error::{Error, ErrorModel, ErrorType};
use crate::expression::{expr_models, Expr, Expression};
use crate::object::{
    arith_number, arith_value, compare_numbers, computes, negate, number_le, number_lt,
    number_neg, renders, truthy, value_text, values_equal, ArithOp, Object, Value,
};
use crate::statement::{lemma_stmt_models_len, stmt_models, Statement, Stmt};
use crate::token::{Token, TokenModel, TokenType};

verus! {

broadcast use vstd::std_specs::vec::group_vec_axioms;

pub open spec fn runtime_error(message: Seq<char>, line: nat) -> ErrorModel {
    ErrorModel { etype: ErrorType::RuntimeError, message, line }
}

/// The result of a unary operator on a value.
pub open spec fn unary_value<R: Fn(u64) -> String>(show: R, op: TokenModel, v: Value) -> Result<
    Value,
    ErrorModel,
> {
    match op.ttype {
        TokenType::Minus => match v {
            Value::Number(x) => Ok(Value::Number(number_neg(x))),
            _ => Err(
                runtime_error(
                    "Expected number after '-', found '"@ + value_text(show, v) + "'"@,
                    op.line,
                ),
            ),
        },
        TokenType::Bang => match v {
            Value::Boolean(b) => Ok(Value::Boolean(!b)),
            _ => Err(
                runtime_error(
                    "Expected boolean after '!', found '"@ + value_text(show, v) + "'"@,
                    op.line,
                ),
            ),
        },
        _ => Err(runtime_error("Expected '-' or '!', found '"@ + op.lexeme + "'"@, op.line)),
    }
}

/// The host operation behind an arithmetic operator.
pub open spec fn arith_kind(t: TokenType) -> ArithOp {
    match t {
        TokenType::Plus => ArithOp::Add,
        TokenType::Minus => ArithOp::Sub,
        TokenType::Multiplication => ArithOp::Mul,
        TokenType::Division => ArithOp::Div,
        _ => ArithOp::Rem,
    }
}

/// How an ordering operator compares two numbers.
pub open spec fn ordered(t: TokenType, x: u64, y: u64) -> bool {
    match t {
        TokenType::Greater => number_lt(y, x),
        TokenType::GreaterEqual => number_le(y, x),
        TokenType::Less => number_lt(x, y),
        _ => number_le(x, y),
    }
}

/// The error for operands of the wrong kinds, naming the operator and both operands.
pub open spec fn mismatch<R: Fn(u64) -> String>(
    show: R,
    op: TokenModel,
    wanted: Seq<char>,
    l: Value,
    r: Value,
) -> ErrorModel {
    runtime_error(
        "Expected '"@ + wanted + "', found '"@ + value_text(show, l) + " "@ + op.lexeme + " "@
            + value_text(show, r) + "'"@,
        op.line,
    )
}

pub open spec fn numbers_wanted(op: TokenModel) -> Seq<char> {
    "number "@ + op.lexeme + " number"@
}

/// The result of a binary operator on two values.
pub open spec fn binary_value<A: Fn(ArithOp, u64, u64) -> u64, R: Fn(u64) -> String>(
    arith: A,
    show: R,
    op: TokenModel,
    l: Value,
    r: Value,
) -> Result<Value, ErrorModel> {
    match op.ttype {
        TokenType::Plus => match (l, r) {
            (Value::Number(x), Value::Number(y)) => Ok(
                Value::Number(arith_value(arith, ArithOp::Add, x, y)),
            ),
            (Value::Str(x), Value::Str(y)) => Ok(Value::Str(x + y)),
            _ => Err(mismatch(show, op, "number/string + number/string"@, l, r)),
        },
        TokenType::Minus | TokenType::Multiplication | TokenType::Division | TokenType::Modulo => {
            match (l, r) {
                (Value::Number(x), Value::Number(y)) => Ok(
                    Value::Number(arith_value(arith, arith_kind(op.ttype), x, y)),
                ),
                _ => Err(mismatch(show, op, numbers_wanted(op), l, r)),
            }
        },
        TokenType::EqualEqual => Ok(Value::Boolean(values_equal(l, r))),
        TokenType::BangEqual => Ok(Value::Boolean(!values_equal(l, r))),
        TokenType::Greater | TokenType::GreaterEqual | TokenType::Less | TokenType::LessEqual => {
            match (l, r) {
                (Value::Number(x), Value::Number(y)) => Ok(Value::Boolean(ordered(op.ttype, x, y))),
                _ => Err(mismatch(show, op, numbers_wanted(op), l, r)),
            }
        },
        TokenType::And => Ok(Value::Boolean(truthy(l) && truthy(r))),
        TokenType::Or => Ok(Value::Boolean(truthy(l) || truthy(r))),
        _ => Err(runtime_error("Expected a Binary Operator, found '"@ + op.lexeme + "'"@, op.line)),
    }
}

/// The value of an expression under the bindings `env`. Both operands of a
/// binary operator are evaluated, left first; the first error wins.
pub open spec fn eval<A: Fn(ArithOp, u64, u64) -> u64, R: Fn(u64) -> String>(
    arith: A,
    show: R,
    e: Expr,
    env: Map<Seq<char>, Value>,
) -> Result<Value, ErrorModel>
    decreases e,
{
    match e {
        Expr::Literal(v) => Ok(v),
        Expr::Variable(t) => if env.contains_key(t.lexeme) {
            Ok(env[t.lexeme])
        } else {
            Err(unbound(t))
        },
        Expr::Grouping(x) => eval(arith, show, *x, env),
        Expr::Unary(op, x) => match eval(arith, show, *x, env) {
            Ok(v) => unary_value(show, op, v),
            Err(err) => Err(err),
        },
        Expr::Binary(x, op, y) => match eval(arith, show, *x, env) {
            Ok(l) => match eval(arith, show, *y, env) {
                Ok(r) => binary_value(arith, show, op, l, r),
                Err(err) => Err(err),
            },
            Err(err) => Err(err),
        },
    }
}

/// The line that `print` writes for `es`: their textual forms, in order, with
/// no separator.
pub open spec fn print_line<A: Fn(ArithOp, u64, u64) -> u64, R: Fn(u64) -> String>(
    arith: A,
    show: R,
    es: Seq<Expr>,
    env: Map<Seq<char>, Value>,
) -> Result<Seq<char>, ErrorModel>
    decreases es.len(),
{
    if es.len() == 0 {
        Ok(Seq::empty())
    } else {
        match print_line(arith, show, es.subrange(0, es.len() - 1), env) {
            Ok(t) => match eval(arith, show, es[es.len() - 1], env) {
                Ok(v) => Ok(t + value_text(show, v)),
                Err(err) => Err(err),
            },
            Err(err) => Err(err),
        }
    }
}

/// What a program has done so far: its bindings and the lines it printed.
pub struct State {
    pub env: Map<Seq<char>, Value>,
    pub output: Seq<Seq<char>>,
}

/// The error when a `while` loop runs more iterations than allowed.
pub open spec fn loop_limit_error() -> ErrorModel {
    runtime_error("Loop iteration limit reached"@, 0)
}

/// Runs one statement. A `while` loop may run at most `fuel` iterations each
/// time it is entered.
pub open spec fn exec<A: Fn(ArithOp, u64, u64) -> u64, R: Fn(u64) -> String>(
    arith: A,
    show: R,
    s: Stmt,
    st: State,
    fuel: nat,
) -> (State, Result<(), ErrorModel>)
    decreases s, 0nat,
{
    match s {
        Stmt::Expression(e) => match eval(arith, show, e, st.env) {
            Ok(_) => (st, Ok(())),
            Err(err) => (st, Err(err)),
        },
        Stmt::Let(t, e) => match eval(arith, show, e, st.env) {
            Ok(v) => (State { env: st.env.insert(t.lexeme, v), ..st }, Ok(())),
            Err(err) => (st, Err(err)),
        },
        Stmt::Assign(t, e) => match eval(arith, show, e, st.env) {
            Ok(v) => if st.env.contains_key(t.lexeme) {
                (State { env: st.env.insert(t.lexeme, v), ..st }, Ok(()))
            } else {
                (st, Err(unbound(t)))
            },
            Err(err) => (st, Err(err)),
        },
        Stmt::Block(ss) => exec_seq(arith, show, ss, st, fuel),
        Stmt::If(c, then_branch, else_branch) => match eval(arith, show, c, st.env) {
            Ok(v) => if truthy(v) {
                exec(arith, show, *then_branch, st, fuel)
            } else {
                match else_branch {
                    Some(b) => exec(arith, show, *b, st, fuel),
                    None => (st, Ok(())),
                }
            },
            Err(err) => (st, Err(err)),
        },
        Stmt::While(c, body) => exec_loop(arith, show, c, *body, st, fuel, fuel),
        Stmt::Print(es) => match print_line(arith, show, es, st.env) {
            Ok(line) => (State { output: st.output.push(line), ..st }, Ok(())),
            Err(err) => (st, Err(err)),
        },
    }
}

/// Runs statements in order; the first error stops the run.
pub open spec fn exec_seq<A: Fn(ArithOp, u64, u64) -> u64, R: Fn(u64) -> String>(
    arith: A,
    show: R,
    ss: Seq<Stmt>,
    st: State,
    fuel: nat,
) -> (State, Result<(), ErrorModel>)
    decreases ss, 0nat,
{
    if ss.len() == 0 {
        (st, Ok(()))
    } else {
        let (mid, r) = exec_seq(arith, show, ss.subrange(0, ss.len() - 1), st, fuel);
        match r {
            Ok(_) => exec(arith, show, ss[ss.len() - 1], mid, fuel),
            Err(_) => (mid, r),
        }
    }
}

/// A `while` loop that may run `n` more iterations.
pub open spec fn exec_loop<A: Fn(ArithOp, u64, u64) -> u64, R: Fn(u64) -> String>(
    arith: A,
    show: R,
    c: Expr,
    body: Stmt,
    st: State,
    fuel: nat,
    n: nat,
) -> (State, Result<(), ErrorModel>)
    decreases body, n + 1,
{
    match eval(arith, show, c, st.env) {
        Ok(v) => if !truthy(v) {
            (st, Ok(()))
        } else if n == 0 {
            (st, Err(loop_limit_error()))
        } else {
            let (next, r) = exec(arith, show, body, st, fuel);
            match r {
                Ok(_) => exec_loop(arith, show, c, body, next, fuel, (n - 1) as nat),
                Err(_) => (next, r),
            }
        },
        Err(err) => (st, Err(err)),
    }
}

pub open spec fn value_result(r: Result<Object, Error>) -> Result<Value, ErrorModel> {
    match r {
        Ok(v) => Ok(v@),
        Err(e) => Err(e@),
    }
}

pub open spec fn unit_result(r: Result<(), Error>) -> Result<(), ErrorModel> {
    match r {
        Ok(_) => Ok(()),
        Err(e) => Err(e@),
    }
}

/// The texts of printed lines.
pub open spec fn lines(v: Seq<String>) -> Seq<Seq<char>> {
    v.map_values(|s: String| s@)
}

pub proof fn lemma_lines_push(v: Seq<String>, s: String)
    ensures
        lines(v.push(s)) == lines(v).push(s@),
{
    assert(lines(v.push(s)) =~= lines(v).push(s@));
}

fn runtime(message: &String, line: usize) -> (r: Error)
    ensures
        r@ == runtime_error(message@, line as nat),
{
    Error::new(ErrorType::RuntimeError, message.as_str(), line)
}

fn mismatch_error<R: Fn(u64) -> String>(
    show: &R,
    op: &Token,
    wanted: &String,
    l: &Object,
    r: &Object,
) -> (e: Error)
    requires
        renders(*show),
    ensures
        e@ == mismatch(*show, op@, wanted@, l@, r@),
{
    let m = String::from_str("Expected '").concat(wanted.as_str()).concat("', found '");
    let m = m.concat(l.text(show).as_str()).concat(" ").concat(op.lexeme.as_str()).concat(" ");
    let m = m.concat(r.text(show).as_str()).concat("'");
    runtime(&m, op.line)
}

fn numbers_wanted_text(op: &Token) -> (r: String)
    ensures
        r@ == numbers_wanted(op@),
{
    String::from_str("number ").concat(op.lexeme.as_str()).concat(" number")
}

fn arith_kind_of(t: TokenType) -> (r: ArithOp)
    ensures
        r == arith_kind(t),
{
    match t {
        TokenType::Plus => ArithOp::Add,
        TokenType::Minus => ArithOp::Sub,
        TokenType::Multiplication => ArithOp::Mul,
        TokenType::Division => ArithOp::Div,
        _ => ArithOp::Rem,
    }
}

fn ordered_numbers(t: TokenType, x: u64, y: u64) -> (r: bool)
    ensures
        r == ordered(t, x, y),
{
    let c = compare_numbers(x, y);
    match t {
        TokenType::Greater => match c {
            Some(1) => true,
            _ => false,
        },
        TokenType::GreaterEqual => match c {
            Some(1) => true,
            Some(0) => true,
            _ => false,
        },
        TokenType::Less => match c {
            Some(-1) => true,
            _ => false,
        },
        _ => match c {
            Some(-1) => true,
            Some(0) => true,
            _ => false,
        },
    }
}

/// Applies a unary operator; see [`unary_value`].
pub fn unary_operation<R: Fn(u64) -> String>(show: &R, op: &Token, v: Object) -> (r: Result<
    Object,
    Error,
>)
    requires
        renders(*show),
    ensures
        value_result(r) == unary_value(*show, op@, v@),
{
    match op.ttype {
        TokenType::Minus => match v {
            Object::Number(x) => Ok(Object::Number(negate(x))),
            _ => {
                let m = String::from_str("Expected number after '-', found '").concat(
                    v.text(show).as_str(),
                ).concat("'");
                Err(runtime(&m, op.line))
            },
        },
        TokenType::Bang => match v {
            Object::Boolean(b) => Ok(Object::Boolean(!b)),
            _ => {
                let m = String::from_str("Expected boolean after '!', found '").concat(
                    v.text(show).as_str(),
                ).concat("'");
                Err(runtime(&m, op.line))
            },
        },
        _ => {
            let m = String::from_str("Expected '-' or '!', found '").concat(
                op.lexeme.as_str(),
            ).concat("'");
            Err(runtime(&m, op.line))
        },
    }
}

/// Applies a binary operator to two evaluated operands; see [`binary_value`].
pub fn binary_operation<A: Fn(ArithOp, u64, u64) -> u64, R: Fn(u64) -> String>(
    arith: &A,
    show: &R,
    op: &Token,
    l: Object,
    r: Object,
) -> (res: Result<Object, Error>)
    requires
        computes(*arith),
        renders(*show),
    ensures
        value_result(res) == binary_value(*arith, *show, op@, l@, r@),
{
    match op.ttype {
        TokenType::Plus => match (&l, &r) {
            (Object::Number(x), Object::Number(y)) => Ok(
                Object::Number(arith_number(arith, ArithOp::Add, *x, *y)),
            ),
            (Object::String(x), Object::String(y)) => Ok(
                Object::String(x.clone().concat(y.as_str())),
            ),
            _ => {
                let wanted = String::from_str("number/string + number/string");
                Err(mismatch_error(show, op, &wanted, &l, &r))
            },
        },
        TokenType::Minus | TokenType::Multiplication | TokenType::Division | TokenType::Modulo => {
            match (&l, &r) {
                (Object::Number(x), Object::Number(y)) => Ok(
                    Object::Number(arith_number(arith, arith_kind_of(op.ttype), *x, *y)),
                ),
                _ => Err(mismatch_error(show, op, &numbers_wanted_text(op), &l, &r)),
            }
        },
        TokenType::EqualEqual => Ok(Object::Boolean(l.equals(&r))),
        TokenType::BangEqual => Ok(Object::Boolean(!l.equals(&r))),
        TokenType::Greater | TokenType::GreaterEqual | TokenType::Less | TokenType::LessEqual => {
            match (&l, &r) {
                (Object::Number(x), Object::Number(y)) => Ok(
                    Object::Boolean(ordered_numbers(op.ttype, *x, *y)),
                ),
                _ => Err(mismatch_error(show, op, &numbers_wanted_text(op), &l, &r)),
            }
        },
        TokenType::And => Ok(Object::Boolean(l.is_truthy() && r.is_truthy())),
        TokenType::Or => Ok(Object::Boolean(l.is_truthy() || r.is_truthy())),
        _ => {
            let m = String::from_str("Expected a Binary Operator, found '").concat(
                op.lexeme.as_str(),
            ).concat("'");
            Err(runtime(&m, op.line))
        },
    }
}

/// Walks the statement tree, holding the program's single environment.
pub struct Interpreter {
    environment: Environment,
}

impl Interpreter {
    pub closed spec fn env(&self) -> Map<Seq<char>, Value> {
        self.environment@
    }

    pub closed spec fn wf(&self) -> bool {
        self.environment.wf()
    }

    pub fn new() -> (r: Self)
        ensures
            r.wf(),
            r.env() == Map::<Seq<char>, Value>::empty(),
    {
        Interpreter { environment: Environment::new() }
    }

    /// Evaluates an expression; see [`eval`].
    pub fn evaluate<A: Fn(ArithOp, u64, u64) -> u64, R: Fn(u64) -> String>(
        &self,
        e: &Expression,
        arith: &A,
        show: &R,
    ) -> (r: Result<Object, Error>)
        requires
            self.wf(),
            computes(*arith),
            renders(*show),
        ensures
            value_result(r) == eval(*arith, *show, e.model(), self.env()),
        decreases e,
    {
        match e {
            Expression::Literal(l) => Ok(l.literal.duplicate()),
            Expression::Variable(v) => self.environment.get(&v.identifier),
            Expression::Grouping(g) => self.evaluate(&g.expressions, arith, show),
            Expression::Unary(u) => match self.evaluate(&u.right, arith, show) {
                Ok(v) => unary_operation(show, &u.operator, v),
                Err(err) => Err(err),
            },
            Expression::Binary(b) => match self.evaluate(&b.left, arith, show) {
                Ok(l) => match self.evaluate(&b.right, arith, show) {
                    Ok(r) => binary_operation(arith, show, &b.operator, l, r),
                    Err(err) => Err(err),
                },
                Err(err) => Err(err),
            },
        }
    }

    /// The [`State`] made of this interpreter's bindings and the lines in `out`.
    pub open spec fn state(&self, out: Seq<String>) -> State {
        State { env: self.env(), output: lines(out) }
    }

    /// Evaluates the expressions of a `print` statement into one line; see
    /// [`print_line`].
    fn print_text<A: Fn(ArithOp, u64, u64) -> u64, R: Fn(u64) -> String>(
        &self,
        values: &Vec<Expression>,
        arith: &A,
        show: &R,
    ) -> (r: Result<String, Error>)
        requires
            self.wf(),
            computes(*arith),
            renders(*show),
        ensures
            match r {
                Ok(t) => print_line(*arith, *show, expr_models(values@), self.env()) == Ok::<
                    Seq<char>,
                    ErrorModel,
                >(t@),
                Err(e) => print_line(*arith, *show, expr_models(values@), self.env()) == Err::<
                    Seq<char>,
                    ErrorModel,
                >(e@),
            },
    {
        let ghost es = expr_models(values@);
        let mut text = String::new();
        let mut i: usize = 0;
        assert(es.subrange(0, 0).len() == 0);
        while i < values.len()
            invariant
                self.wf(),
                computes(*arith),
                renders(*show),
                es == expr_models(values@),
                i <= values@.len(),
                print_line(*arith, *show, es.subrange(0, i as int), self.env()) == Ok::<
                    Seq<char>,
                    ErrorModel,
                >(text@),
            decreases values.len() - i,
        {
            assert(es.subrange(0, i + 1).subrange(0, i as int) =~= es.subrange(0, i as int));
            match self.evaluate(&values[i], arith, show) {
                Ok(v) => {
                    text = text.concat(v.text(show).as_str());
                },
                Err(e) => {
                    proof {
                        lemma_print_prefix_error(*arith, *show, es, self.env(), (i + 1) as int);
                    }
                    return Err(e);
                },
            }
            i = i + 1;
        }
        assert(es.subrange(0, i as int) =~= es);
        Ok(text)
    }

    /// Runs one statement; see [`exec`].
    pub fn execute<A: Fn(ArithOp, u64, u64) -> u64, R: Fn(u64) -> String>(
        &mut self,
        s: &Statement,
        arith: &A,
        show: &R,
        fuel: u64,
        out: &mut Vec<String>,
    ) -> (r: Result<(), Error>)
        requires
            old(self).wf(),
            computes(*arith),
            renders(*show),
        ensures
            final(self).wf(),
            (final(self).state(final(out)@), unit_result(r)) == exec(
                *arith,
                *show,
                s.model(),
                old(self).state(old(out)@),
                fuel as nat,
            ),
        decreases s,
    {
        match s {
            Statement::Expression(x) => match self.evaluate(&x.expression, arith, show) {
                Ok(_) => Ok(()),
                Err(e) => Err(e),
            },
            Statement::Let(l) => match self.evaluate(&l.value, arith, show) {
                Ok(v) => {
                    self.environment.set(&l.identifier, v);
                    Ok(())
                },
                Err(e) => Err(e),
            },
            Statement::Assignment(a) => match self.evaluate(&a.value, arith, show) {
                Ok(v) => match self.environment.get(&a.identifier) {
                    Ok(_) => {
                        self.environment.set(&a.identifier, v);
                        Ok(())
                    },
                    Err(e) => Err(e),
                },
                Err(e) => Err(e),
            },
            Statement::Block(b) => self.execute_all(&b.statements, arith, show, fuel, out),
            Statement::If(i) => match self.evaluate(&i.conditional, arith, show) {
                Ok(v) => if v.is_truthy() {
                    self.execute(&i.if_block, arith, show, fuel, out)
                } else {
                    match &i.else_block {
                        Some(b) => self.execute(b, arith, show, fuel, out),
                        None => Ok(()),
                    }
                },
                Err(e) => Err(e),
            },
            Statement::While(w) => {
                let ghost c = w.conditional.model();
                let ghost body = w.block.model();
                let mut n: u64 = fuel;
                loop
                    invariant
                        self.wf(),
                        computes(*arith),
                        renders(*show),
                        n <= fuel,
                        decreases_to!(s => w.block),
                        c == w.conditional.model(),
                        body == w.block.model(),
                        exec(*arith, *show, s.model(), old(self).state(old(out)@), fuel as nat)
                            == exec_loop(
                            *arith,
                            *show,
                            c,
                            body,
                            self.state(out@),
                            fuel as nat,
                            n as nat,
                        ),
                    decreases n,
                {
                    match self.evaluate(&w.conditional, arith, show) {
                        Ok(v) => {
                            if !v.is_truthy() {
                                return Ok(());
                            }
                            if n == 0 {
                                let m = String::from_str("Loop iteration limit reached");
                                return Err(runtime(&m, 0));
                            }
                            match self.execute(&w.block, arith, show, fuel, out) {
                                Ok(_) => {},
                                Err(e) => {
                                    return Err(e);
                                },
                            }
                            n = n - 1;
                        },
                        Err(e) => {
                            return Err(e);
                        },
                    }
                }
            },
            Statement::Print(p) => match self.print_text(&p.values, arith, show) {
                Ok(text) => {
                    proof {
                        lemma_lines_push(out@, text);
                    }
                    out.push(text);
                    Ok(())
                },
                Err(e) => Err(e),
            },
        }
    }

    /// Runs statements in order until the first error; see [`exec_seq`].
    pub fn execute_all<A: Fn(ArithOp, u64, u64) -> u64, R: Fn(u64) -> String>(
        &mut self,
        ss: &Vec<Statement>,
        arith: &A,
        show: &R,
        fuel: u64,
        out: &mut Vec<String>,
    ) -> (r: Result<(), Error>)
        requires
            old(self).wf(),
            computes(*arith),
            renders(*show),
        ensures
            final(self).wf(),
            (final(self).state(final(out)@), unit_result(r)) == exec_seq(
                *arith,
                *show,
                stmt_models(ss@),
                old(self).state(old(out)@),
                fuel as nat,
            ),
        decreases ss,
    {
        let ghost m = stmt_models(ss@);
        proof {
            lemma_stmt_models_len(ss@);
            assert(m.subrange(0, 0).len() == 0);
        }
        let mut i: usize = 0;
        while i < ss.len()
            invariant
                self.wf(),
                computes(*arith),
                renders(*show),
                m == stmt_models(ss@),
                m.len() == ss@.len(),
                forall|j: int| 0 <= j < ss@.len() ==> #[trigger] m[j] == ss@[j].model(),
                i <= ss@.len(),
                exec_seq(*arith, *show, m.subrange(0, i as int), old(self).state(old(out)@), fuel as nat)
                    == (self.state(out@), Ok::<(), ErrorModel>(())),
            decreases ss.len() - i,
        {
            assert(m.subrange(0, i + 1).subrange(0, i as int) =~= m.subrange(0, i as int));
            match self.execute(&ss[i], arith, show, fuel, out) {
                Ok(_) => {},
                Err(e) => {
                    proof {
                        lemma_seq_error_prefix(*arith, *show, m, old(self).state(old(out)@), fuel as nat, (i + 1) as int);
                    }
                    return Err(e);
                },
            }
            i = i + 1;
        }
        assert(m.subrange(0, i as int) =~= m);
        Ok(())
    }

    /// Runs a program from the current bindings, appending what it prints to
    /// `out`. Each `while` loop may run at most `loop_limit` iterations each
    /// time it is entered.
    pub fn run<A: Fn(ArithOp, u64, u64) -> u64, R: Fn(u64) -> String>(
        &mut self,
        statements: &Vec<Statement>,
        arith: &A,
        show: &R,
        loop_limit: u64,
        out: &mut Vec<String>,
    ) -> (r: Result<(), Error>)
        requires
            old(self).wf(),
            computes(*arith),
            renders(*show),
        ensures
            final(self).wf(),
            (final(self).state(final(out)@), unit_result(r)) == exec_seq(
                *arith,
                *show,
                stmt_models(statements@),
                old(self).state(old(out)@),
                loop_limit as nat,
            ),
    {
        self.execute_all(statements, arith, show, loop_limit, out)
    }
}

/// Once a prefix of a `print` list fails, the whole list fails the same way.
pub proof fn lemma_print_prefix_error<A: Fn(ArithOp, u64, u64) -> u64, R: Fn(u64) -> String>(
    arith: A,
    show: R,
    es: Seq<Expr>,
    env: Map<Seq<char>, Value>,
    k: int,
)
    requires
        0 <= k <= es.len(),
        print_line(arith, show, es.subrange(0, k), env) is Err,
    ensures
        print_line(arith, show, es, env) == print_line(arith, show, es.subrange(0, k), env),
    decreases es.len() - k,
{
    if k < es.len() {
        let longer = es.subrange(0, k + 1);
        assert(longer.subrange(0, k) =~= es.subrange(0, k));
        lemma_print_prefix_error(arith, show, es, env, k + 1);
    } else {
        assert(es.subrange(0, k) =~= es);
    }
}

/// Once a prefix of a statement list fails, the whole list ends the same way.
pub proof fn lemma_seq_error_prefix<A: Fn(ArithOp, u64, u64) -> u64, R: Fn(u64) -> String>(
    arith: A,
    show: R,
    ss: Seq<Stmt>,
    st: State,
    fuel: nat,
    k: int,
)
    requires
        0 <= k <= ss.len(),
        exec_seq(arith, show, ss.subrange(0, k), st, fuel).1 is Err,
    ensures
        exec_seq(arith, show, ss, st, fuel) == exec_seq(arith, show, ss.subrange(0, k), st, fuel),
    decreases ss.len() - k,
{
    if k < ss.len() {
        let longer = ss.subrange(0, k + 1);
        assert(longer.subrange(0, k) =~= ss.subrange(0, k));
        lemma_seq_error_prefix(arith, show, ss, st, fuel, k + 1);
    } else {
        assert(ss.subrange(0, k) =~= ss);
    }
}

} // verus!
