use vstd::prelude::*;

verus! {

/// A run-time value. A number is held as the bit pattern of an IEEE-754
/// binary64 value; the arithmetic that produces such patterns is supplied
/// by the host (see [`computes`]).
#[derive(Debug, Clone, PartialEq)]
pub enum Object {
    Number(u64),
    Boolean(bool),
    String(String),
    Nil,
}

/// The mathematical value of an [`Object`].
pub enum Value {
    Number(u64),
    Boolean(bool),
    Str(Seq<char>),
    Nil,
}

impl View for Object {
    type V = Value;

    open spec fn view(&self) -> Value {
        match self {
            Object::Number(n) => Value::Number(*n),
            Object::Boolean(b) => Value::Boolean(*b),
            Object::String(s) => Value::Str(s@),
            Object::Nil => Value::Nil,
        }
    }
}

/// Only `nil` and `false` are falsy.
pub open spec fn truthy(v: Value) -> bool {
    match v {
        Value::Nil => false,
        Value::Boolean(b) => b,
        _ => true,
    }
}

pub const SIGN_BIT: u64 = 0x8000_0000_0000_0000;

pub const MAGNITUDE_BITS: u64 = 0x7FFF_FFFF_FFFF_FFFF;

pub const EXPONENT_BITS: u64 = 0x7FF0_0000_0000_0000;

/// A pattern whose exponent is all ones and whose fraction is not zero.
pub open spec fn is_nan(b: u64) -> bool {
    b & MAGNITUDE_BITS > EXPONENT_BITS
}

/// Position of a non-NaN pattern on the number line: the magnitude bits
/// grow with the value, and the sign bit mirrors them (so both zeros sit at 0).
pub open spec fn order_key(b: u64) -> int {
    if b & SIGN_BIT != 0 {
        -((b & MAGNITUDE_BITS) as int)
    } else {
        (b & MAGNITUDE_BITS) as int
    }
}

/// IEEE-754 equality: NaN equals nothing, and `-0 == +0`.
pub open spec fn number_eq(a: u64, b: u64) -> bool {
    !is_nan(a) && !is_nan(b) && order_key(a) == order_key(b)
}

/// IEEE-754 `<`: false whenever either side is NaN.
pub open spec fn number_lt(a: u64, b: u64) -> bool {
    !is_nan(a) && !is_nan(b) && order_key(a) < order_key(b)
}

/// IEEE-754 `<=`: false whenever either side is NaN.
pub open spec fn number_le(a: u64, b: u64) -> bool {
    !is_nan(a) && !is_nan(b) && order_key(a) <= order_key(b)
}

/// Negation flips the sign bit; `x * -1` gives the same value for every `x`.
pub open spec fn number_neg(a: u64) -> u64 {
    a ^ SIGN_BIT
}

/// Structural equality of values; numbers compare as IEEE-754 numbers and
/// values of different kinds are never equal.
pub open spec fn values_equal(a: Value, b: Value) -> bool {
    match (a, b) {
        (Value::Number(x), Value::Number(y)) => number_eq(x, y),
        (Value::Boolean(x), Value::Boolean(y)) => x == y,
        (Value::Str(x), Value::Str(y)) => x == y,
        (Value::Nil, Value::Nil) => true,
        _ => false,
    }
}

/// The arithmetic operations that the host carries out on numbers.
#[derive(Debug, Clone, Copy, PartialEq, Eq, Structural)]
pub enum ArithOp {
    Add,
    Sub,
    Mul,
    Div,
    Rem,
}

/// `read` turns any text into a number, and the same text always into the
/// same number.
pub open spec fn reads_decimals<P: Fn(&str) -> u64>(read: P) -> bool {
    &&& forall|s: &str| #[trigger] read.requires((s,))
    &&& forall|s: &str, t: &str, x: u64, y: u64|
        s@ == t@ && #[trigger] read.ensures((s,), x) && #[trigger] read.ensures((t,), y) ==> x == y
}

/// `read` may give `x` for a text whose characters are `digits`.
pub open spec fn reads_as<P: Fn(&str) -> u64>(read: P, digits: Seq<char>, x: u64) -> bool {
    exists|s: &str| s@ == digits && #[trigger] read.ensures((s,), x)
}

/// The number that `read` gives for the decimal text `digits`.
pub open spec fn decimal_value<P: Fn(&str) -> u64>(read: P, digits: Seq<char>) -> u64 {
    choose|x: u64| #[trigger] reads_as(read, digits, x)
}

/// `arith` accepts every operation and operand pair, and is a function of them.
pub open spec fn computes<A: Fn(ArithOp, u64, u64) -> u64>(arith: A) -> bool {
    &&& forall|op: ArithOp, x: u64, y: u64| #[trigger] arith.requires((op, x, y))
    &&& forall|op: ArithOp, x: u64, y: u64, r: u64, q: u64|
        #[trigger] arith.ensures((op, x, y), r) && #[trigger] arith.ensures((op, x, y), q) ==> r == q
}

/// The number that `arith` gives for `op` on `x` and `y`.
pub open spec fn arith_value<A: Fn(ArithOp, u64, u64) -> u64>(arith: A, op: ArithOp, x: u64, y: u64) -> u64 {
    choose|r: u64| arith.ensures((op, x, y), r)
}

/// `show` renders every number, and each number always as the same text.
pub open spec fn renders<R: Fn(u64) -> String>(show: R) -> bool {
    &&& forall|x: u64| #[trigger] show.requires((x,))
    &&& forall|x: u64, s: String, t: String|
        #[trigger] show.ensures((x,), s) && #[trigger] show.ensures((x,), t) ==> s@ == t@
}

/// The text that `show` gives for the number `x`.
pub open spec fn number_text<R: Fn(u64) -> String>(show: R, x: u64) -> Seq<char> {
    (choose|s: String| show.ensures((x,), s))@
}

/// The textual form of a value, as `print` writes it.
pub open spec fn value_text<R: Fn(u64) -> String>(show: R, v: Value) -> Seq<char> {
    match v {
        Value::Number(x) => number_text(show, x),
        Value::Boolean(b) => if b { "true"@ } else { "false"@ },
        Value::Str(s) => s,
        Value::Nil => "nil"@,
    }
}

/// Reads the decimal text `digits` through the host.
pub fn read_number<P: Fn(&str) -> u64>(read: &P, digits: &str) -> (r: u64)
    requires
        reads_decimals(*read),
    ensures
        r == decimal_value(*read, digits@),
{
    let r = read(digits);
    assert(reads_as(*read, digits@, r));
    r
}

/// Applies `op` through the host.
pub fn arith_number<A: Fn(ArithOp, u64, u64) -> u64>(arith: &A, op: ArithOp, x: u64, y: u64) -> (r: u64)
    requires
        computes(*arith),
    ensures
        r == arith_value(*arith, op, x, y),
{
    let r = arith(op, x, y);
    assert(arith.ensures((op, x, y), r));
    r
}

/// Renders a number through the host.
pub fn show_number<R: Fn(u64) -> String>(show: &R, x: u64) -> (r: String)
    requires
        renders(*show),
    ensures
        r@ == number_text(*show, x),
{
    let r = show(x);
    assert(show.ensures((x,), r));
    r
}

pub fn negate(a: u64) -> (r: u64)
    ensures
        r == number_neg(a),
{
    a ^ 0x8000_0000_0000_0000u64
}

fn key_of(a: u64) -> (r: i64)
    requires
        !is_nan(a),
    ensures
        r == order_key(a),
{
    let m: u64 = a & 0x7FFF_FFFF_FFFF_FFFFu64;
    assert(m <= 0x7FFF_FFFF_FFFF_FFFFu64) by (bit_vector)
        requires m == a & 0x7FFF_FFFF_FFFF_FFFFu64;
    if a & 0x8000_0000_0000_0000u64 != 0 {
        -(m as i64)
    } else {
        m as i64
    }
}

pub fn nan(a: u64) -> (r: bool)
    ensures
        r == is_nan(a),
{
    a & 0x7FFF_FFFF_FFFF_FFFFu64 > 0x7FF0_0000_0000_0000u64
}

/// IEEE-754 comparison of two numbers: `Some(c)` with `c` in {-1, 0, 1},
/// or `None` when they are unordered.
pub fn compare_numbers(a: u64, b: u64) -> (r: Option<i8>)
    ensures
        r is None <==> is_nan(a) || is_nan(b),
        r == Some(0i8) <==> number_eq(a, b),
        r == Some(-1i8) <==> number_lt(a, b),
        r == Some(1i8) <==> number_lt(b, a),
{
    if nan(a) || nan(b) {
        None
    } else {
        let ka = key_of(a);
        let kb = key_of(b);
        if ka < kb {
            Some(-1)
        } else if ka == kb {
            Some(0)
        } else {
            Some(1)
        }
    }
}

impl Object {
    /// Only `nil` and `false` are falsy.
    pub fn is_truthy(&self) -> (r: bool)
        ensures
            r == truthy(self@),
    {
        match self {
            Object::Nil => false,
            Object::Boolean(b) => *b,
            _ => true,
        }
    }

    /// A copy with the same model.
    pub fn duplicate(&self) -> (r: Object)
        ensures
            r@ == self@,
    {
        match self {
            Object::Number(n) => Object::Number(*n),
            Object::Boolean(b) => Object::Boolean(*b),
            Object::String(s) => Object::String(s.clone()),
            Object::Nil => Object::Nil,
        }
    }

    /// Structural equality; see [`values_equal`].
    pub fn equals(&self, other: &Object) -> (r: bool)
        ensures
            r == values_equal(self@, other@),
    {
        match (self, other) {
            (Object::Number(x), Object::Number(y)) => compare_numbers(*x, *y) == Some(0i8),
            (Object::Boolean(x), Object::Boolean(y)) => *x == *y,
            (Object::String(x), Object::String(y)) => *x == *y,
            (Object::Nil, Object::Nil) => true,
            _ => false,
        }
    }

    /// The textual form of the value, numbers rendered by `show`.
    pub fn text<R: Fn(u64) -> String>(&self, show: &R) -> (r: String)
        requires
            renders(*show),
        ensures
            r@ == value_text(*show, self@),
    {
        match self {
            Object::Number(x) => show_number(show, *x),
            Object::Boolean(b) => if *b {
                String::from_str("true")
            } else {
                String::from_str("false")
            },
            Object::String(s) => s.clone(),
            Object::Nil => String::from_str("nil"),
        }
    }
}

} // verus!
