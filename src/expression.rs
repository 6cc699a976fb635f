use vstd::prelude::*;
use crate::object::{Object, Value};
use crate::token::{Token, TokenModel};

verus! {

/// An expression of the language.
#[derive(Debug)]
pub enum Expression {
    Variable(VariableExpression),
    Literal(LiteralExpression),
    Unary(UnaryExpression),
    Binary(BinaryExpression),
    Grouping(GroupingExpression),
}

#[derive(Debug)]
pub struct VariableExpression {
    pub identifier: Token,
}

#[derive(Debug)]
pub struct LiteralExpression {
    pub literal: Object,
}

#[derive(Debug)]
pub struct UnaryExpression {
    pub operator: Token,
    pub right: Box<Expression>,
}

#[derive(Debug)]
pub struct BinaryExpression {
    pub left: Box<Expression>,
    pub operator: Token,
    pub right: Box<Expression>,
}

#[derive(Debug)]
pub struct GroupingExpression {
    pub expressions: Box<Expression>,
}

/// The mathematical value of an [`Expression`].
pub enum Expr {
    Variable(TokenModel),
    Literal(Value),
    Unary(TokenModel, Box<Expr>),
    Binary(Box<Expr>, TokenModel, Box<Expr>),
    Grouping(Box<Expr>),
}

impl Expression {
    pub open spec fn model(&self) -> Expr
        decreases self,
    {
        match self {
            Expression::Variable(v) => Expr::Variable(v.identifier@),
            Expression::Literal(l) => Expr::Literal(l.literal@),
            Expression::Unary(u) => Expr::Unary(u.operator@, Box::new(u.right.model())),
            Expression::Binary(b) => Expr::Binary(
                Box::new(b.left.model()),
                b.operator@,
                Box::new(b.right.model()),
            ),
            Expression::Grouping(g) => Expr::Grouping(Box::new(g.expressions.model())),
        }
    }
}

/// The models of a sequence of expressions.
pub open spec fn expr_models(es: Seq<Expression>) -> Seq<Expr> {
    es.map_values(|e: Expression| e.model())
}

impl VariableExpression {
    pub fn new(identifier: Token) -> (r: Self)
        ensures
            r.identifier == identifier,
    {
        VariableExpression { identifier }
    }
}

impl LiteralExpression {
    pub fn new(literal: Object) -> (r: Self)
        ensures
            r.literal == literal,
    {
        LiteralExpression { literal }
    }
}

impl UnaryExpression {
    pub fn new(operator: Token, right: Expression) -> (r: Self)
        ensures
            r.operator == operator,
            *r.right == right,
    {
        UnaryExpression { operator, right: Box::new(right) }
    }
}

impl BinaryExpression {
    pub fn new(left: Expression, operator: Token, right: Expression) -> (r: Self)
        ensures
            *r.left == left,
            r.operator == operator,
            *r.right == right,
    {
        BinaryExpression { left: Box::new(left), operator, right: Box::new(right) }
    }
}

impl GroupingExpression {
    pub fn new(expressions: Expression) -> (r: Self)
        ensures
            *r.expressions == expressions,
    {
        GroupingExpression { expressions: Box::new(expressions) }
    }
}

} // verus!
