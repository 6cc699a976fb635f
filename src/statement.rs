use vstd::prelude::*;
use crate::expression::{expr_models, Expr, Expression};
use crate::token::{Token, TokenModel};

verus! {

broadcast use vstd::std_specs::vec::group_vec_axioms;

/// A statement of the language.
#[derive(Debug)]
pub enum Statement {
    Expression(ExpressionStatement),
    Let(LetStatement),
    Assignment(AssignmentExpression),
    Block(BlockStatement),
    If(IfStatement),
    While(WhileStatement),
    Print(PrintStatement),
}

#[derive(Debug)]
pub struct ExpressionStatement {
    pub expression: Expression,
}

#[derive(Debug)]
pub struct LetStatement {
    pub identifier: Token,
    pub value: Expression,
}

#[derive(Debug)]
pub struct AssignmentExpression {
    pub identifier: Token,
    pub value: Expression,
}

#[derive(Debug)]
pub struct BlockStatement {
    pub statements: Vec<Statement>,
}

#[derive(Debug)]
pub struct IfStatement {
    pub conditional: Expression,
    pub if_block: Box<Statement>,
    pub else_block: Option<Box<Statement>>,
}

#[derive(Debug)]
pub struct WhileStatement {
    pub conditional: Expression,
    pub block: Box<Statement>,
}

#[derive(Debug)]
pub struct PrintStatement {
    pub values: Vec<Expression>,
}

/// The mathematical value of a [`Statement`].
pub enum Stmt {
    Expression(Expr),
    Let(TokenModel, Expr),
    Assign(TokenModel, Expr),
    Block(Seq<Stmt>),
    If(Expr, Box<Stmt>, Option<Box<Stmt>>),
    While(Expr, Box<Stmt>),
    Print(Seq<Expr>),
}

impl Statement {
    pub open spec fn model(&self) -> Stmt
        decreases self,
    {
        match self {
            Statement::Expression(s) => Stmt::Expression(s.expression.model()),
            Statement::Let(s) => Stmt::Let(s.identifier@, s.value.model()),
            Statement::Assignment(s) => Stmt::Assign(s.identifier@, s.value.model()),
            Statement::Block(s) => Stmt::Block(stmt_models(s.statements@)),
            Statement::If(s) => Stmt::If(
                s.conditional.model(),
                Box::new(s.if_block.model()),
                match &s.else_block {
                    Some(b) => Some(Box::new(b.model())),
                    None => None,
                },
            ),
            Statement::While(s) => Stmt::While(s.conditional.model(), Box::new(s.block.model())),
            Statement::Print(s) => Stmt::Print(expr_models(s.values@)),
        }
    }
}

/// The models of a sequence of statements.
pub open spec fn stmt_models(ss: Seq<Statement>) -> Seq<Stmt>
    decreases ss,
{
    if ss.len() == 0 {
        Seq::empty()
    } else {
        stmt_models(ss.subrange(0, ss.len() - 1)).push(ss[ss.len() - 1].model())
    }
}

pub proof fn lemma_stmt_models_push(ss: Seq<Statement>, s: Statement)
    ensures
        stmt_models(ss.push(s)) == stmt_models(ss).push(s.model()),
{
    assert(ss.push(s).subrange(0, ss.len() as int) =~= ss);
}

pub proof fn lemma_stmt_models_len(ss: Seq<Statement>)
    ensures
        stmt_models(ss).len() == ss.len(),
        forall|i: int| 0 <= i < ss.len() ==> #[trigger] stmt_models(ss)[i] == ss[i].model(),
    decreases ss.len(),
{
    if ss.len() > 0 {
        lemma_stmt_models_len(ss.subrange(0, ss.len() - 1));
    }
}

impl ExpressionStatement {
    pub fn new(expression: Expression) -> (r: Self)
        ensures
            r.expression == expression,
    {
        ExpressionStatement { expression }
    }
}

impl LetStatement {
    pub fn new(identifier: Token, value: Expression) -> (r: Self)
        ensures
            r.identifier == identifier,
            r.value == value,
    {
        LetStatement { identifier, value }
    }
}

impl AssignmentExpression {
    pub fn new(identifier: Token, value: Expression) -> (r: Self)
        ensures
            r.identifier == identifier,
            r.value == value,
    {
        AssignmentExpression { identifier, value }
    }
}

impl BlockStatement {
    pub fn new(statements: Vec<Statement>) -> (r: Self)
        ensures
            r.statements == statements,
    {
        BlockStatement { statements }
    }
}

impl IfStatement {
    pub fn new(conditional: Expression, if_block: Statement, else_block: Option<Statement>) -> (r: Self)
        ensures
            r.conditional == conditional,
            *r.if_block == if_block,
            match else_block {
                Some(b) => r.else_block is Some && *r.else_block->Some_0 == b,
                None => r.else_block is None,
            },
    {
        IfStatement {
            conditional,
            if_block: Box::new(if_block),
            else_block: match else_block {
                Some(b) => Some(Box::new(b)),
                None => None,
            },
        }
    }
}

impl WhileStatement {
    pub fn new(conditional: Expression, block: Statement) -> (r: Self)
        ensures
            r.conditional == conditional,
            *r.block == block,
    {
        WhileStatement { conditional, block: Box::new(block) }
    }
}

impl PrintStatement {
    pub fn new(values: Vec<Expression>) -> (r: Self)
        ensures
            r.values == values,
    {
        PrintStatement { values }
    }
}

} // verus!
