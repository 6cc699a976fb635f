use vstd::prelude::*;
use crate::error::{Error, ErrorModel, ErrorType};
use crate::expression::{
    expr_models,
    BinaryExpression, Expr, Expression, GroupingExpression, LiteralExpression, UnaryExpression,
    VariableExpression,
};
use crate::statement::{
    lemma_stmt_models_push, stmt_models, AssignmentExpression, BlockStatement, ExpressionStatement,
    IfStatement, LetStatement, PrintStatement, Statement, Stmt, WhileStatement,
};
use crate::token::{token_models, Token, TokenModel, TokenType};

verus! {

broadcast use vstd::std_specs::vec::group_vec_axioms;

/// A token sequence the parser can work on: it ends in an EOF token.
pub open spec fn terminated(toks: Seq<TokenModel>) -> bool {
    toks.len() > 0 && toks[toks.len() - 1].ttype == TokenType::EOF
}

pub open spec fn kind(toks: Seq<TokenModel>, pos: int) -> TokenType {
    toks[pos].ttype
}

/// A parsing error at `pos`, naming the token found there.
pub open spec fn expected(toks: Seq<TokenModel>, pos: int, what: Seq<char>) -> ErrorModel {
    ErrorModel {
        etype: ErrorType::ParsingError,
        message: what + ", found '"@ + toks[pos].lexeme + "'"@,
        line: toks[pos].line,
    }
}

pub open spec fn unexpected(toks: Seq<TokenModel>, pos: int) -> ErrorModel {
    ErrorModel {
        etype: ErrorType::ParsingError,
        message: "Unexpected '"@ + toks[pos].lexeme + "'"@,
        line: toks[pos].line,
    }
}

pub open spec fn out_of_range() -> ErrorModel {
    ErrorModel { etype: ErrorType::ParsingError, message: "Unexpected end of input"@, line: 0 }
}

/// Binary operators by precedence level, lowest first: `or`, `and`,
/// comparisons, `+ -`, then `* / % & |`.
pub open spec fn level_op(k: nat, t: TokenType) -> bool {
    if k == 0 {
        t == TokenType::Or
    } else if k == 1 {
        t == TokenType::And
    } else if k == 2 {
        t == TokenType::BangEqual || t == TokenType::EqualEqual || t == TokenType::Greater || t
            == TokenType::GreaterEqual || t == TokenType::Less || t == TokenType::LessEqual
    } else if k == 3 {
        t == TokenType::Plus || t == TokenType::Minus
    } else {
        t == TokenType::Multiplication || t == TokenType::Division || t == TokenType::Modulo || t
            == TokenType::BitwiseAnd || t == TokenType::BitwiseOr
    }
}

pub open spec fn is_literal_kind(t: TokenType) -> bool {
    t == TokenType::Number || t == TokenType::String || t == TokenType::True || t
        == TokenType::False || t == TokenType::Nil
}

/// `primary := literal | Identifier | '(' expression ')'`
pub open spec fn parse_primary(toks: Seq<TokenModel>, pos: int) -> Result<(Expr, int), ErrorModel>
    decreases toks.len() - pos, 0nat,
{
    if pos < 0 || pos >= toks.len() {
        Err(out_of_range())
    } else if is_literal_kind(kind(toks, pos)) {
        Ok((Expr::Literal(toks[pos].literal), pos + 1))
    } else if kind(toks, pos) == TokenType::Identifier {
        Ok((Expr::Variable(toks[pos]), pos + 1))
    } else if kind(toks, pos) == TokenType::OpenParen {
        match parse_level(toks, pos + 1, 0) {
            Ok((e, p)) => if 0 <= p < toks.len() && kind(toks, p) == TokenType::CloseParen {
                Ok((Expr::Grouping(Box::new(e)), p + 1))
            } else if 0 <= p < toks.len() {
                Err(expected(toks, p, "Expected ')' after expression"@))
            } else {
                Err(out_of_range())
            },
            Err(err) => Err(err),
        }
    } else {
        Err(unexpected(toks, pos))
    }
}

/// `unary := ('-' | '!') primary | primary`
pub open spec fn parse_unary(toks: Seq<TokenModel>, pos: int) -> Result<(Expr, int), ErrorModel>
    decreases toks.len() - pos, 1nat,
{
    if pos < 0 || pos >= toks.len() {
        Err(out_of_range())
    } else if kind(toks, pos) == TokenType::Minus || kind(toks, pos) == TokenType::Bang {
        match parse_primary(toks, pos + 1) {
            Ok((e, p)) => Ok((Expr::Unary(toks[pos], Box::new(e)), p)),
            Err(err) => Err(err),
        }
    } else {
        parse_primary(toks, pos)
    }
}

/// Level `k` of the binary operators (level 5 is `unary`): an operand of
/// the next level, then any number of `op operand` pairs, grouped to the left.
pub open spec fn parse_level(toks: Seq<TokenModel>, pos: int, k: nat) -> Result<
    (Expr, int),
    ErrorModel,
>
    decreases toks.len() - pos, 2 * (6 - k) + 1,
{
    if pos < 0 || pos >= toks.len() || k > 5 {
        Err(out_of_range())
    } else if k == 5 {
        parse_unary(toks, pos)
    } else {
        match parse_level(toks, pos, k + 1) {
            Ok((left, p)) => if pos <= p <= toks.len() {
                level_rest(toks, p, k, left)
            } else {
                Err(out_of_range())
            },
            Err(err) => Err(err),
        }
    }
}

/// The `op operand` pairs of level `k` that follow `left`.
pub open spec fn level_rest(toks: Seq<TokenModel>, pos: int, k: nat, left: Expr) -> Result<
    (Expr, int),
    ErrorModel,
>
    decreases toks.len() - pos, 2 * (6 - k),
{
    if pos < 0 || pos >= toks.len() || k >= 5 {
        Err(out_of_range())
    } else if level_op(k, kind(toks, pos)) {
        match parse_level(toks, pos + 1, k + 1) {
            Ok((right, p)) => if pos < p <= toks.len() {
                level_rest(toks, p, k, Expr::Binary(Box::new(left), toks[pos], Box::new(right)))
            } else {
                Err(out_of_range())
            },
            Err(err) => Err(err),
        }
    } else {
        Ok((left, pos))
    }
}

pub open spec fn parse_expression(toks: Seq<TokenModel>, pos: int) -> Result<(Expr, int), ErrorModel> {
    parse_level(toks, pos, 0)
}

/// `expression ';'` at `pos`, finishing a statement.
pub open spec fn then_semicolon(
    toks: Seq<TokenModel>,
    r: Result<(Expr, int), ErrorModel>,
    what: Seq<char>,
) -> Result<(Expr, int), ErrorModel> {
    match r {
        Ok((e, p)) => if 0 <= p < toks.len() && kind(toks, p) == TokenType::Semicolon {
            Ok((e, p + 1))
        } else if 0 <= p < toks.len() {
            Err(expected(toks, p, what))
        } else {
            Err(out_of_range())
        },
        Err(err) => Err(err),
    }
}

/// `'let' Identifier '=' expression ';'`
pub open spec fn parse_let(toks: Seq<TokenModel>, pos: int) -> Result<(Stmt, int), ErrorModel> {
    if pos < 0 || pos + 1 >= toks.len() {
        Err(out_of_range())
    } else if kind(toks, pos + 1) != TokenType::Identifier {
        Err(expected(toks, pos + 1, "Expected identifier after 'let'"@))
    } else if pos + 2 >= toks.len() {
        Err(out_of_range())
    } else if kind(toks, pos + 2) != TokenType::Equal {
        Err(expected(toks, pos + 2, "Expected '=' after identifier"@))
    } else {
        match then_semicolon(
            toks,
            parse_expression(toks, pos + 3),
            "Expected ';' after variable declaration"@,
        ) {
            Ok((e, p)) => Ok((Stmt::Let(toks[pos + 1], e), p)),
            Err(err) => Err(err),
        }
    }
}

/// `Identifier '=' expression ';'`
pub open spec fn parse_assignment(toks: Seq<TokenModel>, pos: int) -> Result<(Stmt, int), ErrorModel> {
    if pos < 0 || pos + 1 >= toks.len() {
        Err(out_of_range())
    } else if kind(toks, pos + 1) != TokenType::Equal {
        Err(expected(toks, pos + 1, "Expected '=' after identifier"@))
    } else {
        match then_semicolon(
            toks,
            parse_expression(toks, pos + 2),
            "Expected ';' after variable declaration"@,
        ) {
            Ok((e, p)) => Ok((Stmt::Assign(toks[pos], e), p)),
            Err(err) => Err(err),
        }
    }
}

/// `expression ';'`
pub open spec fn parse_expression_statement(toks: Seq<TokenModel>, pos: int) -> Result<
    (Stmt, int),
    ErrorModel,
> {
    match then_semicolon(toks, parse_expression(toks, pos), "Expected ';' after expression"@) {
        Ok((e, p)) => Ok((Stmt::Expression(e), p)),
        Err(err) => Err(err),
    }
}

/// The rest of a `print` list after the expressions `acc`: `(',' expression)* ';'`
pub open spec fn print_rest(toks: Seq<TokenModel>, pos: int, acc: Seq<Expr>) -> Result<
    (Stmt, int),
    ErrorModel,
>
    decreases toks.len() - pos,
{
    if pos < 0 || pos >= toks.len() {
        Err(out_of_range())
    } else if kind(toks, pos) == TokenType::Comma {
        match parse_expression(toks, pos + 1) {
            Ok((e, p)) => if pos < p <= toks.len() {
                print_rest(toks, p, acc.push(e))
            } else {
                Err(out_of_range())
            },
            Err(err) => Err(err),
        }
    } else if kind(toks, pos) == TokenType::Semicolon {
        Ok((Stmt::Print(acc), pos + 1))
    } else {
        Err(expected(toks, pos, "Expected ';' after expression"@))
    }
}

/// `'print' expression (',' expression)* ';'`
pub open spec fn parse_print(toks: Seq<TokenModel>, pos: int) -> Result<(Stmt, int), ErrorModel> {
    match parse_expression(toks, pos + 1) {
        Ok((e, p)) => print_rest(toks, p, seq![e]),
        Err(err) => Err(err),
    }
}

/// `statement := let | assignment | block | if | while | print | expression ';'`,
/// chosen by the current token.
pub open spec fn parse_statement(toks: Seq<TokenModel>, pos: int) -> Result<(Stmt, int), ErrorModel>
    decreases toks.len() - pos, 2nat,
{
    if pos < 0 || pos >= toks.len() {
        Err(out_of_range())
    } else {
        let t = kind(toks, pos);
        if t == TokenType::Let {
            parse_let(toks, pos)
        } else if t == TokenType::Identifier {
            parse_assignment(toks, pos)
        } else if t == TokenType::OpenCurly {
            parse_block(toks, pos)
        } else if t == TokenType::If {
            parse_if(toks, pos)
        } else if t == TokenType::While {
            parse_while(toks, pos)
        } else if t == TokenType::Print {
            parse_print(toks, pos)
        } else {
            parse_expression_statement(toks, pos)
        }
    }
}

/// `'{' statement* '}'`
pub open spec fn parse_block(toks: Seq<TokenModel>, pos: int) -> Result<(Stmt, int), ErrorModel>
    decreases toks.len() - pos, 1nat,
{
    if pos < 0 || pos >= toks.len() {
        Err(out_of_range())
    } else if kind(toks, pos) != TokenType::OpenCurly {
        Err(expected(toks, pos, "Expected '{' before block"@))
    } else {
        block_rest(toks, pos + 1, Seq::empty())
    }
}

/// The statements of a block after `acc`, up to its closing `}`.
pub open spec fn block_rest(toks: Seq<TokenModel>, pos: int, acc: Seq<Stmt>) -> Result<
    (Stmt, int),
    ErrorModel,
>
    decreases toks.len() - pos, 3nat,
{
    if pos < 0 || pos >= toks.len() {
        Err(out_of_range())
    } else if kind(toks, pos) == TokenType::CloseCurly {
        Ok((Stmt::Block(acc), pos + 1))
    } else if kind(toks, pos) == TokenType::EOF {
        Err(expected(toks, pos, "Expected '}' after block"@))
    } else {
        match parse_statement(toks, pos) {
            Ok((s, p)) => if pos < p <= toks.len() {
                block_rest(toks, p, acc.push(s))
            } else {
                Err(out_of_range())
            },
            Err(err) => Err(err),
        }
    }
}

/// `'if' expression block ('else' (if | block))?`
pub open spec fn parse_if(toks: Seq<TokenModel>, pos: int) -> Result<(Stmt, int), ErrorModel>
    decreases toks.len() - pos, 1nat,
{
    match parse_expression(toks, pos + 1) {
        Ok((c, at_then)) => if pos < at_then <= toks.len() {
            match parse_block(toks, at_then) {
                Ok((then_branch, at_else)) => if pos < at_else < toks.len() && kind(toks, at_else)
                    == TokenType::Else {
                    if at_else + 1 < toks.len() && kind(toks, at_else + 1) == TokenType::If {
                        match parse_if(toks, at_else + 1) {
                            Ok((e, at_end)) => Ok(
                                (Stmt::If(c, Box::new(then_branch), Some(Box::new(e))), at_end),
                            ),
                            Err(err) => Err(err),
                        }
                    } else {
                        match parse_block(toks, at_else + 1) {
                            Ok((e, at_end)) => Ok(
                                (Stmt::If(c, Box::new(then_branch), Some(Box::new(e))), at_end),
                            ),
                            Err(err) => Err(err),
                        }
                    }
                } else {
                    Ok((Stmt::If(c, Box::new(then_branch), None), at_else))
                },
                Err(err) => Err(err),
            }
        } else {
            Err(out_of_range())
        },
        Err(err) => Err(err),
    }
}

/// `'while' expression block`
pub open spec fn parse_while(toks: Seq<TokenModel>, pos: int) -> Result<(Stmt, int), ErrorModel>
    decreases toks.len() - pos, 1nat,
{
    match parse_expression(toks, pos + 1) {
        Ok((c, at_then)) => if pos < at_then <= toks.len() {
            match parse_block(toks, at_then) {
                Ok((body, at_else)) => Ok((Stmt::While(c, Box::new(body)), at_else)),
                Err(err) => Err(err),
            }
        } else {
            Err(out_of_range())
        },
        Err(err) => Err(err),
    }
}

/// The statements from `pos` to the end of input, after `acc`.
pub open spec fn parse_program(toks: Seq<TokenModel>, pos: int, acc: Seq<Stmt>) -> Result<
    Seq<Stmt>,
    ErrorModel,
>
    decreases toks.len() - pos,
{
    if pos < 0 || pos >= toks.len() {
        Err(out_of_range())
    } else if kind(toks, pos) == TokenType::EOF {
        Ok(acc)
    } else {
        match parse_statement(toks, pos) {
            Ok((s, p)) => if pos < p <= toks.len() {
                parse_program(toks, p, acc.push(s))
            } else {
                Err(out_of_range())
            },
            Err(err) => Err(err),
        }
    }
}

pub open spec fn expr_outcome(r: Result<Expression, Error>, p: int) -> Result<(Expr, int), ErrorModel> {
    match r {
        Ok(e) => Ok((e.model(), p)),
        Err(err) => Err(err@),
    }
}

pub open spec fn stmt_outcome(r: Result<Statement, Error>, p: int) -> Result<(Stmt, int), ErrorModel> {
    match r {
        Ok(s) => Ok((s.model(), p)),
        Err(err) => Err(err@),
    }
}

pub open spec fn program_outcome(r: Result<Vec<Statement>, Error>) -> Result<Seq<Stmt>, ErrorModel> {
    match r {
        Ok(ss) => Ok(stmt_models(ss@)),
        Err(err) => Err(err@),
    }
}

fn level_op_of(k: u8, t: TokenType) -> (r: bool)
    ensures
        r == level_op(k as nat, t),
{
    if k == 0 {
        t == TokenType::Or
    } else if k == 1 {
        t == TokenType::And
    } else if k == 2 {
        t == TokenType::BangEqual || t == TokenType::EqualEqual || t == TokenType::Greater || t
            == TokenType::GreaterEqual || t == TokenType::Less || t == TokenType::LessEqual
    } else if k == 3 {
        t == TokenType::Plus || t == TokenType::Minus
    } else {
        t == TokenType::Multiplication || t == TokenType::Division || t == TokenType::Modulo || t
            == TokenType::BitwiseAnd || t == TokenType::BitwiseOr
    }
}

/// Builds the statement tree from a token sequence by recursive descent, with
/// one token of lookahead; the first error ends the parse.
pub struct Parser {
    tokens: Vec<Token>,
    current: usize,
}

impl Parser {
    pub closed spec fn toks(&self) -> Seq<TokenModel> {
        token_models(self.tokens@)
    }

    pub closed spec fn pos(&self) -> int {
        self.current as int
    }

    pub open spec fn wf(&self) -> bool {
        terminated(self.toks()) && 0 <= self.pos() < self.toks().len()
    }

    pub fn new(tokens: Vec<Token>) -> (r: Self)
        requires
            terminated(token_models(tokens@)),
        ensures
            r.wf(),
            r.toks() == token_models(tokens@),
            r.pos() == 0,
    {
        Parser { tokens, current: 0 }
    }

    fn peek_kind(&self) -> (t: TokenType)
        requires
            self.wf(),
        ensures
            t == kind(self.toks(), self.pos()),
    {
        self.tokens[self.current].ttype
    }

    fn advance(&mut self)
        requires
            old(self).wf(),
        ensures
            final(self).wf(),
            final(self).toks() == old(self).toks(),
            final(self).pos() == if kind(old(self).toks(), old(self).pos()) == TokenType::EOF {
                old(self).pos()
            } else {
                old(self).pos() + 1
            },
    {
        let n = self.tokens.len();
        if self.tokens[self.current].ttype != TokenType::EOF {
            assert(self.toks()[self.pos()] == self.tokens@[self.pos()]@);
            assert(self.toks()[self.toks().len() - 1] == self.tokens@[self.toks().len() - 1]@);
            self.current = self.current + 1;
        }
    }

    fn next_token(&mut self) -> (r: Token)
        requires
            old(self).wf(),
            kind(old(self).toks(), old(self).pos()) != TokenType::EOF,
        ensures
            final(self).wf(),
            final(self).toks() == old(self).toks(),
            final(self).pos() == old(self).pos() + 1,
            r@ == old(self).toks()[old(self).pos()],
    {
        let t = self.tokens[self.current].duplicate();
        self.advance();
        t
    }

    fn expected_error(&self, what: &str) -> (e: Error)
        requires
            self.wf(),
        ensures
            e@ == expected(self.toks(), self.pos(), what@),
    {
        let m = String::from_str(what).concat(", found '").concat(
            self.tokens[self.current].lexeme.as_str(),
        ).concat("'");
        Error::new(ErrorType::ParsingError, m.as_str(), self.tokens[self.current].line)
    }

    fn consume(&mut self, t: TokenType, what: &str) -> (r: Result<Token, Error>)
        requires
            old(self).wf(),
            t != TokenType::EOF,
        ensures
            final(self).wf(),
            final(self).toks() == old(self).toks(),
            match r {
                Ok(tok) => kind(old(self).toks(), old(self).pos()) == t && tok@ == old(
                    self,
                ).toks()[old(self).pos()] && final(self).pos() == old(self).pos() + 1,
                Err(e) => kind(old(self).toks(), old(self).pos()) != t && e@ == expected(
                    old(self).toks(),
                    old(self).pos(),
                    what@,
                ),
            },
    {
        if self.peek_kind() == t {
            Ok(self.next_token())
        } else {
            Err(self.expected_error(what))
        }
    }

    /// `primary`; see [`parse_primary`].
    fn primary(&mut self) -> (r: Result<Expression, Error>)
        requires
            old(self).wf(),
        ensures
            final(self).wf(),
            final(self).toks() == old(self).toks(),
            expr_outcome(r, final(self).pos()) == parse_primary(old(self).toks(), old(self).pos()),
            r is Ok ==> final(self).pos() > old(self).pos(),
        decreases old(self).toks().len() - old(self).pos(), 0nat,
    {
        let t = self.peek_kind();
        if t == TokenType::Number || t == TokenType::String || t == TokenType::True || t
            == TokenType::False || t == TokenType::Nil {
            let tok = self.next_token();
            Ok(Expression::Literal(LiteralExpression::new(tok.literal)))
        } else if t == TokenType::Identifier {
            let tok = self.next_token();
            Ok(Expression::Variable(VariableExpression::new(tok)))
        } else if t == TokenType::OpenParen {
            self.advance();
            match self.binary_level(0) {
                Ok(e) => {
                    if self.peek_kind() == TokenType::CloseParen {
                        self.advance();
                        Ok(Expression::Grouping(GroupingExpression::new(e)))
                    } else {
                        Err(self.expected_error("Expected ')' after expression"))
                    }
                },
                Err(err) => Err(err),
            }
        } else {
            let m = String::from_str("Unexpected '").concat(
                self.tokens[self.current].lexeme.as_str(),
            ).concat("'");
            Err(Error::new(ErrorType::ParsingError, m.as_str(), self.tokens[self.current].line))
        }
    }

    /// `unary`; see [`parse_unary`].
    fn unary(&mut self) -> (r: Result<Expression, Error>)
        requires
            old(self).wf(),
        ensures
            final(self).wf(),
            final(self).toks() == old(self).toks(),
            expr_outcome(r, final(self).pos()) == parse_unary(old(self).toks(), old(self).pos()),
            r is Ok ==> final(self).pos() > old(self).pos(),
        decreases old(self).toks().len() - old(self).pos(), 1nat,
    {
        let t = self.peek_kind();
        if t == TokenType::Minus || t == TokenType::Bang {
            let op = self.next_token();
            match self.primary() {
                Ok(e) => Ok(Expression::Unary(UnaryExpression::new(op, e))),
                Err(err) => Err(err),
            }
        } else {
            self.primary()
        }
    }

    /// Level `k` of the binary operators; see [`parse_level`].
    fn binary_level(&mut self, k: u8) -> (r: Result<Expression, Error>)
        requires
            old(self).wf(),
            k <= 5,
        ensures
            final(self).wf(),
            final(self).toks() == old(self).toks(),
            expr_outcome(r, final(self).pos()) == parse_level(
                old(self).toks(),
                old(self).pos(),
                k as nat,
            ),
            r is Ok ==> final(self).pos() > old(self).pos(),
        decreases old(self).toks().len() - old(self).pos(), 2 * (6 - k) + 1,
    {
        if k == 5 {
            return self.unary();
        }
        let ghost toks = self.toks();
        let ghost pos0 = self.pos();
        let mut left = match self.binary_level(k + 1) {
            Ok(e) => e,
            Err(err) => {
                return Err(err);
            },
        };
        loop
            invariant
                self.wf(),
                self.toks() == toks,
                toks == old(self).toks(),
                pos0 == old(self).pos(),
                k < 5,
                pos0 < self.pos(),
                parse_level(toks, pos0, k as nat) == level_rest(
                    toks,
                    self.pos(),
                    k as nat,
                    left.model(),
                ),
            decreases toks.len() - self.pos(),
        {
            let t = self.peek_kind();
            if level_op_of(k, t) {
                let op = self.next_token();
                match self.binary_level(k + 1) {
                    Ok(right) => {
                        left = Expression::Binary(BinaryExpression::new(left, op, right));
                    },
                    Err(err) => {
                        return Err(err);
                    },
                }
            } else {
                return Ok(left);
            }
        }
    }

    fn expression(&mut self) -> (r: Result<Expression, Error>)
        requires
            old(self).wf(),
        ensures
            final(self).wf(),
            final(self).toks() == old(self).toks(),
            expr_outcome(r, final(self).pos()) == parse_expression(old(self).toks(), old(self).pos()),
            r is Ok ==> final(self).pos() > old(self).pos(),
    {
        self.binary_level(0)
    }

    /// `expression ';'` with `what` naming the missing `;`.
    fn expression_then_semicolon(&mut self, what: &str) -> (r: Result<Expression, Error>)
        requires
            old(self).wf(),
        ensures
            final(self).wf(),
            final(self).toks() == old(self).toks(),
            expr_outcome(r, final(self).pos()) == then_semicolon(
                old(self).toks(),
                parse_expression(old(self).toks(), old(self).pos()),
                what@,
            ),
            r is Ok ==> final(self).pos() > old(self).pos(),
    {
        match self.expression() {
            Ok(e) => match self.consume(TokenType::Semicolon, what) {
                Ok(_) => Ok(e),
                Err(err) => Err(err),
            },
            Err(err) => Err(err),
        }
    }

    /// See [`parse_let`].
    fn let_statement(&mut self) -> (r: Result<Statement, Error>)
        requires
            old(self).wf(),
            kind(old(self).toks(), old(self).pos()) == TokenType::Let,
        ensures
            final(self).wf(),
            final(self).toks() == old(self).toks(),
            stmt_outcome(r, final(self).pos()) == parse_let(old(self).toks(), old(self).pos()),
            r is Ok ==> final(self).pos() > old(self).pos(),
    {
        self.advance();
        let identifier = match self.consume(TokenType::Identifier, "Expected identifier after 'let'") {
            Ok(t) => t,
            Err(err) => {
                return Err(err);
            },
        };
        match self.consume(TokenType::Equal, "Expected '=' after identifier") {
            Ok(_) => {},
            Err(err) => {
                return Err(err);
            },
        }
        match self.expression_then_semicolon("Expected ';' after variable declaration") {
            Ok(value) => Ok(Statement::Let(LetStatement::new(identifier, value))),
            Err(err) => Err(err),
        }
    }

    /// See [`parse_assignment`].
    fn assignment_statement(&mut self) -> (r: Result<Statement, Error>)
        requires
            old(self).wf(),
            kind(old(self).toks(), old(self).pos()) == TokenType::Identifier,
        ensures
            final(self).wf(),
            final(self).toks() == old(self).toks(),
            stmt_outcome(r, final(self).pos()) == parse_assignment(old(self).toks(), old(self).pos()),
            r is Ok ==> final(self).pos() > old(self).pos(),
    {
        let identifier = self.next_token();
        match self.consume(TokenType::Equal, "Expected '=' after identifier") {
            Ok(_) => {},
            Err(err) => {
                return Err(err);
            },
        }
        match self.expression_then_semicolon("Expected ';' after variable declaration") {
            Ok(value) => Ok(Statement::Assignment(AssignmentExpression::new(identifier, value))),
            Err(err) => Err(err),
        }
    }

    /// See [`parse_expression_statement`].
    fn expression_statement(&mut self) -> (r: Result<Statement, Error>)
        requires
            old(self).wf(),
        ensures
            final(self).wf(),
            final(self).toks() == old(self).toks(),
            stmt_outcome(r, final(self).pos()) == parse_expression_statement(old(self).toks(), old(self).pos()),
            r is Ok ==> final(self).pos() > old(self).pos(),
    {
        match self.expression_then_semicolon("Expected ';' after expression") {
            Ok(e) => Ok(Statement::Expression(ExpressionStatement::new(e))),
            Err(err) => Err(err),
        }
    }

    /// See [`parse_print`].
    fn print_statement(&mut self) -> (r: Result<Statement, Error>)
        requires
            old(self).wf(),
            kind(old(self).toks(), old(self).pos()) == TokenType::Print,
        ensures
            final(self).wf(),
            final(self).toks() == old(self).toks(),
            stmt_outcome(r, final(self).pos()) == parse_print(old(self).toks(), old(self).pos()),
            r is Ok ==> final(self).pos() > old(self).pos(),
    {
        let ghost toks = self.toks();
        let ghost pos0 = self.pos();
        self.advance();
        let first = match self.expression() {
            Ok(e) => e,
            Err(err) => {
                return Err(err);
            },
        };
        let mut values: Vec<Expression> = Vec::new();
        values.push(first);
        assert(expr_models(values@) =~= seq![first.model()]);
        loop
            invariant
                self.wf(),
                self.toks() == toks,
                toks == old(self).toks(),
                pos0 == old(self).pos(),
                pos0 < self.pos(),
                parse_print(toks, pos0) == print_rest(toks, self.pos(), expr_models(values@)),
            decreases toks.len() - self.pos(),
        {
            if self.peek_kind() == TokenType::Comma {
                self.advance();
                match self.expression() {
                    Ok(e) => {
                        proof {
                            assert(expr_models(values@.push(e)) =~= expr_models(values@).push(e.model()));
                        }
                        values.push(e);
                    },
                    Err(err) => {
                        return Err(err);
                    },
                }
            } else {
                match self.consume(TokenType::Semicolon, "Expected ';' after expression") {
                    Ok(_) => {
                        return Ok(Statement::Print(PrintStatement::new(values)));
                    },
                    Err(err) => {
                        return Err(err);
                    },
                }
            }
        }
    }

    /// See [`parse_block`].
    fn block_statement(&mut self) -> (r: Result<Statement, Error>)
        requires
            old(self).wf(),
        ensures
            final(self).wf(),
            final(self).toks() == old(self).toks(),
            stmt_outcome(r, final(self).pos()) == parse_block(old(self).toks(), old(self).pos()),
            r is Ok ==> final(self).pos() > old(self).pos(),
        decreases old(self).toks().len() - old(self).pos(), 1nat,
    {
        let ghost toks = self.toks();
        let ghost pos0 = self.pos();
        if self.peek_kind() != TokenType::OpenCurly {
            return Err(self.expected_error("Expected '{' before block"));
        }
        self.advance();
        let mut statements: Vec<Statement> = Vec::new();
        assert(stmt_models(statements@) =~= Seq::<Stmt>::empty());
        loop
            invariant
                self.wf(),
                self.toks() == toks,
                toks == old(self).toks(),
                pos0 == old(self).pos(),
                pos0 < self.pos(),
                parse_block(toks, pos0) == block_rest(toks, self.pos(), stmt_models(statements@)),
            decreases toks.len() - self.pos(),
        {
            let t = self.peek_kind();
            if t == TokenType::CloseCurly {
                self.advance();
                return Ok(Statement::Block(BlockStatement::new(statements)));
            }
            if t == TokenType::EOF {
                return Err(self.expected_error("Expected '}' after block"));
            }
            match self.statement() {
                Ok(st) => {
                    proof {
                        lemma_stmt_models_push(statements@, st);
                    }
                    statements.push(st);
                },
                Err(err) => {
                    return Err(err);
                },
            }
        }
    }

    /// See [`parse_if`].
    fn if_statement(&mut self) -> (r: Result<Statement, Error>)
        requires
            old(self).wf(),
            kind(old(self).toks(), old(self).pos()) == TokenType::If,
        ensures
            final(self).wf(),
            final(self).toks() == old(self).toks(),
            stmt_outcome(r, final(self).pos()) == parse_if(old(self).toks(), old(self).pos()),
            r is Ok ==> final(self).pos() > old(self).pos(),
        decreases old(self).toks().len() - old(self).pos(), 1nat,
    {
        self.advance();
        let conditional = match self.expression() {
            Ok(e) => e,
            Err(err) => {
                return Err(err);
            },
        };
        let then_branch = match self.block_statement() {
            Ok(b) => b,
            Err(err) => {
                return Err(err);
            },
        };
        if self.peek_kind() == TokenType::Else {
            self.advance();
            let else_branch = if self.peek_kind() == TokenType::If {
                self.if_statement()
            } else {
                self.block_statement()
            };
            match else_branch {
                Ok(e) => Ok(Statement::If(IfStatement::new(conditional, then_branch, Some(e)))),
                Err(err) => Err(err),
            }
        } else {
            Ok(Statement::If(IfStatement::new(conditional, then_branch, None)))
        }
    }

    /// See [`parse_while`].
    fn while_statement(&mut self) -> (r: Result<Statement, Error>)
        requires
            old(self).wf(),
            kind(old(self).toks(), old(self).pos()) == TokenType::While,
        ensures
            final(self).wf(),
            final(self).toks() == old(self).toks(),
            stmt_outcome(r, final(self).pos()) == parse_while(old(self).toks(), old(self).pos()),
            r is Ok ==> final(self).pos() > old(self).pos(),
        decreases old(self).toks().len() - old(self).pos(), 1nat,
    {
        self.advance();
        let conditional = match self.expression() {
            Ok(e) => e,
            Err(err) => {
                return Err(err);
            },
        };
        match self.block_statement() {
            Ok(b) => Ok(Statement::While(WhileStatement::new(conditional, b))),
            Err(err) => Err(err),
        }
    }

    /// One statement, chosen by the current token; see [`parse_statement`].
    fn statement(&mut self) -> (r: Result<Statement, Error>)
        requires
            old(self).wf(),
        ensures
            final(self).wf(),
            final(self).toks() == old(self).toks(),
            stmt_outcome(r, final(self).pos()) == parse_statement(old(self).toks(), old(self).pos()),
            r is Ok ==> final(self).pos() > old(self).pos(),
        decreases old(self).toks().len() - old(self).pos(), 2nat,
    {
        let t = self.peek_kind();
        if t == TokenType::Let {
            self.let_statement()
        } else if t == TokenType::Identifier {
            self.assignment_statement()
        } else if t == TokenType::OpenCurly {
            self.block_statement()
        } else if t == TokenType::If {
            self.if_statement()
        } else if t == TokenType::While {
            self.while_statement()
        } else if t == TokenType::Print {
            self.print_statement()
        } else {
            self.expression_statement()
        }
    }

    /// Parses statements up to the end of input; see [`parse_program`].
    pub fn parse(&mut self) -> (r: Result<Vec<Statement>, Error>)
        requires
            old(self).wf(),
        ensures
            final(self).wf(),
            final(self).toks() == old(self).toks(),
            program_outcome(r) == parse_program(old(self).toks(), old(self).pos(), Seq::empty()),
    {
        let ghost toks = self.toks();
        let ghost pos0 = self.pos();
        let mut statements: Vec<Statement> = Vec::new();
        assert(stmt_models(statements@) =~= Seq::<Stmt>::empty());
        while self.peek_kind() != TokenType::EOF
            invariant
                self.wf(),
                self.toks() == toks,
                toks == old(self).toks(),
                pos0 == old(self).pos(),
                parse_program(toks, pos0, Seq::empty()) == parse_program(
                    toks,
                    self.pos(),
                    stmt_models(statements@),
                ),
            decreases toks.len() - self.pos(),
        {
            match self.statement() {
                Ok(st) => {
                    proof {
                        lemma_stmt_models_push(statements@, st);
                    }
                    statements.push(st);
                },
                Err(err) => {
                    return Err(err);
                },
            }
        }
        Ok(statements)
    }
}

} // verus!
