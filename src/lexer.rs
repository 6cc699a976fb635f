use vstd::prelude::*;
use crate::error::{Error, ErrorModel, ErrorType};
use crate::object::{decimal_value, read_number, reads_decimals, Object, Value};
use crate::token::{token_models, Token, TokenModel, TokenType};

verus! {

pub open spec fn is_digit(c: char) -> bool {
    '0' <= c && c <= '9'
}

pub open spec fn is_alpha(c: char) -> bool {
    ('a' <= c && c <= 'z') || ('A' <= c && c <= 'Z')
}

/// End of the run of digits that starts at `i`.
pub open spec fn digits_end(src: Seq<char>, i: int) -> int
    decreases src.len() - i,
{
    if 0 <= i < src.len() && is_digit(src[i]) {
        digits_end(src, i + 1)
    } else {
        i
    }
}

/// End of the run of letters that starts at `i`.
pub open spec fn alpha_end(src: Seq<char>, i: int) -> int
    decreases src.len() - i,
{
    if 0 <= i < src.len() && is_alpha(src[i]) {
        alpha_end(src, i + 1)
    } else {
        i
    }
}

/// The first `"` at or after `i`, or the end of the source.
pub open spec fn quote_end(src: Seq<char>, i: int) -> int
    decreases src.len() - i,
{
    if 0 <= i < src.len() && src[i] != '"' {
        quote_end(src, i + 1)
    } else {
        i
    }
}

/// The first newline at or after `i`, or the end of the source.
pub open spec fn line_end(src: Seq<char>, i: int) -> int
    decreases src.len() - i,
{
    if 0 <= i < src.len() && src[i] != '\n' {
        line_end(src, i + 1)
    } else {
        i
    }
}

pub proof fn lemma_run_ends(src: Seq<char>, i: int)
    requires
        0 <= i <= src.len(),
    ensures
        i <= digits_end(src, i) <= src.len(),
        i <= alpha_end(src, i) <= src.len(),
        i <= quote_end(src, i) <= src.len(),
        i <= line_end(src, i) <= src.len(),
        forall|j: int| i <= j < digits_end(src, i) ==> is_digit(#[trigger] src[j]),
        forall|j: int| i <= j < alpha_end(src, i) ==> is_alpha(#[trigger] src[j]),
        quote_end(src, i) < src.len() ==> src[quote_end(src, i)] == '"',
    decreases src.len() - i,
{
    if i < src.len() {
        lemma_run_ends(src, i + 1);
    }
}

/// The reserved words.
pub open spec fn keyword(w: Seq<char>) -> Option<TokenType> {
    if w == "let"@ {
        Some(TokenType::Let)
    } else if w == "if"@ {
        Some(TokenType::If)
    } else if w == "else"@ {
        Some(TokenType::Else)
    } else if w == "while"@ {
        Some(TokenType::While)
    } else if w == "true"@ {
        Some(TokenType::True)
    } else if w == "false"@ {
        Some(TokenType::False)
    } else if w == "nil"@ {
        Some(TokenType::Nil)
    } else if w == "print"@ {
        Some(TokenType::Print)
    } else {
        None
    }
}

/// The token for a run of letters: a keyword (`true` and `false` carrying
/// their Boolean) or an identifier.
pub open spec fn word_token(w: Seq<char>, line: nat) -> TokenModel {
    match keyword(w) {
        Some(TokenType::True) => TokenModel {
            ttype: TokenType::True,
            lexeme: w,
            literal: Value::Boolean(true),
            line,
        },
        Some(TokenType::False) => TokenModel {
            ttype: TokenType::False,
            lexeme: w,
            literal: Value::Boolean(false),
            line,
        },
        Some(t) => TokenModel { ttype: t, lexeme: w, literal: Value::Nil, line },
        None => TokenModel { ttype: TokenType::Identifier, lexeme: w, literal: Value::Nil, line },
    }
}

/// Characters that always stand alone as a token.
pub open spec fn single_kind(c: char) -> Option<TokenType> {
    if c == '(' {
        Some(TokenType::OpenParen)
    } else if c == ')' {
        Some(TokenType::CloseParen)
    } else if c == '{' {
        Some(TokenType::OpenCurly)
    } else if c == '}' {
        Some(TokenType::CloseCurly)
    } else if c == '+' {
        Some(TokenType::Plus)
    } else if c == '-' {
        Some(TokenType::Minus)
    } else if c == '*' {
        Some(TokenType::Multiplication)
    } else if c == ';' {
        Some(TokenType::Semicolon)
    } else {
        None
    }
}

/// Operators that may be followed by `=`: the kind alone and with `=`.
pub open spec fn pair_kinds(c: char) -> Option<(TokenType, TokenType)> {
    if c == '=' {
        Some((TokenType::Equal, TokenType::EqualEqual))
    } else if c == '!' {
        Some((TokenType::Bang, TokenType::BangEqual))
    } else if c == '>' {
        Some((TokenType::Greater, TokenType::GreaterEqual))
    } else if c == '<' {
        Some((TokenType::Less, TokenType::LessEqual))
    } else {
        None
    }
}

pub open spec fn plain_token(t: TokenType, text: Seq<char>, line: nat) -> TokenModel {
    TokenModel { ttype: t, lexeme: text, literal: Value::Nil, line }
}

pub open spec fn eof_token(line: nat) -> TokenModel {
    plain_token(TokenType::EOF, "\0"@, line)
}

pub open spec fn lex_error(message: Seq<char>, line: nat) -> ErrorModel {
    ErrorModel { etype: ErrorType::LexingError, message, line }
}

/// Puts `prefix` in front of the tokens of a successful scan.
pub open spec fn after(
    prefix: Seq<TokenModel>,
    r: Result<Seq<TokenModel>, ErrorModel>,
) -> Result<Seq<TokenModel>, ErrorModel> {
    match r {
        Ok(ts) => Ok(prefix + ts),
        Err(e) => Err(e),
    }
}

/// The tokens of `src` from position `pos` on, with `line` the current line,
/// ending in an EOF token; or the first lexing error.
pub open spec fn scan<P: Fn(&str) -> u64>(read: P, src: Seq<char>, pos: int, line: nat) -> Result<
    Seq<TokenModel>,
    ErrorModel,
>
    decreases src.len() - pos,
{
    if pos < 0 || pos >= src.len() {
        Ok(seq![eof_token(line)])
    } else {
        let c = src[pos];
        proof {
            lemma_run_ends(src, pos + 1);
        }
        if c == ' ' || c == '\t' || c == '\r' {
            scan(read, src, pos + 1, line)
        } else if c == '\n' {
            scan(read, src, pos + 1, line + 1)
        } else if single_kind(c) is Some {
            after(
                seq![plain_token(single_kind(c)->Some_0, seq![c], line)],
                scan(read, src, pos + 1, line),
            )
        } else if c == '"' {
            let j = quote_end(src, pos + 1);
            if j >= src.len() {
                Err(lex_error("Unterminated string"@, line))
            } else {
                after(
                    seq![
                        TokenModel {
                            ttype: TokenType::String,
                            lexeme: src.subrange(pos, j + 1),
                            literal: Value::Str(src.subrange(pos + 1, j)),
                            line,
                        },
                    ],
                    scan(read, src, j + 1, line),
                )
            }
        } else if c == '/' {
            if pos + 1 < src.len() && src[pos + 1] == '/' {
                proof {
                    lemma_run_ends(src, pos + 2);
                }
                scan(read, src, line_end(src, pos + 2), line)
            } else {
                after(
                    seq![plain_token(TokenType::Division, seq![c], line)],
                    scan(read, src, pos + 1, line),
                )
            }
        } else if pair_kinds(c) is Some {
            let (one, two) = pair_kinds(c)->Some_0;
            if pos + 1 < src.len() && src[pos + 1] == '=' {
                after(
                    seq![plain_token(two, src.subrange(pos, pos + 2), line)],
                    scan(read, src, pos + 2, line),
                )
            } else {
                after(seq![plain_token(one, seq![c], line)], scan(read, src, pos + 1, line))
            }
        } else if is_digit(c) {
            let k = digits_end(src, pos + 1);
            let d = src.subrange(pos, k);
            after(
                seq![
                    TokenModel {
                        ttype: TokenType::Number,
                        lexeme: d,
                        literal: Value::Number(decimal_value(read, d)),
                        line,
                    },
                ],
                scan(read, src, k, line),
            )
        } else if is_alpha(c) {
            let k = alpha_end(src, pos + 1);
            after(seq![word_token(src.subrange(pos, k), line)], scan(read, src, k, line))
        } else {
            Err(lex_error("Invalid character '"@ + seq![c] + "'"@, line))
        }
    }
}

/// A successful scan ends in an EOF token.
pub proof fn lemma_scan_ends_in_eof<P: Fn(&str) -> u64>(read: P, src: Seq<char>, pos: int, line: nat)
    ensures
        scan(read, src, pos, line) is Ok ==> {
            let ts = scan(read, src, pos, line)->Ok_0;
            ts.len() > 0 && ts[ts.len() - 1].ttype == TokenType::EOF
        },
    decreases src.len() - pos,
{
    if 0 <= pos < src.len() {
        let c = src[pos];
        lemma_run_ends(src, pos + 1);
        if pos + 2 <= src.len() {
            lemma_run_ends(src, pos + 2);
            lemma_scan_ends_in_eof(read, src, pos + 2, line);
            lemma_scan_ends_in_eof(read, src, line_end(src, pos + 2), line);
        }
        lemma_scan_ends_in_eof(read, src, pos + 1, line);
        lemma_scan_ends_in_eof(read, src, pos + 1, line + 1);
        if quote_end(src, pos + 1) < src.len() {
            lemma_scan_ends_in_eof(read, src, quote_end(src, pos + 1) + 1, line);
        }
        lemma_scan_ends_in_eof(read, src, digits_end(src, pos + 1), line);
        lemma_scan_ends_in_eof(read, src, alpha_end(src, pos + 1), line);
        let r = scan(read, src, pos, line);
        if r is Ok {
            let ts = r->Ok_0;
            assert(ts.len() > 0 && ts[ts.len() - 1].ttype == TokenType::EOF);
        }
    }
}

/// The model of a lexing result.
pub open spec fn lex_model(r: Result<Vec<Token>, Error>) -> Result<Seq<TokenModel>, ErrorModel> {
    match r {
        Ok(ts) => Ok(token_models(ts@)),
        Err(e) => Err(e@),
    }
}

/// Splits source text into tokens in a single left-to-right pass.
pub struct Lexer {
    source: Vec<char>,
    line: usize,
    current: usize,
}

/// Relies on `String::push`: appends one character to the end of the string.
#[verifier::external_body]
fn push_char(s: &mut String, c: char)
    ensures
        final(s)@ == old(s)@.push(c),
{
    s.push(c)
}

fn chars_of(s: &str) -> (r: Vec<char>)
    ensures
        r@ == s@,
{
    let mut out: Vec<char> = Vec::new();
    for c in it: s.chars()
        invariant
            out@ == it.seq().subrange(0, it.index() as int),
    {
        out.push(c);
    }
    out
}

impl Lexer {
    pub closed spec fn source(&self) -> Seq<char> {
        self.source@
    }

    pub closed spec fn line(&self) -> nat {
        self.line as nat
    }

    pub closed spec fn current(&self) -> int {
        self.current as int
    }

    pub open spec fn wf(&self) -> bool {
        &&& 1 <= self.line() <= self.current() + 1
        &&& self.current() <= self.source().len()
        &&& self.source().len() < usize::MAX
    }

    pub fn new(source: &str) -> (r: Self)
        requires
            source@.len() < usize::MAX,
        ensures
            r.wf(),
            r.source() == source@,
            r.current() == 0,
            r.line() == 1,
    {
        Lexer { source: chars_of(source), line: 1, current: 0 }
    }
}

pub proof fn lemma_after_push(prefix: Seq<Token>, t: Token, r: Result<Seq<TokenModel>, ErrorModel>)
    ensures
        after(token_models(prefix.push(t)), r) == after(token_models(prefix), after(seq![t@], r)),
{
    assert(token_models(prefix.push(t)) =~= token_models(prefix).push(t@));
    match r {
        Ok(ts) => {
            assert(token_models(prefix).push(t@) + ts =~= token_models(prefix) + (seq![t@] + ts));
        },
        Err(e) => {},
    }
}

fn single_kind_of(c: char) -> (r: Option<TokenType>)
    ensures
        r == single_kind(c),
{
    match c {
        '(' => Some(TokenType::OpenParen),
        ')' => Some(TokenType::CloseParen),
        '{' => Some(TokenType::OpenCurly),
        '}' => Some(TokenType::CloseCurly),
        '+' => Some(TokenType::Plus),
        '-' => Some(TokenType::Minus),
        '*' => Some(TokenType::Multiplication),
        ';' => Some(TokenType::Semicolon),
        _ => None,
    }
}

fn pair_kinds_of(c: char) -> (r: Option<(TokenType, TokenType)>)
    ensures
        r == pair_kinds(c),
{
    match c {
        '=' => Some((TokenType::Equal, TokenType::EqualEqual)),
        '!' => Some((TokenType::Bang, TokenType::BangEqual)),
        '>' => Some((TokenType::Greater, TokenType::GreaterEqual)),
        '<' => Some((TokenType::Less, TokenType::LessEqual)),
        _ => None,
    }
}

fn is_digit_char(c: char) -> (r: bool)
    ensures
        r == is_digit(c),
{
    '0' <= c && c <= '9'
}

fn is_alpha_char(c: char) -> (r: bool)
    ensures
        r == is_alpha(c),
{
    ('a' <= c && c <= 'z') || ('A' <= c && c <= 'Z')
}

fn same_text(w: &String, k: &str) -> (r: bool)
    ensures
        r == (w@ == k@),
{
    *w == String::from_str(k)
}

/// The token for a run of letters; see [`word_token`].
fn word_token_of(w: String, line: usize) -> (r: Token)
    ensures
        r@ == word_token(w@, line as nat),
{
    let kind = if same_text(&w, "let") {
        Some(TokenType::Let)
    } else if same_text(&w, "if") {
        Some(TokenType::If)
    } else if same_text(&w, "else") {
        Some(TokenType::Else)
    } else if same_text(&w, "while") {
        Some(TokenType::While)
    } else if same_text(&w, "true") {
        Some(TokenType::True)
    } else if same_text(&w, "false") {
        Some(TokenType::False)
    } else if same_text(&w, "nil") {
        Some(TokenType::Nil)
    } else if same_text(&w, "print") {
        Some(TokenType::Print)
    } else {
        None
    };
    assert(kind == keyword(w@));
    match kind {
        Some(TokenType::True) => Token {
            ttype: TokenType::True,
            lexeme: w,
            literal: Object::Boolean(true),
            line,
        },
        Some(TokenType::False) => Token {
            ttype: TokenType::False,
            lexeme: w,
            literal: Object::Boolean(false),
            line,
        },
        Some(t) => Token { ttype: t, lexeme: w, literal: Object::Nil, line },
        None => Token { ttype: TokenType::Identifier, lexeme: w, literal: Object::Nil, line },
    }
}

impl Lexer {
    fn char_at(&self, i: usize) -> (c: char)
        requires
            i < self.source().len(),
        ensures
            c == self.source()[i as int],
    {
        self.source[i]
    }

    fn text(&self, a: usize, b: usize) -> (r: String)
        requires
            a <= b <= self.source().len(),
        ensures
            r@ == self.source().subrange(a as int, b as int),
    {
        let mut r = String::new();
        let mut i = a;
        while i < b
            invariant
                a <= i <= b <= self.source().len(),
                r@ == self.source().subrange(a as int, i as int),
            decreases b - i,
        {
            proof {
                assert(self.source().subrange(a as int, i + 1) =~= r@.push(self.source()[i as int]));
            }
            push_char(&mut r, self.source[i]);
            i = i + 1;
        }
        r
    }

    fn digits_end_from(&self, i: usize, len: usize) -> (k: usize)
        requires
            i <= len == self.source().len(),
        ensures
            k == digits_end(self.source(), i as int),
    {
        let mut k = i;
        while k < len && is_digit_char(self.char_at(k))
            invariant
                i <= k <= len == self.source().len(),
                digits_end(self.source(), k as int) == digits_end(self.source(), i as int),
            decreases len - k,
        {
            k = k + 1;
        }
        k
    }

    fn alpha_end_from(&self, i: usize, len: usize) -> (k: usize)
        requires
            i <= len == self.source().len(),
        ensures
            k == alpha_end(self.source(), i as int),
    {
        let mut k = i;
        while k < len && is_alpha_char(self.char_at(k))
            invariant
                i <= k <= len == self.source().len(),
                alpha_end(self.source(), k as int) == alpha_end(self.source(), i as int),
            decreases len - k,
        {
            k = k + 1;
        }
        k
    }

    fn quote_end_from(&self, i: usize, len: usize) -> (k: usize)
        requires
            i <= len == self.source().len(),
        ensures
            k == quote_end(self.source(), i as int),
    {
        let mut k = i;
        while k < len && self.char_at(k) != '"'
            invariant
                i <= k <= len == self.source().len(),
                quote_end(self.source(), k as int) == quote_end(self.source(), i as int),
            decreases len - k,
        {
            k = k + 1;
        }
        k
    }

    fn line_end_from(&self, i: usize, len: usize) -> (k: usize)
        requires
            i <= len == self.source().len(),
        ensures
            k == line_end(self.source(), i as int),
    {
        let mut k = i;
        while k < len && self.char_at(k) != '\n'
            invariant
                i <= k <= len == self.source().len(),
                line_end(self.source(), k as int) == line_end(self.source(), i as int),
            decreases len - k,
        {
            k = k + 1;
        }
        k
    }

    /// Lexes the rest of the source: the tokens, ending in an EOF token, or
    /// the first lexing error.
    pub fn lex<P: Fn(&str) -> u64>(&mut self, read: &P) -> (r: Result<Vec<Token>, Error>)
        requires
            old(self).wf(),
            reads_decimals(*read),
        ensures
            lex_model(r) == scan(*read, old(self).source(), old(self).current(), old(self).line()),
            final(self).wf(),
            final(self).source() == old(self).source(),
    {
        let ghost src = self.source();
        let ghost start_pos = self.current();
        let ghost start_line = self.line();
        let len = self.source.len();
        let mut tokens: Vec<Token> = Vec::new();
        assert(token_models(tokens@) =~= Seq::<TokenModel>::empty());
        while self.current < len
            invariant
                self.wf(),
                self.source() == src,
                src == old(self).source(),
                start_pos == old(self).current(),
                start_line == old(self).line(),
                len == src.len(),
                reads_decimals(*read),
                scan(*read, src, start_pos, start_line) == after(
                    token_models(tokens@),
                    scan(*read, src, self.current(), self.line()),
                ),
            decreases len - self.current,
        {
            let start = self.current;
            let line = self.line;
            let c = self.char_at(start);
            proof {
                lemma_run_ends(src, start + 1);
            }
            if c == ' ' || c == '\t' || c == '\r' {
                self.current = start + 1;
            } else if c == '\n' {
                self.current = start + 1;
                self.line = line + 1;
            } else if let Some(t) = single_kind_of(c) {
                let text = self.text(start, start + 1);
                assert(text@ =~= seq![c]);
                let tok = Token::new(t, text.as_str(), Object::Nil, line);
                proof {
                    lemma_after_push(tokens@, tok, scan(*read, src, start + 1, line as nat));
                }
                tokens.push(tok);
                self.current = start + 1;
            } else if c == '"' {
                let j = self.quote_end_from(start + 1, len);
                if j >= len {
                    let e = Error::new(ErrorType::LexingError, "Unterminated string", line);
                    assert(scan(*read, src, start as int, line as nat) == Err::<Seq<TokenModel>, ErrorModel>(e@));
                    return Err(e);
                }
                let lexeme = self.text(start, j + 1);
                let body = self.text(start + 1, j);
                let tok = Token { ttype: TokenType::String, lexeme, literal: Object::String(body), line };
                proof {
                    lemma_after_push(tokens@, tok, scan(*read, src, j + 1, line as nat));
                }
                tokens.push(tok);
                self.current = j + 1;
            } else if c == '/' {
                if start + 1 < len && self.char_at(start + 1) == '/' {
                    proof {
                        lemma_run_ends(src, start + 2);
                    }
                    self.current = self.line_end_from(start + 2, len);
                } else {
                    let text = self.text(start, start + 1);
                    assert(text@ =~= seq![c]);
                    let tok = Token::new(TokenType::Division, text.as_str(), Object::Nil, line);
                    proof {
                        lemma_after_push(tokens@, tok, scan(*read, src, start + 1, line as nat));
                    }
                    tokens.push(tok);
                    self.current = start + 1;
                }
            } else if let Some((one, two)) = pair_kinds_of(c) {
                if start + 1 < len && self.char_at(start + 1) == '=' {
                    let text = self.text(start, start + 2);
                    let tok = Token::new(two, text.as_str(), Object::Nil, line);
                    proof {
                        lemma_after_push(tokens@, tok, scan(*read, src, start + 2, line as nat));
                    }
                    tokens.push(tok);
                    self.current = start + 2;
                } else {
                    let text = self.text(start, start + 1);
                    assert(text@ =~= seq![c]);
                    let tok = Token::new(one, text.as_str(), Object::Nil, line);
                    proof {
                        lemma_after_push(tokens@, tok, scan(*read, src, start + 1, line as nat));
                    }
                    tokens.push(tok);
                    self.current = start + 1;
                }
            } else if is_digit_char(c) {
                let k = self.digits_end_from(start + 1, len);
                let digits = self.text(start, k);
                let value = read_number(read, digits.as_str());
                let tok = Token { ttype: TokenType::Number, lexeme: digits, literal: Object::Number(value), line };
                proof {
                    lemma_after_push(tokens@, tok, scan(*read, src, k as int, line as nat));
                }
                tokens.push(tok);
                self.current = k;
            } else if is_alpha_char(c) {
                let k = self.alpha_end_from(start + 1, len);
                let word = self.text(start, k);
                let tok = word_token_of(word, line);
                proof {
                    lemma_after_push(tokens@, tok, scan(*read, src, k as int, line as nat));
                }
                tokens.push(tok);
                self.current = k;
            } else {
                let text = self.text(start, start + 1);
                assert(text@ =~= seq![c]);
                let message = String::from_str("Invalid character '").concat(text.as_str()).concat("'");
                let e = Error::new(ErrorType::LexingError, message.as_str(), line);
                assert(e@.message =~= "Invalid character '"@ + seq![c] + "'"@);
                assert(scan(*read, src, start as int, line as nat) == Err::<Seq<TokenModel>, ErrorModel>(e@));
                return Err(e);
            }
        }
        let eof = Token::new(TokenType::EOF, "\0", Object::Nil, self.line);
        proof {
            lemma_after_push(tokens@, eof, Ok(Seq::<TokenModel>::empty()));
            assert(seq![eof@] + Seq::<TokenModel>::empty() =~= seq![eof@]);
        }
        tokens.push(eof);
        assert(token_models(tokens@) =~= token_models(tokens@) + Seq::<TokenModel>::empty());
        Ok(tokens)
    }
}

} // verus!
