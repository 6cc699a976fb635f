use vstd::prelude::*;

verus! {

/// The stage at which a program was rejected.
#[derive(Debug, Clone, Copy, PartialEq, Eq, Structural)]
pub enum ErrorType {
    LexingError,
    ParsingError,
    RuntimeError,
}

/// A terminal diagnostic: what went wrong, and on which source line.
#[derive(Debug, Clone)]
pub struct Error {
    pub etype: ErrorType,
    pub message: String,
    pub line: usize,
}

/// The mathematical value of an [`Error`].
pub struct ErrorModel {
    pub etype: ErrorType,
    pub message: Seq<char>,
    pub line: nat,
}

impl View for Error {
    type V = ErrorModel;

    open spec fn view(&self) -> ErrorModel {
        ErrorModel { etype: self.etype, message: self.message@, line: self.line as nat }
    }
}

/// The name under which an error kind is reported.
pub open spec fn kind_name(t: ErrorType) -> Seq<char> {
    match t {
        ErrorType::LexingError => "LexingError"@,
        ErrorType::ParsingError => "ParsingError"@,
        ErrorType::RuntimeError => "RuntimeError"@,
    }
}

pub open spec fn digit_char(d: nat) -> char {
    if d < 10 { ((d + 48) as u8) as char } else { '?' }
}

/// Decimal notation of a natural number, most significant digit first.
pub open spec fn decimal(n: nat) -> Seq<char>
    decreases n,
{
    if n < 10 {
        seq![digit_char(n)]
    } else {
        decimal(n / 10) + seq![digit_char(n % 10)]
    }
}

/// The one-line diagnostic `[line N] Kind: message.`
pub open spec fn diagnostic(e: ErrorModel) -> Seq<char> {
    "[line "@ + decimal(e.line) + "] "@ + kind_name(e.etype) + ": "@ + e.message + "."@
}

fn digit_text(d: usize) -> (r: &'static str)
    requires
        d < 10,
    ensures
        r@ == seq![digit_char(d as nat)],
{
    proof {
        reveal_strlit("0");
        reveal_strlit("1");
        reveal_strlit("2");
        reveal_strlit("3");
        reveal_strlit("4");
        reveal_strlit("5");
        reveal_strlit("6");
        reveal_strlit("7");
        reveal_strlit("8");
        reveal_strlit("9");
    }
    match d {
        0 => "0",
        1 => "1",
        2 => "2",
        3 => "3",
        4 => "4",
        5 => "5",
        6 => "6",
        7 => "7",
        8 => "8",
        _ => "9",
    }
}

/// Writes `n` in decimal.
pub fn decimal_text(n: usize) -> (r: String)
    ensures
        r@ == decimal(n as nat),
    decreases n,
{
    if n < 10 {
        String::from_str(digit_text(n))
    } else {
        let high = decimal_text(n / 10);
        high.concat(digit_text(n % 10))
    }
}

fn kind_text(t: ErrorType) -> (r: &'static str)
    ensures
        r@ == kind_name(t),
{
    match t {
        ErrorType::LexingError => "LexingError",
        ErrorType::ParsingError => "ParsingError",
        ErrorType::RuntimeError => "RuntimeError",
    }
}

impl Error {
    pub fn new(etype: ErrorType, message: &str, line: usize) -> (r: Self)
        ensures
            r@ == (ErrorModel { etype, message: message@, line: line as nat }),
    {
        Error { etype, message: String::from_str(message), line }
    }

    /// The diagnostic line that reports this error to the user.
    pub fn render(&self) -> (r: String)
        ensures
            r@ == diagnostic(self@),
    {
        let s = String::from_str("[line ");
        let s = s.concat(decimal_text(self.line).as_str());
        let s = s.concat("] ");
        let s = s.concat(kind_text(self.etype));
        let s = s.concat(": ");
        let s = s.concat(self.message.as_str());
        s.concat(".")
    }
}

} // verus!
