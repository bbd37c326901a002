use vstd::prelude::*;
use vstd::string::*;

verus! {

/// Why a decode stopped.
#[derive(Debug, Clone, Copy, PartialEq, Eq, Structural)]
pub enum ErrorKind {
    /// A fixed-width field asked for `need` bytes where only `got` were left.
    InsufficientLength { need: usize, got: usize },
}

impl ErrorKind {
    /// The kind written out, with its numbers in decimal.
    pub open spec fn text(self) -> Seq<char> {
        match self {
            ErrorKind::InsufficientLength { need, got } => "InsufficientLength { need: "@
                + decimal(need as nat) + ", got: "@ + decimal(got as nat) + " }"@,
        }
    }
}

/// A failed decode: what went wrong, an optional free-text reason, and the
/// name of the field whose decoder gave up.
#[derive(Debug)]
pub struct Error {
    pub kind: ErrorKind,
    pub reason: String,
    pub location: &'static str,
}

/// The mathematical content of an [`Error`].
pub struct ErrorView {
    pub kind: ErrorKind,
    pub reason: Seq<char>,
    pub location: Seq<char>,
}

impl ErrorView {
    /// The message of the error: its kind, then a colon and the reason where
    /// there is one, then in brackets where it was raised.
    pub open spec fn text(self) -> Seq<char> {
        let reason = if self.reason.len() == 0 {
            Seq::empty()
        } else {
            ": "@ + self.reason
        };
        self.kind.text() + reason + " (at "@ + self.location + ")"@
    }
}

impl View for Error {
    type V = ErrorView;

    open spec fn view(&self) -> ErrorView {
        ErrorView { kind: self.kind, reason: self.reason@, location: self.location@ }
    }
}

impl Error {
    /// An error of the given kind, raised at `location`, with no reason attached.
    pub fn new(kind: ErrorKind, location: &'static str) -> (err: Self)
        ensures
            err@ == (ErrorView { kind, reason: Seq::empty(), location: location@ }),
    {
        let err = Self::with_reason(kind, "", location);
        proof {
            reveal_strlit("");
            assert(err.reason@ =~= Seq::empty());
        }
        err
    }

    /// An error of the given kind, raised at `location`, that explains itself.
    pub fn with_reason(kind: ErrorKind, reason: &str, location: &'static str) -> (err: Self)
        ensures
            err@ == (ErrorView { kind, reason: reason@, location: location@ }),
    {
        Self { kind, reason: reason.to_owned(), location }
    }

    /// The message of the error, for a person to read.
    pub fn to_string(&self) -> (text: String)
        ensures
            text@ == self@.text(),
    {
        let mut out = String::new();
        match self.kind {
            ErrorKind::InsufficientLength { need, got } => {
                out.append("InsufficientLength { need: ");
                push_decimal(&mut out, need);
                out.append(", got: ");
                push_decimal(&mut out, got);
                out.append(" }");
            },
        }
        if !self.reason.as_str().is_empty() {
            out.append(": ");
            out.append(self.reason.as_str());
        }
        out.append(" (at ");
        out.append(self.location);
        out.append(")");
        out
    }
}

/// The character of the decimal digit `d`.
pub open spec fn digit(d: nat) -> char {
    ('0' as nat + d) as char
}

/// The decimal numeral of `n`, without leading zeros.
pub open spec fn decimal(n: nat) -> Seq<char>
    decreases n,
{
    if n < 10 {
        seq![digit(n)]
    } else {
        decimal(n / 10).push(digit(n % 10))
    }
}

/// The digit `d` as a string of one character.
fn digit_str(d: usize) -> (s: &'static str)
    requires
        d < 10,
    ensures
        s@ == seq![digit(d as nat)],
{
    proof {
        reveal_strlit("0");
        reveal_strlit("1");
        reveal_strlit("2");
        reveal_strlit("3");
        reveal_strlit("4");
        reveal_strlit("5");
        reveal_strlit("6");
        reveal_strlit("7");
        reveal_strlit("8");
        reveal_strlit("9");
    }
    match d {
        0 => "0",
        1 => "1",
        2 => "2",
        3 => "3",
        4 => "4",
        5 => "5",
        6 => "6",
        7 => "7",
        8 => "8",
        _ => "9",
    }
}

/// Writes `n` in decimal at the end of `out`.
fn push_decimal(out: &mut String, n: usize)
    ensures
        final(out)@ == old(out)@ + decimal(n as nat),
    decreases n,
{
    if n >= 10 {
        push_decimal(out, n / 10);
    }
    out.append(digit_str(n % 10));
}

} // verus!
