//! What a literal can be rejected for.
//!
//! A [`Diagnostic`] is one cause at one place. A [`ParseError`] is what the
//! parse of a whole element reports: a single cause, or, where a group was
//! read neither as attributes nor as children, the cause of each failure.

use vstd::prelude::*;

verus! {

/// The two names that select a field's shape when they lead it.
#[derive(Clone, Copy, Debug, PartialEq, Eq, Structural)]
pub enum Keyword {
    Class,
    Style,
}

impl Keyword {
    /// The keyword as it is written.
    pub open spec fn text(self) -> Seq<char> {
        match self {
            Keyword::Class => "class"@,
            Keyword::Style => "style"@,
        }
    }

    /// The keyword as it is written.
    pub fn as_str(self) -> (text: &'static str)
        ensures
            text@ == self.text(),
    {
        match self {
            Keyword::Class => "class",
            Keyword::Style => "style",
        }
    }
}

/// Why a token sequence was rejected.
#[derive(Clone, Debug, PartialEq, Eq)]
pub enum ErrorKind {
    /// The text is not a sequence of tokens.
    Lex,
    /// An identifier was wanted, and the token is none or the input ended.
    ExpectedIdent,
    /// The identifier cannot be used as a name; with the message that says
    /// why.
    Identifier(String),
    /// This punctuation character was wanted.
    ExpectedPunct(char),
    /// This keyword was wanted.
    ExpectedKeyword(Keyword),
    /// No expression starts here; with the expression parser's message.
    Expression(String),
    /// A condition-and-class pair was written with this many components
    /// instead of two.
    TupleArity(usize),
    /// The expression parser claims to have left more tokens unread than it
    /// was given.
    Overrun,
    /// A complete element is followed by this token.
    UnexpectedToken,
}

/// The mathematical value of an [`ErrorKind`].
pub enum ErrorKindView {
    Lex,
    ExpectedIdent,
    Identifier(Seq<char>),
    ExpectedPunct(char),
    ExpectedKeyword(Keyword),
    Expression(Seq<char>),
    TupleArity(nat),
    Overrun,
    UnexpectedToken,
}

impl View for ErrorKind {
    type V = ErrorKindView;

    open spec fn view(&self) -> ErrorKindView {
        match *self {
            ErrorKind::Lex => ErrorKindView::Lex,
            ErrorKind::ExpectedIdent => ErrorKindView::ExpectedIdent,
            ErrorKind::Identifier(message) => ErrorKindView::Identifier(message@),
            ErrorKind::ExpectedPunct(ch) => ErrorKindView::ExpectedPunct(ch),
            ErrorKind::ExpectedKeyword(keyword) => ErrorKindView::ExpectedKeyword(keyword),
            ErrorKind::Expression(message) => ErrorKindView::Expression(message@),
            ErrorKind::TupleArity(actual) => ErrorKindView::TupleArity(actual as nat),
            ErrorKind::Overrun => ErrorKindView::Overrun,
            ErrorKind::UnexpectedToken => ErrorKindView::UnexpectedToken,
        }
    }
}

/// The decimal digit for `digit`, which is below ten.
pub open spec fn digit_char(digit: nat) -> char {
    if digit == 0 {
        '0'
    } else if digit == 1 {
        '1'
    } else if digit == 2 {
        '2'
    } else if digit == 3 {
        '3'
    } else if digit == 4 {
        '4'
    } else if digit == 5 {
        '5'
    } else if digit == 6 {
        '6'
    } else if digit == 7 {
        '7'
    } else if digit == 8 {
        '8'
    } else {
        '9'
    }
}

/// `n` in decimal, without leading zeros.
pub open spec fn decimal(n: nat) -> Seq<char>
    decreases n,
{
    if n < 10 {
        seq![digit_char(n)]
    } else {
        decimal(n / 10).push(digit_char(n % 10))
    }
}

fn digit_of(value: usize) -> (ch: char)
    requires
        value < 10,
    ensures
        ch == digit_char(value as nat),
{
    let digit = value;
    if digit == 0 {
        '0'
    } else if digit == 1 {
        '1'
    } else if digit == 2 {
        '2'
    } else if digit == 3 {
        '3'
    } else if digit == 4 {
        '4'
    } else if digit == 5 {
        '5'
    } else if digit == 6 {
        '6'
    } else if digit == 7 {
        '7'
    } else if digit == 8 {
        '8'
    } else {
        '9'
    }
}

/// Appends `n` in decimal to `text`.
pub fn write_decimal(n: usize, text: &mut String)
    ensures
        final(text)@ == old(text)@ + decimal(n as nat),
    decreases n,
{
    if n >= 10 {
        write_decimal(n / 10, text);
    }
    text.push(digit_of(n % 10));
}

impl ErrorKindView {
    /// The cause in words.
    pub open spec fn message(self) -> Seq<char> {
        match self {
            ErrorKindView::Lex => "cannot read the text as tokens"@,
            ErrorKindView::ExpectedIdent => "expected identifier"@,
            ErrorKindView::Identifier(message) => message,
            ErrorKindView::ExpectedPunct(ch) => "expected `"@.push(ch).push('`'),
            ErrorKindView::ExpectedKeyword(keyword) => ("expected `"@ + keyword.text()).push('`'),
            ErrorKindView::Expression(message) => message,
            ErrorKindView::TupleArity(actual) => "tuple has "@ + decimal(actual)
                + " items, expected 2"@,
            ErrorKindView::Overrun => "expression parser left more tokens than it was given"@,
            ErrorKindView::UnexpectedToken => "unexpected token"@,
        }
    }
}

impl ErrorKind {
    /// The cause in words.
    pub fn message(&self) -> (text: String)
        ensures
            text@ == self@.message(),
    {
        match self {
            ErrorKind::Lex => String::from_str("cannot read the text as tokens"),
            ErrorKind::ExpectedIdent => String::from_str("expected identifier"),
            ErrorKind::Identifier(message) => message.clone(),
            ErrorKind::ExpectedPunct(ch) => {
                let mut text = String::from_str("expected `");
                text.push(*ch);
                text.push('`');
                text
            },
            ErrorKind::ExpectedKeyword(keyword) => {
                let mut text = String::from_str("expected `");
                text.append(keyword.as_str());
                text.push('`');
                text
            },
            ErrorKind::Expression(message) => message.clone(),
            ErrorKind::TupleArity(actual) => {
                let mut text = String::from_str("tuple has ");
                write_decimal(*actual, &mut text);
                text.append(" items, expected 2");
                text
            },
            ErrorKind::Overrun => String::from_str(
                "expression parser left more tokens than it was given",
            ),
            ErrorKind::UnexpectedToken => String::from_str("unexpected token"),
        }
    }
}

/// One cause of rejection and the index of the token at which it was found,
/// counted within the token sequence that was being read.
#[derive(Clone, Debug, PartialEq, Eq)]
pub struct Diagnostic {
    pub kind: ErrorKind,
    pub at: usize,
}

/// The mathematical value of a [`Diagnostic`].
pub struct DiagnosticView {
    pub kind: ErrorKindView,
    pub at: int,
}

impl View for Diagnostic {
    type V = DiagnosticView;

    open spec fn view(&self) -> DiagnosticView {
        DiagnosticView { kind: self.kind@, at: self.at as int }
    }
}

impl Diagnostic {
    /// The cause in words.
    pub fn message(&self) -> (text: String)
        ensures
            text@ == self@.kind.message(),
    {
        self.kind.message()
    }
}

/// Why an element literal was rejected.
#[derive(Clone, Debug, PartialEq, Eq)]
pub enum ParseError {
    /// One cause. `within` is the index of the parenthesized group in whose
    /// content it was found, or `None` where it was found in the token
    /// sequence that the element stands in.
    Single { within: Option<usize>, cause: Diagnostic },
    /// The group at index `group` could be read neither as attributes nor as
    /// children.
    Ambiguous { group: usize, fields: Diagnostic, children: Diagnostic },
}

/// The mathematical value of a [`ParseError`].
pub enum ParseErrorView {
    Single { within: Option<int>, cause: DiagnosticView },
    Ambiguous { group: int, fields: DiagnosticView, children: DiagnosticView },
}

impl View for ParseError {
    type V = ParseErrorView;

    open spec fn view(&self) -> ParseErrorView {
        match *self {
            ParseError::Single { within, cause } => ParseErrorView::Single {
                within: match within {
                    Some(index) => Some(index as int),
                    None => None,
                },
                cause: cause@,
            },
            ParseError::Ambiguous { group, fields, children } => ParseErrorView::Ambiguous {
                group: group as int,
                fields: fields@,
                children: children@,
            },
        }
    }
}

impl ParseErrorView {
    /// The rejection in words. Of a group that failed both ways it names
    /// both causes, the attributes' first.
    pub open spec fn message(self) -> Seq<char> {
        match self {
            ParseErrorView::Single { cause, .. } => cause.kind.message(),
            ParseErrorView::Ambiguous { fields, children, .. } =>
                "expected attributes or children: "@ + fields.kind.message() + "; "@
                    + children.kind.message(),
        }
    }
}

impl ParseError {
    /// The rejection in words.
    pub fn message(&self) -> (text: String)
        ensures
            text@ == self@.message(),
    {
        match self {
            ParseError::Single { cause, .. } => cause.message(),
            ParseError::Ambiguous { fields, children, .. } => {
                let mut text = String::from_str("expected attributes or children: ");
                text.append(fields.message().as_str());
                text.append("; ");
                text.append(children.message().as_str());
                text
            },
        }
    }
}

} // verus!
